//! Static configuration for an OIDC provider. Every value is supplied by the caller.
use vstd::prelude::*;

use crate::secret::SecretString;
use crate::text;
use crate::time::Duration;

verus! {

/// Default minimum interval in seconds between provider-metadata refreshes.
///
/// Bounds how often a burst of verification failures can hit the issuer's discovery endpoint.
/// Identity providers rotate signing keys on the order of hours, so a few seconds of debounce cost
/// nothing in recovery time.
pub const DEFAULT_MIN_REFRESH_INTERVAL: u64 = 30;

/// Why `openidconnect::IssuerUrl::new` refuses a text, or nothing when it accepts it.
pub uninterp spec fn issuer_url_fault(url: Seq<char>) -> Option<Seq<char>>;

/// Why `openidconnect::RedirectUrl::new` refuses a text, or nothing when it accepts it.
pub uninterp spec fn redirect_url_fault(url: Seq<char>) -> Option<Seq<char>>;

/// `openidconnect::IssuerUrl::new`: what it reports of a text that is no URL. Which texts are URLs
/// is left to [`issuer_url_fault`].
#[verifier::external_body]
fn check_issuer_url(url: &str) -> (fault: Option<String>)
    ensures
        text::optional(fault) == issuer_url_fault(url@),
{
    openidconnect::IssuerUrl::new(url.to_string()).err().map(|error| error.to_string())
}

/// `openidconnect::RedirectUrl::new`: what it reports of a text that is no URL. Which texts are
/// URLs is left to [`redirect_url_fault`].
#[verifier::external_body]
fn check_redirect_url(url: &str) -> (fault: Option<String>)
    ensures
        text::optional(fault) == redirect_url_fault(url@),
{
    openidconnect::RedirectUrl::new(url.to_string()).err().map(|error| error.to_string())
}

/// The URL of an issuer, as it was written.
#[derive(Debug)]
pub struct IssuerUrl {
    url: String,
}

/// The URL a provider returns the user to, as it was written.
#[derive(Debug)]
pub struct RedirectUrl {
    url: String,
}

impl View for IssuerUrl {
    type V = Seq<char>;

    closed spec fn view(&self) -> Seq<char> {
        self.url@
    }
}

impl View for RedirectUrl {
    type V = Seq<char>;

    closed spec fn view(&self) -> Seq<char> {
        self.url@
    }
}

impl IssuerUrl {
    #[verifier::type_invariant]
    spec fn well_formed(self) -> bool {
        issuer_url_fault(self.url@) is None
    }

    /// Accepts a URL, or reports why a text is none.
    pub fn new(url: &str) -> (issuer: Result<IssuerUrl, String>)
        ensures
            match issuer {
                Ok(issuer) => issuer_url_fault(url@) is None && issuer@ == url@,
                Err(report) => issuer_url_fault(url@) == Some(report@),
            },
    {
        match check_issuer_url(url) {
            None => Ok(IssuerUrl { url: String::from_str(url) }),
            Some(report) => Err(report),
        }
    }

    pub fn as_str(&self) -> (url: &str)
        ensures
            url@ == self@,
            issuer_url_fault(url@) is None,
    {
        proof {
            use_type_invariant(self);
        }
        self.url.as_str()
    }
}

impl RedirectUrl {
    #[verifier::type_invariant]
    spec fn well_formed(self) -> bool {
        redirect_url_fault(self.url@) is None
    }

    /// Accepts a URL, or reports why a text is none.
    pub fn new(url: &str) -> (redirect: Result<RedirectUrl, String>)
        ensures
            match redirect {
                Ok(redirect) => redirect_url_fault(url@) is None && redirect@ == url@,
                Err(report) => redirect_url_fault(url@) == Some(report@),
            },
    {
        match check_redirect_url(url) {
            None => Ok(RedirectUrl { url: String::from_str(url) }),
            Some(report) => Err(report),
        }
    }

    pub fn as_str(&self) -> (url: &str)
        ensures
            url@ == self@,
            redirect_url_fault(url@) is None,
    {
        proof {
            use_type_invariant(self);
        }
        self.url.as_str()
    }
}

impl Clone for IssuerUrl {
    fn clone(&self) -> (copy: IssuerUrl)
        ensures
            copy@ == self@,
    {
        proof {
            use_type_invariant(self);
        }
        IssuerUrl { url: self.url.clone() }
    }
}

impl Clone for RedirectUrl {
    fn clone(&self) -> (copy: RedirectUrl)
        ensures
            copy@ == self@,
    {
        proof {
            use_type_invariant(self);
        }
        RedirectUrl { url: self.url.clone() }
    }
}

/// Why a configuration is refused.
#[derive(Debug)]
pub enum OidcConfigError {
    IssuerUrl(String),
    RedirectUrl(String),
}

impl OidcConfigError {
    /// The message for the operator.
    pub open spec fn message(self) -> Seq<char> {
        match self {
            OidcConfigError::IssuerUrl(report) => "invalid issuer url: "@ + report@,
            OidcConfigError::RedirectUrl(report) => "invalid redirect url: "@ + report@,
        }
    }

    /// The message for the operator.
    pub fn to_string(&self) -> (message: String)
        ensures
            message@ == self.message(),
    {
        match self {
            OidcConfigError::IssuerUrl(report) => text::join(
                "invalid issuer url: ",
                report.as_str(),
            ),
            OidcConfigError::RedirectUrl(report) => text::join(
                "invalid redirect url: ",
                report.as_str(),
            ),
        }
    }
}

/// How an OIDC client identifies itself and what it asks for.
#[derive(Debug)]
pub struct OidcConfig {
    issuer_url: IssuerUrl,
    client_id: String,
    client_secret: Option<SecretString>,
    redirect_url: RedirectUrl,
    scopes: Vec<String>,
    min_refresh_interval: Duration,
    use_pkce: bool,
}

/// What an [`OidcConfig`] says.
pub ghost struct ConfigView {
    pub issuer_url: Seq<char>,
    pub client_id: Seq<char>,
    pub client_secret: Option<Seq<char>>,
    pub redirect_url: Seq<char>,
    pub scopes: Seq<Seq<char>>,
    pub min_refresh_interval: nat,
    pub use_pkce: bool,
}

/// The text of an optional secret.
pub open spec fn optional_secret(secret: Option<SecretString>) -> Option<Seq<char>> {
    match secret {
        Some(secret) => Some(secret@),
        None => None,
    }
}

impl View for OidcConfig {
    type V = ConfigView;

    closed spec fn view(&self) -> ConfigView {
        ConfigView {
            issuer_url: self.issuer_url@,
            client_id: self.client_id@,
            client_secret: optional_secret(self.client_secret),
            redirect_url: self.redirect_url@,
            scopes: text::texts(self.scopes@),
            min_refresh_interval: self.min_refresh_interval@,
            use_pkce: self.use_pkce,
        }
    }
}

/// The scopes that are requested unless others are configured. `openid` is required by OIDC Core.
pub open spec fn default_scopes() -> Seq<Seq<char>> {
    seq!["openid"@, "email"@, "profile"@]
}

/// The configuration that a client id and two URLs make.
pub open spec fn fresh_config(
    issuer_url: Seq<char>,
    client_id: Seq<char>,
    redirect_url: Seq<char>,
) -> ConfigView {
    ConfigView {
        issuer_url,
        client_id,
        client_secret: None,
        redirect_url,
        scopes: default_scopes(),
        min_refresh_interval: (DEFAULT_MIN_REFRESH_INTERVAL * 1_000_000_000) as nat,
        use_pkce: true,
    }
}

impl OidcConfig {
    pub fn new(issuer_url: &str, client_id: &str, redirect_url: &str) -> (config: Result<
        OidcConfig,
        OidcConfigError,
    >)
        ensures
            match config {
                Ok(config) => {
                    &&& issuer_url_fault(issuer_url@) is None
                    &&& redirect_url_fault(redirect_url@) is None
                    &&& config@ == fresh_config(issuer_url@, client_id@, redirect_url@)
                },
                Err(OidcConfigError::IssuerUrl(report)) => issuer_url_fault(issuer_url@) == Some(
                    report@,
                ),
                Err(OidcConfigError::RedirectUrl(report)) => issuer_url_fault(issuer_url@) is None
                    && redirect_url_fault(redirect_url@) == Some(report@),
            },
    {
        let issuer_url = match IssuerUrl::new(issuer_url) {
            Ok(url) => url,
            Err(report) => {
                return Err(OidcConfigError::IssuerUrl(report));
            },
        };
        let redirect_url = match RedirectUrl::new(redirect_url) {
            Ok(url) => url,
            Err(report) => {
                return Err(OidcConfigError::RedirectUrl(report));
            },
        };
        let mut scopes: Vec<String> = Vec::new();
        scopes.push(String::from_str("openid"));
        scopes.push(String::from_str("email"));
        scopes.push(String::from_str("profile"));
        assert(text::texts(scopes@) =~= default_scopes());
        Ok(
            OidcConfig {
                issuer_url,
                client_id: String::from_str(client_id),
                client_secret: None,
                redirect_url,
                scopes,
                min_refresh_interval: Duration::from_secs(DEFAULT_MIN_REFRESH_INTERVAL),
                use_pkce: true,
            },
        )
    }

    pub fn with_client_secret(self, secret: &str) -> (config: OidcConfig)
        ensures
            config@ == (ConfigView { client_secret: Some(secret@), ..self@ }),
    {
        let secret = SecretString::from(String::from_str(secret));
        OidcConfig { client_secret: Some(secret), ..self }
    }

    /// Replaces the requested scopes wholesale.
    pub fn with_scopes(self, scopes: Vec<String>) -> (config: OidcConfig)
        ensures
            config@ == (ConfigView { scopes: text::texts(scopes@), ..self@ }),
    {
        OidcConfig { scopes, ..self }
    }

    pub fn with_min_refresh_interval(self, interval: Duration) -> (config: OidcConfig)
        ensures
            config@ == (ConfigView { min_refresh_interval: interval@, ..self@ }),
    {
        OidcConfig { min_refresh_interval: interval, ..self }
    }

    /// PKCE (RFC 7636) is on by default. OAuth 2.1 requires it of all clients, confidential ones
    /// included. Disable only for a provider that rejects the parameters outright.
    pub fn with_pkce(self, use_pkce: bool) -> (config: OidcConfig)
        ensures
            config@ == (ConfigView { use_pkce, ..self@ }),
    {
        OidcConfig { use_pkce, ..self }
    }

    pub fn issuer_url(&self) -> (url: &IssuerUrl)
        ensures
            url@ == self@.issuer_url,
    {
        &self.issuer_url
    }

    pub fn client_id(&self) -> (id: &str)
        ensures
            id@ == self@.client_id,
    {
        self.client_id.as_str()
    }

    pub fn client_secret(&self) -> (secret: Option<&str>)
        ensures
            text::optional_str(secret) == self@.client_secret,
    {
        match &self.client_secret {
            Some(secret) => Some(secret.expose_secret()),
            None => None,
        }
    }

    pub fn redirect_url(&self) -> (url: &RedirectUrl)
        ensures
            url@ == self@.redirect_url,
    {
        &self.redirect_url
    }

    pub fn scopes(&self) -> (scopes: &Vec<String>)
        ensures
            text::texts(scopes@) == self@.scopes,
    {
        &self.scopes
    }

    pub fn uses_pkce(&self) -> (uses: bool)
        ensures
            uses == self@.use_pkce,
    {
        self.use_pkce
    }

    pub fn min_refresh_interval(&self) -> (interval: Duration)
        ensures
            interval@ == self@.min_refresh_interval,
    {
        self.min_refresh_interval
    }
}

impl Clone for OidcConfig {
    fn clone(&self) -> (copy: OidcConfig)
        ensures
            copy@ == self@,
    {
        let client_secret = match &self.client_secret {
            Some(secret) => Some(secret.clone()),
            None => None,
        };
        OidcConfig {
            issuer_url: self.issuer_url.clone(),
            client_id: self.client_id.clone(),
            client_secret,
            redirect_url: self.redirect_url.clone(),
            scopes: text::copy_strings(&self.scopes),
            min_refresh_interval: self.min_refresh_interval,
            use_pkce: self.use_pkce,
        }
    }
}

/// A configuration says what it was given, uses PKCE and asks for an ID token unless told
/// otherwise, and each setting changes itself alone.
pub proof fn configuration_says_what_it_was_given(
    issuer: &str,
    client: &str,
    redirect: &str,
    built: Result<OidcConfig, OidcConfigError>,
    secret: &str,
    with_secret: OidcConfig,
    scopes: Vec<String>,
    with_scopes: OidcConfig,
    interval: Duration,
    with_interval: OidcConfig,
    pkce: bool,
    with_pkce: OidcConfig,
)
    requires
        call_ensures(OidcConfig::new, (issuer, client, redirect), built),
        built is Ok ==> {
            &&& call_ensures(OidcConfig::with_client_secret, (built->Ok_0, secret), with_secret)
            &&& call_ensures(OidcConfig::with_scopes, (built->Ok_0, scopes), with_scopes)
            &&& call_ensures(
                OidcConfig::with_min_refresh_interval,
                (built->Ok_0, interval),
                with_interval,
            )
            &&& call_ensures(OidcConfig::with_pkce, (built->Ok_0, pkce), with_pkce)
        },
    ensures
        (built is Ok) == (issuer_url_fault(issuer@) is None && redirect_url_fault(redirect@)
            is None),
        built is Err ==> (built->Err_0 is IssuerUrl) == (issuer_url_fault(issuer@) is Some),
        built is Ok ==> {
            let said = built->Ok_0@;
            &&& said.issuer_url == issuer@
            &&& said.client_id == client@
            &&& said.redirect_url == redirect@
            &&& said.client_secret is None
            &&& said.use_pkce
            &&& said.scopes == seq!["openid"@, "email"@, "profile"@]
            &&& said.min_refresh_interval == 30 * 1_000_000_000
            &&& with_secret@ == (ConfigView { client_secret: Some(secret@), ..said })
            &&& with_scopes@ == (ConfigView { scopes: text::texts(scopes@), ..said })
            &&& with_interval@ == (ConfigView { min_refresh_interval: interval@, ..said })
            &&& with_pkce@ == (ConfigView { use_pkce: pkce, ..said })
        },
{
}

/// What is asked of a configuration is what it says.
pub proof fn configuration_is_read_back(
    config: OidcConfig,
    client: &str,
    secret: Option<&str>,
    scopes: &Vec<String>,
    pkce: bool,
    interval: Duration,
)
    requires
        call_ensures(OidcConfig::client_id, (&config,), client),
        call_ensures(OidcConfig::client_secret, (&config,), secret),
        call_ensures(OidcConfig::scopes, (&config,), scopes),
        call_ensures(OidcConfig::uses_pkce, (&config,), pkce),
        call_ensures(OidcConfig::min_refresh_interval, (&config,), interval),
    ensures
        client@ == config@.client_id,
        text::optional_str(secret) == config@.client_secret,
        text::texts(scopes@) == config@.scopes,
        pkce == config@.use_pkce,
        interval@ == config@.min_refresh_interval,
{
}

/// The operator is told which URL is malformed, and what is wrong with it.
pub proof fn operator_is_told_what_is_wrong(error: OidcConfigError, message: String)
    requires
        call_ensures(OidcConfigError::to_string, (&error,), message),
    ensures
        ({
            let report = match error {
                OidcConfigError::IssuerUrl(report) => report@,
                OidcConfigError::RedirectUrl(report) => report@,
            };
            &&& report.len() <= message@.len()
            &&& message@.subrange(message@.len() - report.len(), message@.len() as int) == report
        }),
{
    match error {
        OidcConfigError::IssuerUrl(report) => {
            assert(message@.subrange(message@.len() - report@.len(), message@.len() as int)
                =~= report@);
        },
        OidcConfigError::RedirectUrl(report) => {
            assert(message@.subrange(message@.len() - report@.len(), message@.len() as int)
                =~= report@);
        },
    }
}

} // verus!
