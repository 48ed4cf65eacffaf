//! The OIDC authorization-code login flow.
//!
//! Framework-agnostic throughout: the flow returns data describing the redirect and the cookies to
//! emit, and an adapter renders them. A login is completed in three steps, between which the
//! caller exchanges the code at the token endpoint and verifies the ID token.
use openidconnect::{
    AuthenticationFlow, ClaimsVerificationError, ClientId, CsrfToken, JsonWebKeySet, Nonce, PkceCodeChallenge,
    PkceCodeVerifier, Scope,
};
use vstd::prelude::*;

use crate::claims::{ClaimValueView, IdentityClaims};
use crate::cookie::{self, CookieDirective, CookieId, CookieView};
use crate::encoding;
use crate::error::{AuthError, AuthErrorView};
use crate::oidc::callback::{CallbackParams, CallbackView};
use crate::oidc::claims::IdTokenClaims;
use crate::oidc::config::{self, ConfigView, OidcConfig};
use crate::oidc::error::{self, TokenExchangeError};
use crate::oidc::protection::{self, ProtectionData, ProtectionView};
use crate::oidc::provider::{self, NonceCheck, Objection};
use crate::oidc::redirect::{self, RedirectPolicy};
use crate::oidc::session::{CookieSettings, IdTokenCodec, Session, SessionCodec, SessionView, SettingsView};
use crate::secret::SecretString;
use crate::text;

verus! {

/// Why `openidconnect::AuthUrl::new` refuses a text, or nothing when it accepts it.
pub uninterp spec fn auth_url_fault(url: Seq<char>) -> Option<Seq<char>>;

/// `openidconnect::AuthUrl::new`: what it reports of a text that is no URL. Which texts are URLs is
/// left to [`auth_url_fault`].
#[verifier::external_body]
fn check_auth_url(url: &str) -> (fault: Option<String>)
    ensures
        text::optional(fault) == auth_url_fault(url@),
{
    openidconnect::AuthUrl::new(url.to_string()).err().map(|error| error.to_string())
}

/// The provider's authorization endpoint.
#[derive(Debug)]
pub struct AuthUrl {
    url: String,
}

impl View for AuthUrl {
    type V = Seq<char>;

    closed spec fn view(&self) -> Seq<char> {
        self.url@
    }
}

impl AuthUrl {
    #[verifier::type_invariant]
    spec fn well_formed(self) -> bool {
        auth_url_fault(self.url@) is None
    }

    /// Accepts a URL, or reports why a text is none.
    pub fn new(url: &str) -> (endpoint: Result<AuthUrl, String>)
        ensures
            match endpoint {
                Ok(endpoint) => auth_url_fault(url@) is None && endpoint@ == url@,
                Err(report) => auth_url_fault(url@) == Some(report@),
            },
    {
        match check_auth_url(url) {
            None => Ok(AuthUrl { url: String::from_str(url) }),
            Some(report) => Err(report),
        }
    }

    pub fn as_str(&self) -> (url: &str)
        ensures
            url@ == self@,
            auth_url_fault(url@) is None,
    {
        proof {
            use_type_invariant(self);
        }
        self.url.as_str()
    }
}

/// Whether a PKCE code verifier has the length that RFC 7636 asks for.
pub open spec fn suits_pkce(verifier: Seq<char>) -> bool {
    43 <= vstd::utf8::encode_utf8(verifier).len() <= 128
}

/// Whether a text is spelled in the URL-safe base64 alphabet and has `length` bytes.
pub open spec fn is_token(text: Seq<char>, length: nat) -> bool {
    &&& vstd::utf8::encode_utf8(text).len() == length
    &&& forall|i: int| 0 <= i < text.len() ==> encoding::is_base64url_char(#[trigger] text[i])
}

/// `openidconnect::CsrfToken::new_random`: 16 random bytes in unpadded URL-safe base64. Which ones
/// is left to chance.
#[verifier::external_body]
fn random_csrf() -> (token: String)
    ensures
        is_token(token@, 22),
{
    CsrfToken::new_random().secret().clone()
}

/// `openidconnect::Nonce::new_random`: 16 random bytes in unpadded URL-safe base64. Which ones is
/// left to chance.
#[verifier::external_body]
fn random_nonce() -> (nonce: String)
    ensures
        is_token(nonce@, 22),
{
    Nonce::new_random().secret().clone()
}

/// The verifier of `openidconnect::PkceCodeChallenge::new_random_sha256`: 32 random bytes in
/// unpadded URL-safe base64. Which ones is left to chance.
#[verifier::external_body]
fn random_verifier() -> (verifier: String)
    ensures
        is_token(verifier@, 43),
{
    PkceCodeChallenge::new_random_sha256().1.secret().clone()
}

/// Whether a text was drawn as a CSRF token.
pub closed spec fn is_drawn_csrf(text: Seq<char>) -> bool {
    exists|token: String| #[trigger] call_ensures(random_csrf, (), token) && token@ == text
}

/// Whether a text was drawn as a nonce.
pub closed spec fn is_drawn_nonce(text: Seq<char>) -> bool {
    exists|nonce: String| #[trigger] call_ensures(random_nonce, (), nonce) && nonce@ == text
}

/// Whether a text was drawn as a PKCE code verifier.
pub closed spec fn is_drawn_verifier(text: Seq<char>) -> bool {
    exists|verifier: String|
        #[trigger] call_ensures(random_verifier, (), verifier) && verifier@ == text
}

/// The provider's authorization endpoint, fully parameterised for the authorization-code flow.
pub uninterp spec fn authorization_url(
    endpoint: Seq<char>,
    client_id: Seq<char>,
    redirect_url: Seq<char>,
    scopes: Seq<Seq<char>>,
    csrf: Seq<char>,
    nonce: Seq<char>,
    pkce_verifier: Option<Seq<char>>,
) -> Seq<char>;

/// `openidconnect::Client::authorize_url` with these scopes, and with the SHA-256 challenge of the verifier.
/// The URL depends on nothing else; the issuer only identifies the client. How the URL is spelled is
/// left to [`authorization_url`]. Texts that are no URLs are left out, and so is a verifier of another
/// length than RFC 7636 allows.
#[verifier::external_body]
fn pkce_authorization_url(
    endpoint: String,
    issuer: String,
    client_id: String,
    redirect_url: String,
    scopes: Vec<String>,
    csrf: String,
    nonce: String,
    verifier: String,
) -> (url: String)
    requires
        auth_url_fault(endpoint@) is None,
        config::issuer_url_fault(issuer@) is None,
        config::redirect_url_fault(redirect_url@) is None,
        suits_pkce(verifier@),
    ensures
        url@ == authorization_url(
            endpoint@,
            client_id@,
            redirect_url@,
            text::texts(scopes@),
            csrf@,
            nonce@,
            Some(verifier@),
        ),
{
    let issuer = openidconnect::IssuerUrl::new(issuer).unwrap();
    let id = ClientId::new(client_id);
    let client = openidconnect::core::CoreClient::new(id, issuer, JsonWebKeySet::new(vec![]))
        .set_auth_uri(openidconnect::AuthUrl::new(endpoint).unwrap())
        .set_redirect_uri(openidconnect::RedirectUrl::new(redirect_url).unwrap());
    let flow = AuthenticationFlow::<openidconnect::core::CoreResponseType>::AuthorizationCode;
    let request = client
        .authorize_url(flow, move || CsrfToken::new(csrf), move || Nonce::new(nonce))
        .add_scopes(scopes.into_iter().map(Scope::new));
    let verifier = PkceCodeVerifier::new(verifier);
    let challenge = PkceCodeChallenge::from_code_verifier_sha256(&verifier);
    request.set_pkce_challenge(challenge).url().0.to_string()
}

/// `openidconnect::Client::authorize_url` with these scopes, and without a PKCE challenge.
/// The URL depends on nothing else; the issuer only identifies the client. How the URL is spelled is
/// left to [`authorization_url`]. Texts that are no URLs are left out.
#[verifier::external_body]
fn plain_authorization_url(
    endpoint: String,
    issuer: String,
    client_id: String,
    redirect_url: String,
    scopes: Vec<String>,
    csrf: String,
    nonce: String,
) -> (url: String)
    requires
        auth_url_fault(endpoint@) is None,
        config::issuer_url_fault(issuer@) is None,
        config::redirect_url_fault(redirect_url@) is None,
    ensures
        url@ == authorization_url(
            endpoint@,
            client_id@,
            redirect_url@,
            text::texts(scopes@),
            csrf@,
            nonce@,
            None,
        ),
{
    let issuer = openidconnect::IssuerUrl::new(issuer).unwrap();
    let id = ClientId::new(client_id);
    let client = openidconnect::core::CoreClient::new(id, issuer, JsonWebKeySet::new(vec![]))
        .set_auth_uri(openidconnect::AuthUrl::new(endpoint).unwrap())
        .set_redirect_uri(openidconnect::RedirectUrl::new(redirect_url).unwrap());
    let flow = AuthenticationFlow::<openidconnect::core::CoreResponseType>::AuthorizationCode;
    let request = client
        .authorize_url(flow, move || CsrfToken::new(csrf), move || Nonce::new(nonce))
        .add_scopes(scopes.into_iter().map(Scope::new));
    request.url().0.to_string()
}

/// What the caller should send the browser to begin a login.
#[derive(Debug)]
pub struct AuthorizationRedirect {
    /// The provider's authorization endpoint, fully parameterised.
    pub location: String,
    /// Cookies to set: the protection cookie, and a clear of any stale session.
    pub cookies: Vec<CookieDirective>,
}

/// What an [`AuthorizationRedirect`] says.
pub ghost struct RedirectView {
    pub location: Seq<char>,
    pub cookies: Seq<CookieView>,
}

impl View for AuthorizationRedirect {
    type V = RedirectView;

    open spec fn view(&self) -> RedirectView {
        RedirectView { location: self.location@, cookies: cookie::cookie_views(self.cookies@) }
    }
}

/// The redirect or the failure in a result.
pub open spec fn redirect_result(result: Result<AuthorizationRedirect, AuthError>) -> Result<
    RedirectView,
    AuthErrorView,
> {
    match result {
        Ok(redirect) => Ok(redirect@),
        Err(error) => Err(error@),
    }
}

/// A completed login.
#[derive(Debug)]
pub struct LoginComplete {
    /// The verified identity, ready for the application's `TryFrom`.
    pub claims: IdentityClaims,
    /// Where to send the browser next.
    pub redirect_to: String,
    /// Cookies to set: the new session, and a clear of the spent protection cookie.
    pub cookies: Vec<CookieDirective>,
}

/// A login that waits for the token endpoint: the code is to be exchanged, with the verifier when
/// there is one.
#[derive(Debug)]
pub struct CodeExchange {
    code: SecretString,
    pkce_verifier: Option<SecretString>,
    nonce: SecretString,
    destination: String,
}

/// What a [`CodeExchange`] asks for.
pub ghost struct ExchangeView {
    pub code: Seq<char>,
    pub pkce_verifier: Option<Seq<char>>,
    pub nonce: Seq<char>,
    pub destination: Seq<char>,
}

impl View for CodeExchange {
    type V = ExchangeView;

    closed spec fn view(&self) -> ExchangeView {
        ExchangeView {
            code: self.code@,
            pkce_verifier: config::optional_secret(self.pkce_verifier),
            nonce: self.nonce@,
            destination: self.destination@,
        }
    }
}

impl CodeExchange {
    /// The authorization code to exchange.
    pub fn code(&self) -> (code: &str)
        ensures
            code@ == self@.code,
    {
        self.code.expose_secret()
    }

    /// The PKCE code verifier to present with it.
    pub fn pkce_verifier(&self) -> (verifier: Option<&str>)
        ensures
            text::optional_str(verifier) == self@.pkce_verifier,
    {
        match &self.pkce_verifier {
            Some(verifier) => Some(verifier.expose_secret()),
            None => None,
        }
    }
}

/// A login that waits for the verification of its ID token.
#[derive(Debug)]
pub struct PendingLogin {
    id_token: String,
    nonce: SecretString,
    destination: String,
}

/// What a [`PendingLogin`] waits for.
pub ghost struct PendingView {
    pub id_token: Seq<char>,
    pub nonce: Seq<char>,
    pub destination: Seq<char>,
}

impl View for PendingLogin {
    type V = PendingView;

    closed spec fn view(&self) -> PendingView {
        PendingView { id_token: self.id_token@, nonce: self.nonce@, destination: self.destination@ }
    }
}

impl PendingLogin {
    /// The ID token to verify.
    pub fn id_token(&self) -> (token: &str)
        ensures
            token@ == self@.id_token,
    {
        self.id_token.as_str()
    }

    /// How to check its nonce: it has to match the one that was minted for this login.
    pub fn nonce_check(&self) -> (check: NonceCheck)
        ensures
            check matches NonceCheck::Matches(nonce) && nonce@ == self@.nonce,
    {
        NonceCheck::Matches(self.nonce.clone())
    }
}

/// What a callback that reports an error means: the user declined, or the provider failed.
pub open spec fn reported_failure(error: Seq<char>, description: Option<Seq<char>>) -> AuthErrorView {
    let detail = match description {
        Some(description) => description,
        None => error,
    };
    if error == "access_denied"@ {
        AuthErrorView::Unauthenticated { detail: "user declined sign-in: "@ + detail }
    } else {
        AuthErrorView::Upstream {
            detail: "provider reported "@ + error + " during sign-in: "@ + detail,
        }
    }
}

/// What a callback and the protection cookie that came with it lead to. The provider must not have
/// reported an error, the cookie must be there and readable, and the returned state must match it.
pub open spec fn admitted(callback: CallbackView, cookie: Option<Seq<char>>) -> Result<
    ExchangeView,
    AuthErrorView,
> {
    match callback {
        CallbackView::Failure { error, description } => Err(reported_failure(error, description)),
        CallbackView::Success { code, state } => match cookie {
            None => Err(AuthErrorView::Unauthenticated { detail: "protection cookie is missing"@ }),
            Some(raw) => match protection::protection_in(raw) {
                Err(error) => Err(error),
                Ok(data) => if data.csrf != state {
                    Err(
                        AuthErrorView::Unauthenticated {
                            detail: "callback state does not match the protection cookie"@,
                        },
                    )
                } else {
                    Ok(
                        ExchangeView {
                            code,
                            pkce_verifier: data.pkce_verifier,
                            nonce: data.nonce,
                            destination: data.destination,
                        },
                    )
                },
            },
        },
    }
}

/// Whether a login that was begun with `data`, and left `raw` in the protection cookie, is taken up
/// by its callback: whatever the code, it is exchanged with the verifier that was minted, the ID
/// token is held to the nonce that was minted, and the user is sent where they asked to go.
pub open spec fn is_taken_up(data: ProtectionView, raw: Seq<char>) -> bool {
    forall|code: Seq<char>| #[trigger]
        admitted(CallbackView::Success { code, state: data.csrf }, Some(raw)) == Ok::<
            ExchangeView,
            AuthErrorView,
        >(
            ExchangeView {
                code,
                pkce_verifier: data.pkce_verifier,
                nonce: data.nonce,
                destination: data.destination,
            },
        )
}

/// The exchange or the failure in a result.
pub open spec fn exchange_result(result: Result<CodeExchange, AuthError>) -> Result<
    ExchangeView,
    AuthErrorView,
> {
    match result {
        Ok(exchange) => Ok(exchange@),
        Err(error) => Err(error@),
    }
}

/// What the token endpoint's reply leads to: its ID token, when it sent one.
pub open spec fn exchanged(
    exchange: ExchangeView,
    reply: Result<Option<String>, TokenExchangeError>,
) -> Result<PendingView, AuthErrorView> {
    match reply {
        Err(fault) => Err(error::failed_exchange(fault)),
        Ok(None) => Err(
            AuthErrorView::Upstream { detail: "token response carried no id_token"@ },
        ),
        Ok(Some(id_token)) => Ok(
            PendingView {
                id_token: id_token@,
                nonce: exchange.nonce,
                destination: exchange.destination,
            },
        ),
    }
}

/// The pending login or the failure in a result.
pub open spec fn pending_result(result: Result<PendingLogin, AuthError>) -> Result<
    PendingView,
    AuthErrorView,
> {
    match result {
        Ok(pending) => Ok(pending@),
        Err(error) => Err(error@),
    }
}

/// Drives the authorization-code flow.
pub struct LoginFlow<C: SessionCodec = IdTokenCodec> {
    config: OidcConfig,
    codec: C,
    session: CookieSettings,
    protection: CookieSettings,
    redirect_policy: RedirectPolicy,
}

/// What a [`LoginFlow`] is configured with.
pub ghost struct FlowView {
    pub config: ConfigView,
    pub session: SettingsView,
    pub protection: SettingsView,
    pub redirect_policy: RedirectPolicy,
}

impl<C: SessionCodec> View for LoginFlow<C> {
    type V = FlowView;

    closed spec fn view(&self) -> FlowView {
        FlowView {
            config: self.config@,
            session: self.session@,
            protection: self.protection@,
            redirect_policy: self.redirect_policy,
        }
    }
}

impl FlowView {
    /// The flow for a configuration in which nothing else is chosen.
    pub open spec fn standard(config: ConfigView) -> FlowView {
        FlowView {
            config,
            session: SettingsView::standard("session"@, 86_400),
            protection: SettingsView::standard("authn_protection"@, 600),
            redirect_policy: RedirectPolicy::RelativeOnly,
        }
    }

    /// The redirect that begins a login with these secrets. The protection cookie carries them and
    /// the destination; any stale session is dropped, so a failed attempt cannot leave the
    /// previous identity in place.
    pub open spec fn redirect(self, endpoint: Seq<char>, data: ProtectionView) -> RedirectView {
        RedirectView {
            location: authorization_url(
                endpoint,
                self.config.client_id,
                self.config.redirect_url,
                self.config.scopes,
                data.csrf,
                data.nonce,
                data.pkce_verifier,
            ),
            cookies: seq![self.protection.setting(data.encoded()), self.session.clearing()],
        }
    }

    /// What asking for a login leads to: a redirect, unless the destination is refused.
    pub open spec fn authorizes(self, endpoint: Seq<char>, data: ProtectionView) -> Result<
        RedirectView,
        AuthErrorView,
    > {
        match self.redirect_policy.objection(data.destination) {
            Some(reason) => Err(redirect::rejection(data.destination, reason)),
            None => Ok(self.redirect(endpoint, data)),
        }
    }

    /// Whether the secrets are ones that a login may be begun with: random tokens, each drawn for
    /// its own purpose, and a verifier exactly when PKCE is used.
    pub open spec fn mints(self, data: ProtectionView) -> bool {
        &&& is_token(data.csrf, 22) && is_drawn_csrf(data.csrf)
        &&& is_token(data.nonce, 22) && is_drawn_nonce(data.nonce)
        &&& (data.pkce_verifier is Some) == self.config.use_pkce
        &&& data.pkce_verifier matches Some(verifier) ==> is_token(verifier, 43)
            && is_drawn_verifier(verifier)
    }

    /// The cookies of a completed login: the new session, and a clear of the protection cookie,
    /// which is single-use.
    pub open spec fn completion_cookies(self, raw: Seq<char>) -> Seq<CookieView> {
        seq![self.session.setting(raw), self.protection.clearing()]
    }
}

impl LoginFlow<IdTokenCodec> {
    /// A flow storing the ID token directly in the session cookie.
    pub fn new(config: OidcConfig) -> (flow: LoginFlow<IdTokenCodec>)
        ensures
            flow@ == FlowView::standard(config@),
    {
        LoginFlow::with_codec(config, IdTokenCodec)
    }
}

impl<C: SessionCodec> LoginFlow<C> {
    /// What sessions are written and read with.
    pub closed spec fn writes_with(self) -> C {
        self.codec
    }

    pub fn with_codec(config: OidcConfig, codec: C) -> (flow: LoginFlow<C>)
        ensures
            flow@ == FlowView::standard(config@),
            flow.writes_with() == codec,
    {
        LoginFlow {
            config,
            codec,
            session: CookieSettings::session("session"),
            protection: CookieSettings::protection("authn_protection"),
            redirect_policy: RedirectPolicy::RelativeOnly,
        }
    }

    pub fn with_session_cookie(self, settings: CookieSettings) -> (flow: LoginFlow<C>)
        ensures
            flow@ == (FlowView { session: settings@, ..self@ }),
            flow.writes_with() == self.writes_with(),
    {
        LoginFlow { session: settings, ..self }
    }

    pub fn with_protection_cookie(self, settings: CookieSettings) -> (flow: LoginFlow<C>)
        ensures
            flow@ == (FlowView { protection: settings@, ..self@ }),
            flow.writes_with() == self.writes_with(),
    {
        LoginFlow { protection: settings, ..self }
    }

    pub fn with_redirect_policy(self, policy: RedirectPolicy) -> (flow: LoginFlow<C>)
        ensures
            flow@ == (FlowView { redirect_policy: policy, ..self@ }),
            flow.writes_with() == self.writes_with(),
    {
        LoginFlow { redirect_policy: policy, ..self }
    }

    pub fn config(&self) -> (config: &OidcConfig)
        ensures
            config@ == self@.config,
    {
        &self.config
    }

    pub fn session_cookie(&self) -> (settings: &CookieSettings)
        ensures
            settings@ == self@.session,
    {
        &self.session
    }

    pub fn protection_cookie(&self) -> (settings: &CookieSettings)
        ensures
            settings@ == self@.protection,
    {
        &self.protection
    }

    /// Begins a login, sending the user to the provider's authorization endpoint.
    ///
    /// `destination` is where they return to afterwards; it is validated against the configured
    /// [`RedirectPolicy`] before the redirect is issued, so a bad destination fails fast and not at
    /// callback time.
    pub fn authorize(&self, endpoint: &AuthUrl, destination: &str) -> (result: Result<
        AuthorizationRedirect,
        AuthError,
    >)
        ensures
            exists|data: ProtectionView| #[trigger]
                self@.mints(data) && data.destination == destination@ && redirect_result(result)
                    == self@.authorizes(endpoint@, data) && (result matches Ok(redirect)
                    ==> is_taken_up(data, redirect@.cookies[0].value)),
    {
        let csrf = random_csrf();
        assert(call_ensures(random_csrf, (), csrf));
        let csrf = SecretString::from(csrf);
        let nonce = random_nonce();
        assert(call_ensures(random_nonce, (), nonce));
        let nonce = SecretString::from(nonce);
        let pkce_verifier = if self.config.uses_pkce() {
            let verifier = random_verifier();
            assert(call_ensures(random_verifier, (), verifier));
            Some(SecretString::from(verifier))
        } else {
            None
        };
        let data = ProtectionData {
            csrf,
            nonce,
            pkce_verifier,
            destination: String::from_str(destination),
        };
        assert(self@.mints(data@));
        self.authorize_with(endpoint, data)
    }

    /// Begins a login with these secrets.
    pub fn authorize_with(&self, endpoint: &AuthUrl, data: ProtectionData) -> (result: Result<
        AuthorizationRedirect,
        AuthError,
    >)
        requires
            data@.pkce_verifier matches Some(verifier) ==> suits_pkce(verifier),
        ensures
            redirect_result(result) == self@.authorizes(endpoint@, data@),
            result matches Ok(redirect) ==> is_taken_up(data@, redirect@.cookies[0].value),
    {
        match self.redirect_policy.validate(data.destination.as_str()) {
            Ok(_) => {},
            Err(error) => {
                return Err(error);
            },
        }
        let location = self.authorization_location(endpoint, &data);
        let mut cookies: Vec<CookieDirective> = Vec::new();
        cookies.push(self.protection.set(data.encode().as_str()));
        cookies.push(self.session.clear());
        assert(cookie::cookie_views(cookies@) =~= seq![
            self@.protection.setting(data@.encoded()),
            self@.session.clearing(),
        ]);
        Ok(AuthorizationRedirect { location, cookies })
    }

    /// The provider's authorization endpoint, fully parameterised. It carries the challenge of the
    /// PKCE verifier exactly when there is one.
    fn authorization_location(&self, endpoint: &AuthUrl, data: &ProtectionData) -> (location: String)
        requires
            data@.pkce_verifier matches Some(verifier) ==> suits_pkce(verifier),
        ensures
            location@ == self@.redirect(endpoint@, data@).location,
    {
        let at = String::from_str(endpoint.as_str());
        let issuer = String::from_str(self.config.issuer_url().as_str());
        let client_id = String::from_str(self.config.client_id());
        let redirect_url = String::from_str(self.config.redirect_url().as_str());
        let scopes = text::copy_strings(self.config.scopes());
        let csrf = String::from_str(data.csrf.expose_secret());
        let nonce = String::from_str(data.nonce.expose_secret());
        match &data.pkce_verifier {
            Some(verifier) => pkce_authorization_url(
                at,
                issuer,
                client_id,
                redirect_url,
                scopes,
                csrf,
                nonce,
                String::from_str(verifier.expose_secret()),
            ),
            None => plain_authorization_url(
                at,
                issuer,
                client_id,
                redirect_url,
                scopes,
                csrf,
                nonce,
            ),
        }
    }

    /// Begins to complete a login from the provider's callback.
    ///
    /// Verified are, in order: that the provider did not report an error, that the returned
    /// `state` matches the protection cookie, that the code exchanges successfully with the PKCE
    /// verifier, and that the resulting ID token's `nonce` matches the one minted for this attempt.
    /// This is the first two.
    pub fn complete(&self, callback: CallbackParams, protection_cookie: Option<&str>) -> (result:
        Result<CodeExchange, AuthError>)
        ensures
            exchange_result(result) == admitted(
                callback@,
                text::optional_str(protection_cookie),
            ),
    {
        let (code, returned_state) = match callback {
            CallbackParams::Success { code, state } => (code, state),
            CallbackParams::Failure { error, description } => {
                let detail = match &description {
                    Some(description) => description.as_str(),
                    None => error.as_str(),
                };
                if text::equal(error.as_str(), "access_denied") {
                    return Err(
                        AuthError::unauthenticated(
                            text::join("user declined sign-in: ", detail).as_str(),
                        ),
                    );
                }
                let report = text::join("provider reported ", error.as_str());
                let report = text::join(report.as_str(), " during sign-in: ");
                return Err(AuthError::upstream(text::join(report.as_str(), detail).as_str()));
            },
        };
        let raw = match protection_cookie {
            Some(raw) => raw,
            None => {
                return Err(AuthError::unauthenticated("protection cookie is missing"));
            },
        };
        let data = match ProtectionData::decode(raw) {
            Ok(data) => data,
            Err(error) => {
                return Err(error);
            },
        };
        if !text::equal(returned_state.expose_secret(), data.csrf.expose_secret()) {
            return Err(
                AuthError::unauthenticated(
                    "callback state does not match the protection cookie",
                ),
            );
        }
        Ok(
            CodeExchange {
                code,
                pkce_verifier: data.pkce_verifier,
                nonce: data.nonce,
                destination: data.destination,
            },
        )
    }

    /// Goes on with the token endpoint's reply: the ID token it sent, if any.
    pub fn exchanged(
        &self,
        exchange: CodeExchange,
        reply: Result<Option<String>, TokenExchangeError>,
    ) -> (result: Result<PendingLogin, AuthError>)
        ensures
            pending_result(result) == exchanged(exchange@, reply),
    {
        match reply {
            Ok(Some(id_token)) => Ok(
                PendingLogin {
                    id_token,
                    nonce: exchange.nonce,
                    destination: exchange.destination,
                },
            ),
            Ok(None) => Err(AuthError::upstream("token response carried no id_token")),
            Err(fault) => Err(AuthError::from(fault)),
        }
    }

    /// Finishes with the verdict on the ID token.
    pub fn finish(
        &self,
        pending: PendingLogin,
        verified: Result<IdentityClaims, AuthError>,
    ) -> (result: Result<LoginComplete, AuthError>)
        ensures
            match verified {
                Err(error) => result == Err::<LoginComplete, AuthError>(error),
                Ok(claims) => exists|session: Session, encoded: Result<String, AuthError>|
                    {
                        &&& session@ == (SessionView {
                            id_token: pending@.id_token,
                            expires_at: claims@.expires_at,
                        })
                        &&& #[trigger] call_ensures(
                            C::encode,
                            (&self.writes_with(), &session),
                            encoded,
                        )
                        &&& match encoded {
                            Err(error) => result == Err::<LoginComplete, AuthError>(error),
                            Ok(raw) => result matches Ok(login) && login.claims == claims
                                && login.redirect_to@ == pending@.destination
                                && cookie::cookie_views(login.cookies@)
                                == self@.completion_cookies(raw@),
                        }
                    },
            },
    {
        let claims = match verified {
            Ok(claims) => claims,
            Err(error) => {
                return Err(error);
            },
        };
        let session = Session { id_token: pending.id_token, expires_at: claims.expires_at };
        let encoded = self.codec.encode(&session);
        assert(call_ensures(C::encode, (&self.writes_with(), &session), encoded));
        match encoded {
            Ok(raw) => {
                let mut cookies: Vec<CookieDirective> = Vec::new();
                cookies.push(self.session.set(raw.as_str()));
                cookies.push(self.protection.clear());
                assert(cookie::cookie_views(cookies@) =~= self@.completion_cookies(raw@));
                Ok(LoginComplete { claims, redirect_to: pending.destination, cookies })
            },
            Err(error) => Err(error),
        }
    }
}

/// A login goes on only when the provider returned the state that the protection cookie holds, and
/// it leads where that cookie says, with the nonce and the verifier of that cookie.
pub proof fn admission_needs_the_matching_state(callback: CallbackView, cookie: Option<Seq<char>>)
    ensures
        admitted(callback, cookie) matches Ok(exchange) ==> {
            &&& cookie is Some
            &&& protection::protection_in(cookie.unwrap()) matches Ok(data)
            &&& callback == (CallbackView::Success { code: exchange.code, state: data.csrf })
            &&& exchange.destination == data.destination
            &&& exchange.nonce == data.nonce
            &&& exchange.pkce_verifier == data.pkce_verifier
        },
{
}

/// A refused callback is the client's problem, or the provider's when it reported one: never a
/// login.
pub proof fn refused_callback_is_reported(callback: CallbackView, cookie: Option<Seq<char>>)
    ensures
        admitted(callback, cookie) matches Err(error) ==> error.status() == 401 || (
        error.status() == 503 && callback is Failure),
        callback is Failure ==> admitted(callback, cookie) is Err,
        cookie is None ==> admitted(callback, cookie) is Err,
{
}

/// What a login was begun with comes back with its callback, wherever the protection cookie still
/// reads as it was written.
pub proof fn login_returns_what_it_began_with(data: ProtectionView, raw: Seq<char>)
    requires
        protection::protection_in(raw) == Ok::<ProtectionView, AuthErrorView>(data),
    ensures
        is_taken_up(data, raw),
{
}

/// A completed login is bound to the attempt that began it: the ID token it rests on carries the
/// nonce that was minted with the data in the protection cookie.
pub proof fn login_is_bound_to_its_token(
    data: ProtectionView,
    raw: Seq<char>,
    code: Seq<char>,
    exchange: ExchangeView,
    id_token: String,
    pending: PendingView,
    check: NonceCheck,
    standing: Result<Map<Seq<char>, ClaimValueView>, Objection>,
    outcome: Result<IdTokenClaims, ClaimsVerificationError>,
)
    requires
        is_taken_up(data, raw),
        admitted(CallbackView::Success { code, state: data.csrf }, Some(raw)) == Ok::<
            ExchangeView,
            AuthErrorView,
        >(exchange),
        exchanged(exchange, Ok(Some(id_token))) == Ok::<PendingView, AuthErrorView>(pending),
        check matches NonceCheck::Matches(nonce) && nonce@ == pending.nonce,
        provider::verifies(standing, check, outcome),
        outcome is Ok,
    ensures
        pending.id_token == id_token@,
        standing matches Ok(members) && provider::nonce_in(members) == Some(data.nonce),
{
}

/// A callback that returns another state than the login was begun with is refused.
pub proof fn other_states_are_refused(
    data: ProtectionView,
    raw: Seq<char>,
    code: Seq<char>,
    state: Seq<char>,
)
    requires
        protection::protection_in(raw) == Ok::<ProtectionView, AuthErrorView>(data),
        state != data.csrf,
    ensures
        admitted(CallbackView::Success { code, state }, Some(raw)) matches Err(error)
            && error.status() == 401,
{
}

/// The authorization URL does not depend on the destination, so whoever crafts a callback cannot
/// influence where the user ends up.
pub proof fn destination_stays_out_of_the_url(
    flow: FlowView,
    endpoint: Seq<char>,
    data: ProtectionView,
    other: Seq<char>,
)
    ensures
        flow.redirect(endpoint, ProtectionView { destination: other, ..data }).location
            == flow.redirect(endpoint, data).location,
{
}

/// A completed login signs the browser in: of all its cookies, the session and the protection
/// cookie change. The first holds the session that the codec wrote for the ID token and its expiry,
/// and for as long as configured; the second, which is single-use, is gone. Nothing else is sent
/// under their names, and the user goes on as the verified identity, to where the login was begun
/// for.
pub proof fn completed_login_signs_the_browser_in<C: SessionCodec>(
    flow: LoginFlow<C>,
    pending: PendingLogin,
    claims: IdentityClaims,
    result: Result<LoginComplete, AuthError>,
    jar: Map<CookieId, CookieView>,
)
    requires
        call_ensures(LoginFlow::<C>::finish, (&flow, pending, Ok(claims)), result),
        result is Ok,
        flow@.session.name != flow@.protection.name,
        flow@.session.max_age >= 1_000_000_000,
    ensures
        result->Ok_0.claims == claims,
        result->Ok_0.redirect_to@ == pending@.destination,
        ({
            let cookies = cookie::cookie_views(result->Ok_0.cookies@);
            let held = cookie::held_after(jar, cookies);
            let session = flow@.session.address();
            let protection = flow@.protection.address();
            &&& held.contains_key(session)
            &&& held[session].max_age == Some(flow@.session.max_age)
            &&& flow@.session.protects(held[session])
            &&& exists|written: Session, raw: String|
                {
                    &&& written@.id_token == pending@.id_token
                    &&& written@.expires_at == claims@.expires_at
                    &&& #[trigger] call_ensures(
                        C::encode,
                        (&flow.writes_with(), &written),
                        Ok(raw),
                    )
                    &&& held[session].value == raw@
                }
            &&& !held.contains_key(protection)
            &&& forall|other: CookieId|
                other != session && other != protection ==> #[trigger] held.contains_key(other)
                    == jar.contains_key(other) && held[other] == jar[other]
            &&& forall|i: int|
                0 <= i < cookies.len() ==> {
                    &&& (#[trigger] cookies[i]).name == flow@.session.name ==> cookies[i]
                        == held[session]
                    &&& cookies[i].name == flow@.protection.name ==> cookies[i].max_age == Some(
                        0nat,
                    )
                }
        }),
{
    let cookies = cookie::cookie_views(result->Ok_0.cookies@);
    cookie::lemma_held_after_two(jar, cookies);
}

/// A session cookie that holds the ID token itself holds the one that was verified.
pub proof fn completed_login_stores_the_verified_token(
    flow: LoginFlow<IdTokenCodec>,
    pending: PendingLogin,
    claims: IdentityClaims,
    result: Result<LoginComplete, AuthError>,
    jar: Map<CookieId, CookieView>,
)
    requires
        call_ensures(LoginFlow::<IdTokenCodec>::finish, (&flow, pending, Ok(claims)), result),
        flow@.session.name != flow@.protection.name,
        flow@.session.max_age >= 1_000_000_000,
    ensures
        result is Ok,
        cookie::held_after(
            jar,
            cookie::cookie_views(result->Ok_0.cookies@),
        )[flow@.session.address()].value == pending@.id_token,
{
    completed_login_signs_the_browser_in(flow, pending, claims, result, jar);
}

/// A login whose ID token was not verified is not completed: the verdict stands as it is.
pub proof fn unverified_login_is_not_completed<C: SessionCodec>(
    flow: LoginFlow<C>,
    pending: PendingLogin,
    error: AuthError,
    result: Result<LoginComplete, AuthError>,
)
    requires
        call_ensures(LoginFlow::<C>::finish, (&flow, pending, Err(error)), result),
    ensures
        result == Err::<LoginComplete, AuthError>(error),
{
}

/// A login that is begun leaves the browser with a protection cookie that reads as the data it was
/// begun with, and without a session. The provider is asked for the configured client, with the
/// state, the nonce and the verifier that the cookie holds.
pub proof fn begun_login_keeps_its_secrets_and_drops_the_session<C: SessionCodec>(
    flow: LoginFlow<C>,
    endpoint: AuthUrl,
    data: ProtectionData,
    result: Result<AuthorizationRedirect, AuthError>,
    jar: Map<CookieId, CookieView>,
)
    requires
        call_ensures(LoginFlow::<C>::authorize_with, (&flow, &endpoint, data), result),
        result is Ok,
        flow@.session.name != flow@.protection.name,
        flow@.protection.max_age >= 1_000_000_000,
    ensures
        ({
            let cookies = cookie::cookie_views(result->Ok_0.cookies@);
            let held = cookie::held_after(jar, cookies);
            let session = flow@.session.address();
            let protection = flow@.protection.address();
            &&& held.contains_key(protection)
            &&& held[protection].max_age == Some(flow@.protection.max_age)
            &&& flow@.protection.protects(held[protection])
            &&& protection::protection_in(held[protection].value) == Ok::<
                ProtectionView,
                AuthErrorView,
            >(data@)
            &&& !held.contains_key(session)
            &&& forall|other: CookieId|
                other != session && other != protection ==> #[trigger] held.contains_key(other)
                    == jar.contains_key(other) && held[other] == jar[other]
            &&& forall|i: int|
                0 <= i < cookies.len() ==> {
                    &&& (#[trigger] cookies[i]).name == flow@.protection.name ==> cookies[i]
                        == held[protection]
                    &&& cookies[i].name == flow@.session.name ==> cookies[i].max_age == Some(0nat)
                }
        }),
        result->Ok_0.location@ == authorization_url(
            endpoint@,
            flow@.config.client_id,
            flow@.config.redirect_url,
            flow@.config.scopes,
            data@.csrf,
            data@.nonce,
            data@.pkce_verifier,
        ),
{
    let cookies = cookie::cookie_views(result->Ok_0.cookies@);
    cookie::lemma_held_after_two(jar, cookies);
}

/// A login that is begun with minted secrets leaves the browser with a protection cookie that its
/// own callback takes up, and without a session; the provider is asked with those very secrets, and
/// with a challenge exactly where PKCE is used. The destination is the one asked for.
pub proof fn minted_login_is_begun<C: SessionCodec>(
    flow: LoginFlow<C>,
    endpoint: AuthUrl,
    destination: &str,
    result: Result<AuthorizationRedirect, AuthError>,
    jar: Map<CookieId, CookieView>,
)
    requires
        call_ensures(LoginFlow::<C>::authorize, (&flow, &endpoint, destination), result),
        flow@.session.name != flow@.protection.name,
        flow@.protection.max_age >= 1_000_000_000,
    ensures
        (result is Ok) == (flow@.redirect_policy.objection(destination@) is None),
        result is Err ==> result->Err_0@.status() == 400,
        result is Ok ==> {
            let held = cookie::held_after(jar, cookie::cookie_views(result->Ok_0.cookies@));
            &&& held.contains_key(flow@.protection.address())
            &&& !held.contains_key(flow@.session.address())
            &&& protection::protection_in(held[flow@.protection.address()].value) matches Ok(data)
            &&& data.destination == destination@
            &&& is_token(data.csrf, 22) && is_drawn_csrf(data.csrf)
            &&& is_token(data.nonce, 22) && is_drawn_nonce(data.nonce)
            &&& (data.pkce_verifier is Some) == flow@.config.use_pkce
            &&& data.pkce_verifier is Some ==> is_token(data.pkce_verifier->Some_0, 43)
                && is_drawn_verifier(data.pkce_verifier->Some_0)
            &&& result->Ok_0.location@ == authorization_url(
                endpoint@,
                flow@.config.client_id,
                flow@.config.redirect_url,
                flow@.config.scopes,
                data.csrf,
                data.nonce,
                data.pkce_verifier,
            )
        },
{
    if result is Ok {
        let cookies = cookie::cookie_views(result->Ok_0.cookies@);
        cookie::lemma_held_after_two(jar, cookies);
    }
}

/// A refused destination begins no login, and every other one does.
pub proof fn refused_destination_begins_no_login<C: SessionCodec>(
    flow: LoginFlow<C>,
    endpoint: AuthUrl,
    data: ProtectionData,
    result: Result<AuthorizationRedirect, AuthError>,
    destination: &str,
    verdict: Result<(), AuthError>,
)
    requires
        call_ensures(LoginFlow::<C>::authorize_with, (&flow, &endpoint, data), result),
        destination@ == data.destination@,
        call_ensures(RedirectPolicy::validate, (&flow@.redirect_policy, destination), verdict),
    ensures
        (result is Ok) == (verdict is Ok),
        result is Err ==> result->Err_0@ == verdict->Err_0@,
{
}

/// A callback is taken up exactly when the provider returned a code with the state that the
/// protection cookie holds, and then the code is exchanged with the verifier of that cookie.
/// Otherwise it is refused: as the provider's failure where the provider reports one other than
/// that the user declined, and as unauthenticated in every other case.
pub proof fn callback_is_taken_up_with_its_own_cookie<C: SessionCodec>(
    flow: LoginFlow<C>,
    callback: CallbackParams,
    raw: Option<&str>,
    result: Result<CodeExchange, AuthError>,
    code: &str,
    verifier: Option<&str>,
)
    requires
        call_ensures(LoginFlow::<C>::complete, (&flow, callback, raw), result),
        result is Ok ==> call_ensures(CodeExchange::code, (&result->Ok_0,), code),
        result is Ok ==> call_ensures(CodeExchange::pkce_verifier, (&result->Ok_0,), verifier),
    ensures
        match callback@ {
            CallbackView::Success { code: returned, state } => if raw is Some
                && protection::protection_in(raw->Some_0@) is Ok && protection::protection_in(
                raw->Some_0@,
            )->Ok_0.csrf == state {
                let data = protection::protection_in(raw->Some_0@)->Ok_0;
                &&& result is Ok
                &&& code@ == returned
                &&& text::optional_str(verifier) == data.pkce_verifier
                &&& result->Ok_0@.nonce == data.nonce
                &&& result->Ok_0@.destination == data.destination
            } else {
                result is Err && result->Err_0@.status() == 401
            },
            CallbackView::Failure { error, .. } => result is Err && result->Err_0@.status()
                == if error == "access_denied"@ {
                401u16
            } else {
                503u16
            },
        },
{
}

/// What a login waits for is the ID token that the token endpoint sent, held to the nonce that was
/// minted. A reply without one is the provider's fault, and a failed exchange is no login.
pub proof fn exchanged_token_is_held_to_the_nonce<C: SessionCodec>(
    flow: LoginFlow<C>,
    exchange: CodeExchange,
    reply: Result<Option<String>, TokenExchangeError>,
    result: Result<PendingLogin, AuthError>,
    token: &str,
    check: NonceCheck,
)
    requires
        call_ensures(LoginFlow::<C>::exchanged, (&flow, exchange, reply), result),
        result is Ok ==> call_ensures(PendingLogin::id_token, (&result->Ok_0,), token),
        result is Ok ==> call_ensures(PendingLogin::nonce_check, (&result->Ok_0,), check),
    ensures
        (result is Ok) == (reply is Ok && reply->Ok_0 is Some),
        result is Ok ==> {
            &&& token@ == reply->Ok_0->Some_0@
            &&& check matches NonceCheck::Matches(nonce) && nonce@ == exchange@.nonce
            &&& result->Ok_0@.destination == exchange@.destination
        },
        reply is Ok && reply->Ok_0 is None ==> result->Err_0@.status() == 503,
        reply is Err ==> error::is_attributed(reply->Err_0, result->Err_0@),
{
}

/// A login from its beginning to its end: the callback that returns the state it was begun with,
/// with the protection cookie that it left, ends with the browser signed in, at the destination the
/// login was begun for, with the ID token that was held to the nonce it was begun with.
pub proof fn login_ends_where_it_was_begun_for(
    flow: LoginFlow<IdTokenCodec>,
    endpoint: AuthUrl,
    data: ProtectionData,
    begun: Result<AuthorizationRedirect, AuthError>,
    jar: Map<CookieId, CookieView>,
    callback: CallbackParams,
    raw: &str,
    taken: Result<CodeExchange, AuthError>,
    id_token: String,
    waiting: Result<PendingLogin, AuthError>,
    check: NonceCheck,
    claims: IdentityClaims,
    done: Result<LoginComplete, AuthError>,
)
    requires
        flow@.session.name != flow@.protection.name,
        flow@.protection.max_age >= 1_000_000_000,
        flow@.session.max_age >= 1_000_000_000,
        call_ensures(LoginFlow::<IdTokenCodec>::authorize_with, (&flow, &endpoint, data), begun),
        begun is Ok,
        raw@ == cookie::held_after(
            jar,
            cookie::cookie_views(begun->Ok_0.cookies@),
        )[flow@.protection.address()].value,
        callback@ is Success && callback@->state == data@.csrf,
        call_ensures(LoginFlow::<IdTokenCodec>::complete, (&flow, callback, Some(raw)), taken),
        taken is Ok ==> call_ensures(
            LoginFlow::<IdTokenCodec>::exchanged,
            (&flow, taken->Ok_0, Ok(Some(id_token))),
            waiting,
        ),
        waiting is Ok ==> call_ensures(PendingLogin::nonce_check, (&waiting->Ok_0,), check),
        waiting is Ok ==> call_ensures(
            LoginFlow::<IdTokenCodec>::finish,
            (&flow, waiting->Ok_0, Ok(claims)),
            done,
        ),
    ensures
        taken is Ok && waiting is Ok && done is Ok,
        taken->Ok_0@.code == callback@->code,
        taken->Ok_0@.pkce_verifier == data@.pkce_verifier,
        check matches NonceCheck::Matches(nonce) && nonce@ == data@.nonce,
        done->Ok_0.redirect_to@ == data@.destination,
        done->Ok_0.claims == claims,
        ({
            let left = cookie::held_after(
                cookie::held_after(jar, cookie::cookie_views(begun->Ok_0.cookies@)),
                cookie::cookie_views(done->Ok_0.cookies@),
            );
            &&& left.contains_key(flow@.session.address())
            &&& left[flow@.session.address()].value == id_token@
            &&& !left.contains_key(flow@.protection.address())
        }),
{
    begun_login_keeps_its_secrets_and_drops_the_session(flow, endpoint, data, begun, jar);
    let held = cookie::held_after(jar, cookie::cookie_views(begun->Ok_0.cookies@));
    completed_login_signs_the_browser_in(flow, waiting->Ok_0, claims, done, held);
    completed_login_stores_the_verified_token(flow, waiting->Ok_0, claims, done, held);
}

/// A flow sends the cookies and follows the policy that it was configured with; unless others are
/// chosen, the two cookies have different names, live for longer than a second, are sent for the
/// whole site over TLS only, and only paths are permitted.
pub proof fn flow_is_configured_as_chosen<C: SessionCodec>(
    config: OidcConfig,
    codec: C,
    flow: LoginFlow<C>,
    session: CookieSettings,
    with_session: LoginFlow<C>,
    protection: CookieSettings,
    with_protection: LoginFlow<C>,
    policy: RedirectPolicy,
    with_policy: LoginFlow<C>,
)
    requires
        call_ensures(LoginFlow::<C>::with_codec, (config, codec), flow),
        call_ensures(LoginFlow::<C>::with_session_cookie, (flow, session), with_session),
        call_ensures(LoginFlow::<C>::with_protection_cookie, (flow, protection), with_protection),
        call_ensures(LoginFlow::<C>::with_redirect_policy, (flow, policy), with_policy),
    ensures
        flow@.config == config@ && flow.writes_with() == codec,
        flow@.session.name == "session"@ && flow@.protection.name == "authn_protection"@,
        flow@.session.name != flow@.protection.name,
        flow@.session.max_age >= 1_000_000_000 && flow@.protection.max_age >= 1_000_000_000,
        flow@.protection.max_age < flow@.session.max_age,
        flow@.session.secure && flow@.protection.secure,
        flow@.session.path == "/"@ && flow@.protection.path == "/"@,
        flow@.session.same_site is Some && flow@.session.same_site->Some_0 is Lax,
        flow@.protection.same_site is Some && flow@.protection.same_site->Some_0 is Lax,
        flow@.redirect_policy is RelativeOnly,
        with_session@ == (FlowView { session: session@, ..flow@ }),
        with_protection@ == (FlowView { protection: protection@, ..flow@ }),
        with_policy@ == (FlowView { redirect_policy: policy, ..flow@ }),
        with_session.writes_with() == codec,
        with_protection.writes_with() == codec,
        with_policy.writes_with() == codec,
{
    reveal_strlit("session");
    reveal_strlit("authn_protection");
    assert("session"@.len() == 7 && "authn_protection"@.len() == 16);
}

/// What a flow is asked for is what it sends.
pub proof fn flow_is_read_back<C: SessionCodec>(
    flow: LoginFlow<C>,
    config: &OidcConfig,
    session: &CookieSettings,
    protection: &CookieSettings,
)
    requires
        call_ensures(LoginFlow::<C>::config, (&flow,), config),
        call_ensures(LoginFlow::<C>::session_cookie, (&flow,), session),
        call_ensures(LoginFlow::<C>::protection_cookie, (&flow,), protection),
    ensures
        config@ == flow@.config,
        session@ == flow@.session,
        protection@ == flow@.protection,
{
}

/// A provider's error is told to the operator: its description where there is one, else its code.
pub proof fn providers_error_is_told<C: SessionCodec>(
    flow: LoginFlow<C>,
    callback: CallbackParams,
    raw: Option<&str>,
    result: Result<CodeExchange, AuthError>,
)
    requires
        call_ensures(LoginFlow::<C>::complete, (&flow, callback, raw), result),
    ensures
        callback@ matches CallbackView::Failure { error, description } ==> result is Err
            && text::ends_with(
            result->Err_0@.detail(),
            if description is Some {
                description->Some_0
            } else {
                error
            },
        ),
{
    assert forall|s: Seq<char>, tail: Seq<char>| text::ends_with(#[trigger] (s + tail), tail) by {
        text::lemma_ends_with(s, tail);
    }
}

/// A session that the codec cannot write is no login, and the codec's failure is the answer.
pub proof fn unwritable_session_is_no_login<C: SessionCodec>(
    flow: LoginFlow<C>,
    pending: PendingLogin,
    claims: IdentityClaims,
    error: AuthError,
)
    requires
        call_ensures(LoginFlow::<C>::finish, (&flow, pending, Ok(claims)), Err(error)),
    ensures
        exists|written: Session, encoded: Result<String, AuthError>|
            #[trigger] call_ensures(C::encode, (&flow.writes_with(), &written), encoded)
                && written@.id_token == pending@.id_token && written@.expires_at
                == claims@.expires_at && encoded == Err::<String, AuthError>(error),
{
}

/// A flow that stores the ID token is one with that codec.
pub proof fn flow_stores_the_id_token_by_default(
    config: OidcConfig,
    flow: LoginFlow<IdTokenCodec>,
    same: LoginFlow<IdTokenCodec>,
)
    requires
        call_ensures(LoginFlow::<IdTokenCodec>::new, (config,), flow),
        call_ensures(LoginFlow::<IdTokenCodec>::with_codec, (config, IdTokenCodec), same),
    ensures
        flow@ == same@,
        flow@.config == config@,
{
}

} // verus!
