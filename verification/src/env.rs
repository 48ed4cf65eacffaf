//! Reading configuration from environment variables.
//!
//! Entirely optional: every type in this crate is constructed from explicit values. This module is
//! a convenience for services that would otherwise read twenty variables by hand. It works on a
//! snapshot of the environment, which the caller takes.
//!
//! Secrets are deliberately not required to come from the environment: read them from a secret
//! manager and override them on the returned configuration.
use vstd::prelude::*;

use crate::error::{AuthError, AuthErrorView};
use crate::names::NameMap;
use crate::oidc::config::{self, ConfigView, OidcConfig, OidcConfigError};
use crate::text::{self, Separator};
use crate::time::{self, Duration};

verus! {

/// Default prefix for every variable this module reads.
///
/// A prefix is mandatory: without one, generic suffixes like `OIDC_CLIENT_ID` or
/// `SESSION_COOKIE_NAME` would collide with the host application's own variables, or with another
/// library's.
pub const DEFAULT_PREFIX: &'static str = "AUTHN_";

/// Why a configuration could not be read.
#[derive(Debug)]
pub enum EnvError {
    Missing { name: String },
    NotUnicode { name: String },
    Invalid { name: String, detail: String },
    EmptyPrefix,
}

/// What an [`EnvError`] says.
pub ghost enum EnvErrorView {
    Missing { name: Seq<char> },
    NotUnicode { name: Seq<char> },
    Invalid { name: Seq<char>, detail: Seq<char> },
    EmptyPrefix,
}

impl View for EnvError {
    type V = EnvErrorView;

    open spec fn view(&self) -> EnvErrorView {
        match *self {
            EnvError::Missing { name } => EnvErrorView::Missing { name: name@ },
            EnvError::NotUnicode { name } => EnvErrorView::NotUnicode { name: name@ },
            EnvError::Invalid { name, detail } => EnvErrorView::Invalid {
                name: name@,
                detail: detail@,
            },
            EnvError::EmptyPrefix => EnvErrorView::EmptyPrefix,
        }
    }
}

impl EnvErrorView {
    /// The message for the operator, which names the variable.
    pub open spec fn message(self) -> Seq<char> {
        match self {
            EnvErrorView::Missing { name } => name + " is not set"@,
            EnvErrorView::NotUnicode { name } => name + " is not valid UTF-8"@,
            EnvErrorView::Invalid { name, detail } => name + " could not be parsed: "@ + detail,
            EnvErrorView::EmptyPrefix =>
                "an environment prefix is required, so that generic names such as OIDC_CLIENT_ID cannot collide with the application's own variables"@,
        }
    }
}

impl EnvError {
    /// The message for the operator, which names the variable.
    pub fn to_string(&self) -> (message: String)
        ensures
            message@ == self@.message(),
    {
        match self {
            EnvError::Missing { name } => text::join(name.as_str(), " is not set"),
            EnvError::NotUnicode { name } => text::join(name.as_str(), " is not valid UTF-8"),
            EnvError::Invalid { name, detail } => {
                let head = text::join(name.as_str(), " could not be parsed: ");
                text::join(head.as_str(), detail.as_str())
            },
            EnvError::EmptyPrefix => String::from_str(
                "an environment prefix is required, so that generic names such as OIDC_CLIENT_ID cannot collide with the application's own variables",
            ),
        }
    }
}

impl From<EnvError> for AuthError {
    fn from(error: EnvError) -> (failure: AuthError)
        ensures
            failure@ == (AuthErrorView::Internal { detail: error@.message() }),
    {
        AuthError::internal(error.to_string().as_str())
    }
}

impl vstd::std_specs::convert::FromSpecImpl<EnvError> for AuthError {
    open spec fn obeys_from_spec() -> bool {
        false
    }

    open spec fn from_spec(error: EnvError) -> AuthError {
        arbitrary()
    }
}

/// The value of an environment variable.
#[derive(Debug)]
pub enum Variable {
    Text(String),
    /// The value is no Unicode text.
    NotUnicode,
}

/// What a [`Variable`] holds.
pub ghost enum VariableView {
    Text(Seq<char>),
    NotUnicode,
}

impl View for Variable {
    type V = VariableView;

    open spec fn view(&self) -> VariableView {
        match *self {
            Variable::Text(value) => VariableView::Text(value@),
            Variable::NotUnicode => VariableView::NotUnicode,
        }
    }
}

impl Clone for Variable {
    fn clone(&self) -> (copy: Variable)
        ensures
            copy@ == self@,
    {
        match self {
            Variable::Text(value) => Variable::Text(value.clone()),
            Variable::NotUnicode => Variable::NotUnicode,
        }
    }
}

/// Reads configuration from the environment under a common prefix.
///
/// | Suffix | Meaning |
/// |---|---|
/// | `OIDC_ISSUER_URL` | the OpenID Provider's issuer URL |
/// | `OIDC_CLIENT_ID` | this service's client id |
/// | `OIDC_CLIENT_SECRET` | client secret (prefer a secret manager) |
/// | `OIDC_REDIRECT_URL` | the login callback URL |
/// | `OIDC_SCOPES` | space- or comma-separated scopes |
/// | `API_TOKEN_PREFIX` | prefix marking a bearer token as an API key |
/// | `API_STATIC_TOKENS` | JSON array of static tokens (prefer a secret manager) |
/// | `INTROSPECTION_ENDPOINT` | RFC 7662 endpoint |
/// | `INTROSPECTION_AUTH_HEADER` | verbatim `Authorization` for that endpoint |
/// | `SESSION_COOKIE_NAME` | session cookie name |
/// | `COOKIE_SECURE` | `false` only for local plain-HTTP development |
/// | `COOKIE_DOMAIN` | cookie domain |
/// | `MAX_CACHE_TTL_SECS` | cap on caching a remotely-validated token |
#[derive(Debug)]
pub struct EnvConfig {
    prefix: String,
    variables: NameMap<Variable>,
}

/// What an [`EnvConfig`] reads from.
pub ghost struct EnvView {
    pub prefix: Seq<char>,
    pub variables: Map<Seq<char>, VariableView>,
}

impl View for EnvConfig {
    type V = EnvView;

    closed spec fn view(&self) -> EnvView {
        EnvView {
            prefix: self.prefix@,
            variables: self.variables@.map_values(|variable: Variable| variable@),
        }
    }
}

/// A prefix as it is used: without white space around it, and with a trailing underscore.
pub open spec fn normal_prefix(prefix: Seq<char>) -> Seq<char> {
    let bare = text::trimmed(prefix);
    if bare.len() > 0 && bare.last() == '_' {
        bare
    } else {
        bare.push('_')
    }
}

impl EnvView {
    /// The full name of a variable.
    pub open spec fn name(self, suffix: Seq<char>) -> Seq<char> {
        self.prefix + suffix
    }

    /// The value of a variable, when it is set and not blank.
    pub open spec fn get(self, suffix: Seq<char>) -> Result<Option<Seq<char>>, EnvErrorView> {
        if !self.variables.contains_key(self.name(suffix)) {
            Ok(None)
        } else {
            match self.variables[self.name(suffix)] {
                VariableView::Text(value) => if text::trimmed(value).len() == 0 {
                    Ok(None)
                } else {
                    Ok(Some(value))
                },
                VariableView::NotUnicode => Err(EnvErrorView::NotUnicode { name: self.name(suffix) }),
            }
        }
    }

    /// The value of a variable that must be set.
    pub open spec fn require(self, suffix: Seq<char>) -> Result<Seq<char>, EnvErrorView> {
        match self.get(suffix) {
            Ok(Some(value)) => Ok(value),
            Ok(None) => Err(EnvErrorView::Missing { name: self.name(suffix) }),
            Err(error) => Err(error),
        }
    }

    /// The items of a list.
    pub open spec fn list(self, suffix: Seq<char>) -> Result<
        Option<Seq<Seq<char>>>,
        EnvErrorView,
    > {
        match self.get(suffix) {
            Ok(Some(value)) => Ok(
                Some(
                    text::non_empty(
                        text::all_trimmed(text::pieces(value, Separator::BlankOrComma)),
                    ),
                ),
            ),
            Ok(None) => Ok(None),
            Err(error) => Err(error),
        }
    }

    /// A duration given in seconds.
    pub open spec fn duration(self, suffix: Seq<char>) -> Result<Option<nat>, EnvErrorView> {
        match self.get(suffix) {
            Ok(Some(value)) => match whole_number(text::trimmed(value)) {
                Some(secs) => if secs <= u64::MAX {
                    Ok(Some(secs * 1_000_000_000))
                } else {
                    Err(self.not_a_number(suffix, value))
                },
                None => Err(self.not_a_number(suffix, value)),
            },
            Ok(None) => Ok(None),
            Err(error) => Err(error),
        }
    }

    /// The failure that reports a value that is no number.
    pub open spec fn not_a_number(self, suffix: Seq<char>, value: Seq<char>) -> EnvErrorView {
        EnvErrorView::Invalid {
            name: self.name(suffix),
            detail: number_fault(text::trimmed(value)),
        }
    }
}

/// The value of a run of decimal digits.
pub open spec fn digits_value(digits: Seq<char>) -> nat
    decreases digits.len(),
{
    if digits.len() == 0 {
        0
    } else {
        digits_value(digits.drop_last()) * 10 + (digits.last() as u32 - '0' as u32) as nat
    }
}

/// Whether every character is a decimal digit.
pub open spec fn all_digits(s: Seq<char>) -> bool {
    forall|i: int| 0 <= i < s.len() ==> '0' <= #[trigger] s[i] && s[i] <= '9'
}

/// The number that a text writes: decimal digits, with a plus sign before them or not.
pub open spec fn whole_number(s: Seq<char>) -> Option<nat> {
    let digits = if s.len() > 0 && s[0] == '+' {
        s.drop_first()
    } else {
        s
    };
    if digits.len() > 0 && all_digits(digits) {
        Some(digits_value(digits))
    } else {
        None
    }
}

/// What `u64::from_str` reports of a text that it refuses.
pub uninterp spec fn number_fault(s: Seq<char>) -> Seq<char>;

/// `u64::from_str` reads decimal digits, with a plus sign before them or not, when the number fits.
/// What it reports otherwise is left to [`number_fault`].
#[verifier::external_body]
fn parse_number(number: &str) -> (parsed: Result<u64, String>)
    ensures
        match parsed {
            Ok(value) => whole_number(number@) == Some(value as nat),
            Err(report) => report@ == number_fault(number@) && !(whole_number(
                number@,
            ) matches Some(value) && value <= u64::MAX),
        },
{
    number.parse::<u64>().map_err(|error| error.to_string())
}

/// Whether `result` is what becomes of a variable that `parser` reads: nothing when it is unset,
/// and an error when it is malformed.
pub open spec fn parses<T, F: FnOnce(&str) -> Result<T, String>>(
    env: EnvView,
    suffix: Seq<char>,
    parser: F,
    result: Result<Option<T>, EnvErrorView>,
) -> bool {
    match env.get(suffix) {
        Err(error) => result == Err::<Option<T>, EnvErrorView>(error),
        Ok(None) => result == Ok::<Option<T>, EnvErrorView>(None),
        Ok(Some(value)) => exists|raw: &str, parsed: Result<T, String>|
            raw@ == text::trimmed(value) && #[trigger] parser.ensures((raw,), parsed) && result
                == (match parsed {
                Ok(found) => Ok::<Option<T>, EnvErrorView>(Some(found)),
                Err(report) => Err(
                    EnvErrorView::Invalid { name: env.name(suffix), detail: report@ },
                ),
            }),
    }
}

/// A result with what its error says.
pub open spec fn env_result<T>(result: Result<T, EnvError>) -> Result<T, EnvErrorView> {
    match result {
        Ok(value) => Ok(value),
        Err(error) => Err(error@),
    }
}

/// The variable that a malformed URL was read from.
pub open spec fn malformed_variable(error: OidcConfigError) -> Seq<char> {
    match error {
        OidcConfigError::IssuerUrl(_) => "OIDC_ISSUER_URL"@,
        OidcConfigError::RedirectUrl(_) => "OIDC_REDIRECT_URL"@,
    }
}

/// The failure that reports a configured URL that is none, under the name of its variable.
pub open spec fn invalid_url(env: EnvView, error: OidcConfigError) -> EnvErrorView {
    EnvErrorView::Invalid { name: env.name(malformed_variable(error)), detail: error.message() }
}

/// Whether `result` is the OIDC configuration that the environment describes: the two URLs and the
/// client id are required, and a secret, scopes and a refresh interval may be given.
pub open spec fn describes_oidc(env: EnvView, result: Result<OidcConfig, EnvError>) -> bool {
    match (
        env.require("OIDC_ISSUER_URL"@),
        env.require("OIDC_CLIENT_ID"@),
        env.require("OIDC_REDIRECT_URL"@),
    ) {
        (Err(error), _, _) => result matches Err(found) && found@ == error,
        (Ok(_), Err(error), _) => result matches Err(found) && found@ == error,
        (Ok(_), Ok(_), Err(error)) => result matches Err(found) && found@ == error,
        (Ok(issuer), Ok(client_id), Ok(redirect)) => if config::issuer_url_fault(
            issuer,
        ) is Some {
            result matches Err(found) && exists|report: String|
                config::issuer_url_fault(issuer) == Some(report@) && found@ == #[trigger] invalid_url(
                    env,
                    OidcConfigError::IssuerUrl(report),
                )
        } else if config::redirect_url_fault(redirect) is Some {
            result matches Err(found) && exists|report: String|
                config::redirect_url_fault(redirect) == Some(report@) && found@
                    == #[trigger] invalid_url(env, OidcConfigError::RedirectUrl(report))
        } else {
            let base = config::fresh_config(issuer, client_id, redirect);
            match (
                env.get("OIDC_CLIENT_SECRET"@),
                env.list("OIDC_SCOPES"@),
                env.duration("OIDC_MIN_REFRESH_SECS"@),
            ) {
                (Err(error), _, _) => result matches Err(found) && found@ == error,
                (Ok(_), Err(error), _) => result matches Err(found) && found@ == error,
                (Ok(_), Ok(_), Err(error)) => result matches Err(found) && found@ == error,
                (Ok(secret), Ok(scopes), Ok(interval)) => result matches Ok(found) && found@
                    == (ConfigView {
                    client_secret: secret,
                    scopes: match scopes {
                        Some(scopes) => scopes,
                        None => base.scopes,
                    },
                    min_refresh_interval: match interval {
                        Some(interval) => interval,
                        None => base.min_refresh_interval,
                    },
                    ..base
                }),
            }
        },
    }
}

impl EnvConfig {
    /// Reads under [`DEFAULT_PREFIX`], from an environment without variables.
    pub fn new() -> (env: EnvConfig)
        ensures
            env@ == (EnvView { prefix: DEFAULT_PREFIX@, variables: Map::empty() }),
    {
        EnvConfig::under(String::from_str(DEFAULT_PREFIX))
    }

    fn under(prefix: String) -> (env: EnvConfig)
        ensures
            env@ == (EnvView { prefix: prefix@, variables: Map::empty() }),
    {
        let env = EnvConfig { prefix, variables: NameMap::new() };
        assert(env@.variables =~= Map::empty());
        env
    }

    /// Reads under a different prefix, so a deployment can keep the variable names it already sets.
    ///
    /// The prefix must be non-empty. A trailing `_` is appended when absent, so `"MYAPP"` and
    /// `"MYAPP_"` both read `MYAPP_OIDC_CLIENT_ID`.
    pub fn with_prefix(prefix: &str) -> (env: Result<EnvConfig, EnvError>)
        ensures
            match env {
                Ok(env) => text::trimmed(prefix@).len() > 0 && env@ == (EnvView {
                    prefix: normal_prefix(prefix@),
                    variables: Map::empty(),
                }),
                Err(error) => text::trimmed(prefix@).len() == 0 && error@
                    == EnvErrorView::EmptyPrefix,
            },
    {
        let bare = text::trim(prefix);
        let length = bare.unicode_len();
        if length == 0 {
            return Err(EnvError::EmptyPrefix);
        }
        let mut prefix = String::from_str(bare);
        if bare.get_char(length - 1) != '_' {
            prefix.push('_');
        }
        Ok(EnvConfig::under(prefix))
    }

    /// Gives a variable its value, under its full name.
    pub fn with_variable(self, name: &str, value: Variable) -> (env: EnvConfig)
        ensures
            env@ == (EnvView { variables: self@.variables.insert(name@, value@), ..self@ }),
    {
        let mut variables = self.variables;
        variables.insert(name, value);
        let env = EnvConfig { variables, ..self };
        assert(env@.variables =~= self@.variables.insert(name@, value@));
        env
    }

    /// The prefix every variable is read under.
    pub fn prefix(&self) -> (prefix: &str)
        ensures
            prefix@ == self@.prefix,
    {
        self.prefix.as_str()
    }

    /// The full variable name for a suffix, such as `AUTHN_OIDC_ISSUER_URL`.
    pub fn name(&self, suffix: &str) -> (name: String)
        ensures
            name@ == self@.name(suffix@),
    {
        text::join(self.prefix.as_str(), suffix)
    }

    /// The raw value of a variable, if set and not blank.
    ///
    /// A blank value counts as unset: a deployment that sets a variable to the empty string almost
    /// always means "not configured".
    pub fn get(&self, suffix: &str) -> (value: Result<Option<String>, EnvError>)
        ensures
            match value {
                Ok(value) => self@.get(suffix@) == Ok::<Option<Seq<char>>, EnvErrorView>(
                    text::optional(value),
                ),
                Err(error) => self@.get(suffix@) == Err::<Option<Seq<char>>, EnvErrorView>(error@),
            },
    {
        let name = self.name(suffix);
        match self.variables.get(name.as_str()) {
            Some(Variable::Text(value)) => {
                if text::trim(value.as_str()).unicode_len() == 0 {
                    Ok(None)
                } else {
                    Ok(Some(value.clone()))
                }
            },
            Some(Variable::NotUnicode) => Err(EnvError::NotUnicode { name }),
            None => Ok(None),
        }
    }

    /// As [`Self::get`], failing when the variable is unset.
    pub fn require(&self, suffix: &str) -> (value: Result<String, EnvError>)
        ensures
            match value {
                Ok(value) => self@.require(suffix@) == Ok::<Seq<char>, EnvErrorView>(value@),
                Err(error) => self@.require(suffix@) == Err::<Seq<char>, EnvErrorView>(error@),
            },
    {
        match self.get(suffix) {
            Ok(Some(value)) => Ok(value),
            Ok(None) => Err(EnvError::Missing { name: self.name(suffix) }),
            Err(error) => Err(error),
        }
    }

    /// A value that `parser` reads, or `None` when unset.
    pub fn parse<T, F: FnOnce(&str) -> Result<T, String>>(&self, suffix: &str, parser: F) -> (result:
        Result<Option<T>, EnvError>)
        requires
            forall|raw: &str| #[trigger] parser.requires((raw,)),
        ensures
            parses(self@, suffix@, parser, env_result(result)),
    {
        let raw = match self.get(suffix) {
            Ok(Some(raw)) => raw,
            Ok(None) => {
                return Ok(None);
            },
            Err(error) => {
                return Err(error);
            },
        };
        let trimmed = text::trim(raw.as_str());
        let parsed = parser(trimmed);
        assert(parser.ensures((trimmed,), parsed));
        match parsed {
            Ok(value) => Ok(Some(value)),
            Err(detail) => Err(EnvError::Invalid { name: self.name(suffix), detail }),
        }
    }

    /// A value that `parser` reads, or `default` when unset. A malformed value is still an error
    /// and does not fall back silently, so a typo is noticed.
    pub fn parse_or<T, F: FnOnce(&str) -> Result<T, String>>(
        &self,
        suffix: &str,
        default: T,
        parser: F,
    ) -> (result: Result<T, EnvError>)
        requires
            forall|raw: &str| #[trigger] parser.requires((raw,)),
        ensures
            exists|parsed: Result<Option<T>, EnvErrorView>| #[trigger]
                parses(self@, suffix@, parser, parsed) && env_result(result) == (match parsed {
                    Ok(Some(value)) => Ok::<T, EnvErrorView>(value),
                    Ok(None) => Ok(default),
                    Err(error) => Err(error),
                }),
    {
        let parsed = self.parse(suffix, parser);
        assert(parses(self@, suffix@, parser, env_result(parsed)));
        match parsed {
            Ok(Some(value)) => Ok(value),
            Ok(None) => Ok(default),
            Err(error) => Err(error),
        }
    }

    /// A duration given in seconds.
    pub fn duration_secs(&self, suffix: &str) -> (result: Result<Option<Duration>, EnvError>)
        ensures
            match result {
                Ok(span) => self@.duration(suffix@) == Ok::<Option<nat>, EnvErrorView>(
                    time::optional_span(span),
                ),
                Err(error) => self@.duration(suffix@) == Err::<Option<nat>, EnvErrorView>(error@),
            },
    {
        let raw = match self.get(suffix) {
            Ok(Some(raw)) => raw,
            Ok(None) => {
                return Ok(None);
            },
            Err(error) => {
                return Err(error);
            },
        };
        match parse_number(text::trim(raw.as_str())) {
            Ok(secs) => Ok(Some(Duration::from_secs(secs))),
            Err(detail) => Err(EnvError::Invalid { name: self.name(suffix), detail }),
        }
    }

    /// A list, accepting either spaces or commas as separators.
    pub fn list(&self, suffix: &str) -> (result: Result<Option<Vec<String>>, EnvError>)
        ensures
            match result {
                Ok(Some(items)) => self@.list(suffix@) == Ok::<
                    Option<Seq<Seq<char>>>,
                    EnvErrorView,
                >(Some(text::texts(items@))),
                Ok(None) => self@.list(suffix@) == Ok::<Option<Seq<Seq<char>>>, EnvErrorView>(None),
                Err(error) => self@.list(suffix@) == Err::<Option<Seq<Seq<char>>>, EnvErrorView>(
                    error@,
                ),
            },
    {
        match self.get(suffix) {
            Ok(Some(raw)) => {
                let items = text::split_trimmed(raw.as_str(), Separator::BlankOrComma);
                Ok(Some(text::to_strings(&items)))
            },
            Ok(None) => Ok(None),
            Err(error) => Err(error),
        }
    }

    /// Whether a mechanism is configured, for deciding whether to fetch the corresponding secret
    /// from a secret manager.
    pub fn is_set(&self, suffix: &str) -> (set: bool)
        ensures
            set == (self@.get(suffix@) matches Ok(Some(_))),
    {
        match self.get(suffix) {
            Ok(Some(_)) => true,
            _ => false,
        }
    }

    /// Builds an [`OidcConfig`] from the environment.
    ///
    /// The client secret is read when present, but a deployment holding it in a secret manager
    /// should leave it unset and add it to the result.
    pub fn oidc_config(&self) -> (result: Result<OidcConfig, EnvError>)
        ensures
            describes_oidc(self@, result),
    {
        let issuer = match self.require("OIDC_ISSUER_URL") {
            Ok(value) => value,
            Err(error) => {
                return Err(error);
            },
        };
        let client_id = match self.require("OIDC_CLIENT_ID") {
            Ok(value) => value,
            Err(error) => {
                return Err(error);
            },
        };
        let redirect = match self.require("OIDC_REDIRECT_URL") {
            Ok(value) => value,
            Err(error) => {
                return Err(error);
            },
        };
        let config = match OidcConfig::new(issuer.as_str(), client_id.as_str(), redirect.as_str()) {
            Ok(config) => config,
            Err(error) => {
                let suffix = match &error {
                    OidcConfigError::IssuerUrl(_) => "OIDC_ISSUER_URL",
                    OidcConfigError::RedirectUrl(_) => "OIDC_REDIRECT_URL",
                };
                assert(invalid_url(self@, error) == (EnvErrorView::Invalid {
                    name: self@.name(suffix@),
                    detail: error.message(),
                }));
                return Err(
                    EnvError::Invalid { name: self.name(suffix), detail: error.to_string() },
                );
            },
        };
        let config = match self.get("OIDC_CLIENT_SECRET") {
            Ok(Some(secret)) => config.with_client_secret(secret.as_str()),
            Ok(None) => config,
            Err(error) => {
                return Err(error);
            },
        };
        let config = match self.list("OIDC_SCOPES") {
            Ok(Some(scopes)) => config.with_scopes(scopes),
            Ok(None) => config,
            Err(error) => {
                return Err(error);
            },
        };
        match self.duration_secs("OIDC_MIN_REFRESH_SECS") {
            Ok(Some(interval)) => Ok(config.with_min_refresh_interval(interval)),
            Ok(None) => Ok(config),
            Err(error) => Err(error),
        }
    }
}

impl Clone for EnvConfig {
    fn clone(&self) -> (copy: EnvConfig)
        ensures
            copy@ == self@,
    {
        let copy = EnvConfig { prefix: self.prefix.clone(), variables: self.variables.clone() };
        assert forall|name: Seq<char>| #[trigger] copy@.variables.contains_key(name) implies
            copy@.variables[name] == self@.variables[name] by {
            assert(cloned::<Variable>(self.variables@[name], copy.variables@[name]));
        }
        assert(copy@.variables =~= self@.variables);
        copy
    }
}

impl Default for EnvConfig {
    fn default() -> (env: EnvConfig)
        ensures
            env@ == (EnvView { prefix: DEFAULT_PREFIX@, variables: Map::empty() }),
    {
        EnvConfig::new()
    }
}

/// Every prefix in use ends with the separator, whether it was given with one or not.
pub proof fn trailing_separator_is_supplied(prefix: Seq<char>)
    ensures
        normal_prefix(prefix).len() > 0,
        normal_prefix(prefix).last() == '_',
{
}

/// A variable is read under the prefix and its own name, as it was set. One that is unset or blank
/// counts as not configured, and one that is no text is an error that names it.
pub proof fn variable_is_read_as_it_was_set(
    env: EnvConfig,
    suffix: &str,
    found: Result<Option<String>, EnvError>,
    needed: Result<String, EnvError>,
    set: bool,
    name: String,
)
    requires
        call_ensures(EnvConfig::get, (&env, suffix), found),
        call_ensures(EnvConfig::require, (&env, suffix), needed),
        call_ensures(EnvConfig::is_set, (&env, suffix), set),
        call_ensures(EnvConfig::name, (&env, suffix), name),
    ensures
        name@ == env@.prefix + suffix@,
        !env@.variables.contains_key(env@.prefix + suffix@) ==> found is Ok && found->Ok_0 is None,
        env@.variables.contains_key(env@.prefix + suffix@) ==> match env@.variables[env@.prefix
            + suffix@] {
            VariableView::Text(value) => found is Ok && if text::is_blank(value) {
                found->Ok_0 is None
            } else {
                found->Ok_0 is Some && found->Ok_0->Some_0@ == value
            },
            VariableView::NotUnicode => found is Err && found->Err_0@ == (
            EnvErrorView::NotUnicode { name: name@ }),
        },
        set == (found is Ok && found->Ok_0 is Some),
        (needed is Ok) == set,
        set ==> needed->Ok_0@ == found->Ok_0->Some_0@,
        found is Ok && found->Ok_0 is None ==> needed->Err_0@ == (EnvErrorView::Missing {
            name: name@,
        }),
        found is Err ==> needed is Err && needed->Err_0@ == found->Err_0@,
{
    if env@.variables.contains_key(env@.prefix + suffix@) {
        if let VariableView::Text(value) = env@.variables[env@.prefix + suffix@] {
            text::lemma_blank(value);
        }
    }
}

/// A prefix is used without the white space around it and with one underscore at its end, whether
/// it was given with it or not; an empty one is refused.
pub proof fn prefix_is_used_with_its_separator(
    prefix: &str,
    env: Result<EnvConfig, EnvError>,
    lead: Seq<char>,
    core: Seq<char>,
    trail: Seq<char>,
)
    requires
        call_ensures(EnvConfig::with_prefix, (prefix,), env),
        prefix@ == lead + core + trail,
        text::is_blank(lead) && text::is_blank(trail) && text::is_bare(core),
    ensures
        core.len() == 0 ==> env is Err,
        core.len() > 0 ==> env is Ok && env->Ok_0@.prefix == if core.last() == '_' {
            core
        } else {
            core.push('_')
        },
        env is Ok ==> env->Ok_0@.variables == Map::<Seq<char>, VariableView>::empty(),
{
    text::lemma_trimmed(lead, core, trail);
}

/// A variable that was set has its value, and every other one keeps its own.
pub proof fn set_variable_is_kept(
    env: EnvConfig,
    name: &str,
    value: Variable,
    after: EnvConfig,
    other: Seq<char>,
)
    requires
        call_ensures(EnvConfig::with_variable, (env, name, value), after),
    ensures
        after@.prefix == env@.prefix,
        after@.variables.contains_key(name@) && after@.variables[name@] == value@,
        other != name@ ==> after@.variables.contains_key(other) == env@.variables.contains_key(
            other,
        ),
        other != name@ && env@.variables.contains_key(other) ==> after@.variables[other]
            == env@.variables[other],
{
}

proof fn lemma_same_value(digits: Seq<char>)
    ensures
        digits_value(digits) == text::value_of_digits(digits),
    decreases digits.len(),
{
    if digits.len() > 0 {
        lemma_same_value(digits.drop_last());
    }
}

/// A span is read as the seconds that the variable writes, white space around them or not; anything
/// but a number is an error that names the variable, and not a default.
pub proof fn span_is_read_in_seconds(
    env: EnvConfig,
    suffix: &str,
    result: Result<Option<Duration>, EnvError>,
    lead: Seq<char>,
    secs: u64,
    trail: Seq<char>,
    value: Seq<char>,
)
    requires
        call_ensures(EnvConfig::duration_secs, (&env, suffix), result),
        text::is_blank(lead) && text::is_blank(trail),
        env@.variables.contains_key(env@.prefix + suffix@),
        env@.variables[env@.prefix + suffix@] == VariableView::Text(value),
    ensures
        value == lead + text::decimal(secs as nat) + trail ==> result is Ok && result->Ok_0 is Some
            && result->Ok_0->Some_0@ == secs * 1_000_000_000,
        (exists|i: int|
            0 <= i < value.len() && !text::is_white_space(#[trigger] value[i]) && value[i] != '+'
                && !('0' <= value[i] && value[i] <= '9')) ==> (result matches Err(error) && error@
            is Invalid && error@->Invalid_name == env@.prefix + suffix@),
{
    let digits = text::decimal(secs as nat);
    text::lemma_decimal(secs as nat);
    if value == lead + digits + trail {
        assert(text::is_bare(digits)) by {
            assert('0' <= digits[0] && digits[0] <= '9');
            assert('0' <= digits[digits.len() - 1] && digits[digits.len() - 1] <= '9');
        }
        text::lemma_trimmed(lead, digits, trail);
        lemma_same_value(digits);
        assert('0' <= digits[0]);
    }
    if exists|i: int|
        0 <= i < value.len() && !text::is_white_space(#[trigger] value[i]) && value[i] != '+'
            && !('0' <= value[i] && value[i] <= '9') {
        let i = choose|i: int|
            0 <= i < value.len() && !text::is_white_space(#[trigger] value[i]) && value[i] != '+'
                && !('0' <= value[i] && value[i] <= '9');
        let bare = text::trimmed(value);
        let start = text::lemma_trimmed_parts(value);
        text::lemma_kept_by_trimming(value, start, i);
        let at = i - start;
        assert(bare[at] == value[i]);
        text::lemma_blank(value);
        assert(whole_number(bare) is None) by {
            let digits = if bare[0] == '+' {
                bare.drop_first()
            } else {
                bare
            };
            let k = if bare[0] == '+' {
                at - 1
            } else {
                at
            };
            assert(digits[k] == bare[at]);
            assert(!('0' <= digits[k] && digits[k] <= '9'));
        }
    }
}

/// A list is read item by item, whether its items are separated by blanks or by commas; where two
/// separators meet there is no item.
pub proof fn list_is_read_item_by_item(
    env: EnvConfig,
    suffix: &str,
    result: Result<Option<Vec<String>>, EnvError>,
    items: Seq<Seq<char>>,
    mark: char,
)
    requires
        call_ensures(EnvConfig::list, (&env, suffix), result),
        mark == ' ' || mark == ',',
        items.len() > 0 && items[0].len() > 0,
        forall|i: int, j: int|
            0 <= i < items.len() && 0 <= j < items[i].len() ==> !text::is_white_space(
                #[trigger] items[i][j],
            ) && items[i][j] != ',',
        env@.variables.contains_key(env@.prefix + suffix@),
        env@.variables[env@.prefix + suffix@] == VariableView::Text(text::joined(items, mark)),
    ensures
        result is Ok && result->Ok_0 is Some,
        text::texts(result->Ok_0->Some_0@) == items.filter(|item: Seq<char>| item.len() > 0),
        (forall|i: int| 0 <= i < items.len() ==> (#[trigger] items[i]).len() > 0) ==> text::texts(
            result->Ok_0->Some_0@,
        ) == items,
{
    let value = text::joined(items, mark);
    assert(!text::is_white_space(items[0][0]));
    assert(value.len() > 0 && value[0] == items[0][0]);
    text::lemma_blank(value);
    lemma_listed(items, mark);
    assert forall|i: int| 0 <= i < items.len() implies text::trimmed(#[trigger] items[i])
        == items[i] by {
        if items[i].len() > 0 {
            assert(!text::is_white_space(items[i][0]));
            assert(!text::is_white_space(items[i][items[i].len() - 1]));
        }
        text::lemma_trimmed(Seq::empty(), items[i], Seq::empty());
        assert(Seq::<char>::empty() + items[i] + Seq::<char>::empty() =~= items[i]);
    }
    assert(text::all_trimmed(items) =~= items);
    if forall|i: int| 0 <= i < items.len() ==> (#[trigger] items[i]).len() > 0 {
        text::lemma_all_non_empty(items);
    }
}

proof fn lemma_listed(items: Seq<Seq<char>>, mark: char)
    requires
        mark == ' ' || mark == ',',
        items.len() > 0,
        forall|i: int, j: int|
            0 <= i < items.len() && 0 <= j < items[i].len() ==> !text::is_white_space(
                #[trigger] items[i][j],
            ) && items[i][j] != ',',
    ensures
        text::pieces(text::joined(items, mark), Separator::BlankOrComma) == items,
    decreases items.len(),
{
    let sep = Separator::BlankOrComma;
    let head = items[0];
    assert forall|i: int| 0 <= i < head.len() implies !sep.splits(#[trigger] head[i]) by {
        assert(!text::is_white_space(items[0][i]) && items[0][i] != ',');
    }
    if items.len() == 1 {
        text::lemma_uncut(head, sep);
        assert(items =~= seq![head]);
    } else {
        let rest = items.drop_first();
        assert forall|i: int, j: int|
            0 <= i < rest.len() && 0 <= j < rest[i].len() implies !text::is_white_space(
            #[trigger] rest[i][j],
        ) && rest[i][j] != ',' by {
            assert(!text::is_white_space(items[i + 1][j]) && items[i + 1][j] != ',');
        }
        lemma_listed(rest, mark);
        text::lemma_cut(head, mark, text::joined(rest, mark), sep);
        text::lemma_first_cut_bounds(text::joined(items, mark), sep);
        assert(items =~= seq![head] + rest);
    }
}

/// Each setting of a client is read from the variable of its own: the two URLs and the client id,
/// which are needed, and the secret, which is not.
pub proof fn client_is_configured_by_its_own_variables(
    env: EnvConfig,
    result: Result<OidcConfig, EnvError>,
)
    requires
        call_ensures(EnvConfig::oidc_config, (&env,), result),
        result is Ok,
    ensures
        ({
            let said = result->Ok_0@;
            let all = env@.variables;
            let prefix = env@.prefix;
            &&& is_read_from(all, prefix + "OIDC_ISSUER_URL"@, Some(said.issuer_url))
            &&& is_read_from(all, prefix + "OIDC_CLIENT_ID"@, Some(said.client_id))
            &&& is_read_from(all, prefix + "OIDC_REDIRECT_URL"@, Some(said.redirect_url))
            &&& is_read_from(all, prefix + "OIDC_CLIENT_SECRET"@, said.client_secret)
            &&& is_read_from(all, prefix + "OIDC_SCOPES"@, None) ==> said.scopes.contains(
                "openid"@,
            )
            &&& said.use_pkce
        }),
{
    let all = env@.variables;
    let prefix = env@.prefix;
    lemma_read_from(env@, "OIDC_ISSUER_URL"@);
    lemma_read_from(env@, "OIDC_CLIENT_ID"@);
    lemma_read_from(env@, "OIDC_REDIRECT_URL"@);
    lemma_read_from(env@, "OIDC_CLIENT_SECRET"@);
    lemma_read_from(env@, "OIDC_SCOPES"@);
    assert(config::default_scopes()[0] == "openid"@);
}

/// Whether `value` is what a variable holds, when it is set and not blank.
pub open spec fn is_read_from(
    variables: Map<Seq<char>, VariableView>,
    name: Seq<char>,
    value: Option<Seq<char>>,
) -> bool {
    match value {
        Some(value) => variables.contains_key(name) && variables[name] == VariableView::Text(value)
            && !text::is_blank(value),
        None => variables.contains_key(name) ==> (variables[name] matches VariableView::Text(found)
            && text::is_blank(found)),
    }
}

proof fn lemma_read_from(env: EnvView, suffix: Seq<char>)
    ensures
        env.get(suffix) matches Ok(value) ==> is_read_from(
            env.variables,
            env.prefix + suffix,
            value,
        ),
        forall|value: Option<Seq<char>>| #[trigger]
            is_read_from(env.variables, env.prefix + suffix, value) ==> env.get(suffix) == Ok::<
                Option<Seq<char>>,
                EnvErrorView,
            >(value),
{
    let name = env.prefix + suffix;
    if env.variables.contains_key(name) {
        if let VariableView::Text(value) = env.variables[name] {
            text::lemma_blank(value);
        }
    }
}

/// A client is configured wherever the two URLs are URLs, the client id is there, and nothing that
/// is set is malformed; a URL that is none, or something that is missing, is an error that names
/// its variable.
pub proof fn missing_setting_is_named(env: EnvConfig, result: Result<OidcConfig, EnvError>)
    requires
        call_ensures(EnvConfig::oidc_config, (&env,), result),
    ensures
        ({
            let all = env@.variables;
            let prefix = env@.prefix;
            &&& is_read_from(all, prefix + "OIDC_ISSUER_URL"@, None) ==> result is Err
                && result->Err_0@ == (EnvErrorView::Missing {
                name: prefix + "OIDC_ISSUER_URL"@,
            })
            &&& forall|issuer: Seq<char>|
                #![trigger config::issuer_url_fault(issuer)]
                is_read_from(all, prefix + "OIDC_ISSUER_URL"@, Some(issuer)) ==> {
                    &&& is_read_from(all, prefix + "OIDC_CLIENT_ID"@, None) ==> result is Err
                        && result->Err_0@ == (EnvErrorView::Missing {
                        name: prefix + "OIDC_CLIENT_ID"@,
                    })
                    &&& config::issuer_url_fault(issuer) is Some ==> result is Err
                }
            &&& forall|issuer: Seq<char>, client: Seq<char>, redirect: Seq<char>|
                #![trigger config::issuer_url_fault(issuer), is_read_from(
                    all,
                    prefix + "OIDC_CLIENT_ID"@,
                    Some(client),
                ), config::redirect_url_fault(redirect)]
                {
                    &&& is_read_from(all, prefix + "OIDC_ISSUER_URL"@, Some(issuer))
                    &&& is_read_from(all, prefix + "OIDC_CLIENT_ID"@, Some(client))
                    &&& is_read_from(all, prefix + "OIDC_REDIRECT_URL"@, Some(redirect))
                    &&& config::issuer_url_fault(issuer) is None
                    &&& config::redirect_url_fault(redirect) is None
                    &&& is_read_from(all, prefix + "OIDC_CLIENT_SECRET"@, None)
                    &&& is_read_from(all, prefix + "OIDC_SCOPES"@, None)
                    &&& is_read_from(all, prefix + "OIDC_MIN_REFRESH_SECS"@, None)
                } ==> result is Ok
        }),
{
    let all = env@.variables;
    let prefix = env@.prefix;
    lemma_read_from(env@, "OIDC_ISSUER_URL"@);
    lemma_read_from(env@, "OIDC_CLIENT_ID"@);
    lemma_read_from(env@, "OIDC_REDIRECT_URL"@);
    lemma_read_from(env@, "OIDC_CLIENT_SECRET"@);
    lemma_read_from(env@, "OIDC_SCOPES"@);
    lemma_read_from(env@, "OIDC_MIN_REFRESH_SECS"@);
}

/// What a parser is given is the variable's value without the white space around it, and what it
/// makes of it is the result: a malformed value is an error that names the variable, and never the
/// default. The default stands for an unset variable alone.
pub proof fn parser_decides_on_a_set_variable<T, F: FnOnce(&str) -> Result<T, String>>(
    env: EnvConfig,
    suffix: &str,
    parser: F,
    result: Result<Option<T>, EnvError>,
    default: T,
    settled: Result<T, EnvError>,
    lead: Seq<char>,
    core: Seq<char>,
    trail: Seq<char>,
)
    requires
        call_ensures(EnvConfig::parse::<T, F>, (&env, suffix, parser), result),
        call_ensures(EnvConfig::parse_or::<T, F>, (&env, suffix, default, parser), settled),
        text::is_blank(lead) && text::is_blank(trail) && text::is_bare(core) && core.len() > 0,
    ensures
        is_read_from(env@.variables, env@.prefix + suffix@, None) ==> {
            &&& result is Ok && result->Ok_0 is None
            &&& settled is Ok && settled->Ok_0 == default
        },
        is_read_from(env@.variables, env@.prefix + suffix@, Some(lead + core + trail)) ==> {
            &&& exists|raw: &str, parsed: Result<T, String>|
                raw@ == core && #[trigger] parser.ensures((raw,), parsed) && match parsed {
                    Ok(found) => result is Ok && result->Ok_0 == Some(found),
                    Err(report) => result is Err && result->Err_0@ == (EnvErrorView::Invalid {
                        name: env@.prefix + suffix@,
                        detail: report@,
                    }),
                }
            &&& exists|raw: &str, parsed: Result<T, String>|
                raw@ == core && #[trigger] parser.ensures((raw,), parsed) && match parsed {
                    Ok(found) => settled is Ok && settled->Ok_0 == found,
                    Err(_) => settled is Err,
                }
        },
{
    lemma_read_from(env@, suffix@);
    text::lemma_trimmed(lead, core, trail);
}

/// The scopes and the refresh interval of a client are those of their variables, where these are
/// set.
pub proof fn client_takes_its_scopes_and_interval(
    env: EnvConfig,
    result: Result<OidcConfig, EnvError>,
    suffix: &str,
    scopes: Result<Option<Vec<String>>, EnvError>,
    other: &str,
    interval: Result<Option<Duration>, EnvError>,
)
    requires
        call_ensures(EnvConfig::oidc_config, (&env,), result),
        result is Ok,
        suffix@ == "OIDC_SCOPES"@,
        call_ensures(EnvConfig::list, (&env, suffix), scopes),
        other@ == "OIDC_MIN_REFRESH_SECS"@,
        call_ensures(EnvConfig::duration_secs, (&env, other), interval),
    ensures
        scopes is Ok && interval is Ok,
        scopes->Ok_0 matches Some(list) ==> result->Ok_0@.scopes == text::texts(list@),
        interval->Ok_0 matches Some(span) ==> result->Ok_0@.min_refresh_interval == span@,
{
}

/// What is wrong with a variable is told under its name, as the service's own fault.
pub proof fn operator_is_told_the_variable(error: EnvError, message: String, failure: AuthError)
    requires
        call_ensures(EnvError::to_string, (&error,), message),
        call_ensures(<AuthError as From<EnvError>>::from, (error,), failure),
    ensures
        failure@.status() == 500,
        failure@.detail() == message@,
        match error {
            EnvError::Missing { name } => starts_with_name(message@, name@),
            EnvError::NotUnicode { name } => starts_with_name(message@, name@),
            EnvError::Invalid { name, .. } => starts_with_name(message@, name@),
            EnvError::EmptyPrefix => true,
        },
{
    match error {
        EnvError::Missing { name } => {
            assert(message@.subrange(0, name@.len() as int) =~= name@);
        },
        EnvError::NotUnicode { name } => {
            assert(message@.subrange(0, name@.len() as int) =~= name@);
        },
        EnvError::Invalid { name, .. } => {
            assert(message@.subrange(0, name@.len() as int) =~= name@);
        },
        EnvError::EmptyPrefix => {},
    }
}

/// Whether a message starts with a name.
pub open spec fn starts_with_name(message: Seq<char>, name: Seq<char>) -> bool {
    name.len() <= message.len() && message.subrange(0, name.len() as int) == name
}

/// Unset lists and spans are not there, and never an error.
pub proof fn unset_variable_is_not_there(
    env: EnvConfig,
    suffix: &str,
    list: Result<Option<Vec<String>>, EnvError>,
    span: Result<Option<Duration>, EnvError>,
)
    requires
        call_ensures(EnvConfig::list, (&env, suffix), list),
        call_ensures(EnvConfig::duration_secs, (&env, suffix), span),
        is_read_from(env@.variables, env@.prefix + suffix@, None),
    ensures
        list is Ok && list->Ok_0 is None,
        span is Ok && span->Ok_0 is None,
{
    lemma_read_from(env@, suffix@);
}

/// Unless it is told otherwise, the environment is read under `AUTHN_`, and it is empty.
pub proof fn prefix_is_this_by_default(fresh: EnvConfig, env: EnvConfig, name: Seq<char>)
    requires
        call_ensures(EnvConfig::new, (), fresh),
        call_ensures(<EnvConfig as Default>::default, (), env),
    ensures
        fresh@.prefix == "AUTHN_"@ && env@.prefix == "AUTHN_"@,
        !fresh@.variables.contains_key(name) && !env@.variables.contains_key(name),
{
}

/// No item of a list is empty, and none holds a blank or a comma.
pub proof fn list_items_are_single_words(
    env: EnvConfig,
    suffix: &str,
    items: Vec<String>,
    at: int,
)
    requires
        call_ensures(EnvConfig::list, (&env, suffix), Ok(Some(items))),
        0 <= at < items.len(),
    ensures
        items@[at]@.len() > 0,
        !items@[at]@.contains(' ') && !items@[at]@.contains(','),
{
    let found = text::texts(items@);
    assert(found.len() == items.len() && found[at] == items@[at]@);
    let value = env@.get(suffix@)->Ok_0->Some_0;
    let all = text::pieces(value, Separator::BlankOrComma);
    let bare = text::all_trimmed(all);
    assert(found == text::non_empty(bare));
    text::lemma_non_empty_members(bare);
    text::lemma_pieces_hold_no_separator(value, Separator::BlankOrComma);
    assert(bare.contains(found[at]));
    let k = choose|k: int| 0 <= k < bare.len() && bare[k] == found[at];
    let start = text::lemma_trimmed_parts(all[k]);
    assert forall|i: int| 0 <= i < bare[k].len() implies bare[k][i] != ' ' && #[trigger] bare[k][i]
        != ',' by {
        assert(bare[k][i] == all[k][start + i]);
        assert(!Separator::BlankOrComma.splits(all[k][start + i]));
    }
}

/// The items on both sides of a blank or a comma are those of the one side and of the other.
pub proof fn blanks_and_commas_separate_items(
    env: EnvConfig,
    suffix: &str,
    items: Vec<String>,
    one: &str,
    before: Vec<String>,
    two: &str,
    behind: Vec<String>,
    head: Seq<char>,
    mark: char,
    tail: Seq<char>,
)
    requires
        call_ensures(EnvConfig::list, (&env, suffix), Ok(Some(items))),
        call_ensures(EnvConfig::list, (&env, one), Ok(Some(before))),
        call_ensures(EnvConfig::list, (&env, two), Ok(Some(behind))),
        mark == ' ' || mark == ',',
        env@.variables[env@.prefix + suffix@] == VariableView::Text(head.push(mark) + tail),
        env@.variables[env@.prefix + one@] == VariableView::Text(head),
        env@.variables[env@.prefix + two@] == VariableView::Text(tail),
    ensures
        text::texts(items@) == text::texts(before@) + text::texts(behind@),
{
    let fronts = text::pieces(head, Separator::BlankOrComma);
    let backs = text::pieces(tail, Separator::BlankOrComma);
    text::lemma_pieces_of_two(head, mark, tail, Separator::BlankOrComma);
    assert(text::all_trimmed(fronts + backs) =~= text::all_trimmed(fronts) + text::all_trimmed(
        backs,
    ));
    text::lemma_non_empty_of_two(text::all_trimmed(fronts), text::all_trimmed(backs));
}

} // verus!
