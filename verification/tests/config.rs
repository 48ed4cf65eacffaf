//! The builder and the environment layer.
use authn_kit::env::{EnvConfig, EnvError, Variable};
use authn_kit::scope::NoScope;
use authn_kit::time::Duration;
use authn_kit::{
    AuthError, AuthProfile, AuthRequest, AuthScope, AuthnBuilder, DisabledAuthenticator,
    IdentityClaims, PublicScopePolicy, ScopeResolver, SingleScope,
};

#[derive(Clone, Debug, PartialEq, Eq)]
struct User(String);

impl TryFrom<IdentityClaims> for User {
    type Error = String;

    fn try_from(claims: IdentityClaims) -> Result<Self, Self::Error> {
        Ok(Self(
            claims
                .best_effort_username()
                .ok_or("no identity")?
                .to_string(),
        ))
    }
}

struct TestApp;

impl AuthProfile for TestApp {
    type User = User;
    type Scope = NoScope;
}

#[derive(Clone, Debug, PartialEq, Eq, Hash)]
struct Tenant(String);

impl AuthScope for Tenant {
    fn label(&self) -> String {
        self.0.clone()
    }
}

struct TenantApp;

impl AuthProfile for TenantApp {
    type User = User;
    type Scope = Tenant;
}

struct HeaderScopes;

impl ScopeResolver for HeaderScopes {
    type Scope = Tenant;

    fn resolve(&self, request: &AuthRequest) -> Tenant {
        Tenant(request.header("x-tenant").unwrap_or("default").to_string())
    }
}

type Builder = AuthnBuilder<TestApp, SingleScope, DisabledAuthenticator<TestApp>>;

// ---------------------------------------------------------------- builder

/// A gateway with no authenticators refuses every request on a protected scope.
#[test]
fn an_empty_chain_is_a_construction_error() {
    let error = Builder::new(SingleScope).build().err().unwrap();

    assert_eq!(error.status(), 500);
    assert!(
        error.detail().contains("no authenticators"),
        "{}",
        error.detail()
    );
}

#[test]
fn authenticators_are_reported_in_registration_order() {
    let gateway = Builder::new(SingleScope)
        .with(DisabledAuthenticator::development())
        .with(DisabledAuthenticator::development())
        .build()
        .ok()
        .unwrap();

    assert_eq!(gateway.authenticator_names(), vec!["disabled", "disabled"]);
}

#[test]
fn with_if_skips_a_mechanism_that_is_not_configured() {
    let enabled = Builder::new(SingleScope)
        .with_if(true, DisabledAuthenticator::development())
        .build()
        .ok()
        .unwrap();
    assert_eq!(enabled.authenticator_names().len(), 1);

    let disabled = Builder::new(SingleScope)
        .with_if(false, DisabledAuthenticator::development())
        .public_scope_policy(PublicScopePolicy::AlwaysAnonymous)
        .build();
    // Skipping the only mechanism leaves an empty chain, which is caught.
    assert!(disabled.is_err());
}

#[test]
fn the_scope_resolver_reaches_the_gateway() {
    let gateway = AuthnBuilder::<TenantApp, _, _>::new(HeaderScopes)
        .with(DisabledAuthenticator::development())
        .build()
        .ok()
        .unwrap();

    let request = AuthRequest::builder().header("x-tenant", "acme").build();
    assert_eq!(gateway.scope_of(&request), Tenant("acme".into()));
}

#[test]
fn a_single_tenant_service_has_one_protected_realm() {
    let scope = SingleScope.resolve(&AuthRequest::default());
    assert_eq!(scope, NoScope);
    assert_eq!(scope.label(), "session");
    assert_eq!(scope.session_cookie_name(), "session");
    assert_eq!(scope.cache_discriminator(), None);
    assert!(!scope.is_public());
}

// -------------------------------------------------------------------- env

/// An environment under `prefix` with these variables.
fn environment(prefix: &str, variables: &[(&str, &str)]) -> EnvConfig {
    let mut env = EnvConfig::with_prefix(prefix).unwrap();
    for (suffix, value) in variables {
        env = env.with_variable(
            &format!("{prefix}{suffix}"),
            Variable::Text(value.to_string()),
        );
    }
    env
}

fn number(text: &str) -> Result<u64, String> {
    text.parse::<u64>().map_err(|error| error.to_string())
}

#[test]
fn config_an_empty_prefix_is_rejected() {
    assert!(matches!(
        EnvConfig::with_prefix("").unwrap_err(),
        EnvError::EmptyPrefix
    ));
    assert!(matches!(
        EnvConfig::with_prefix("   ").unwrap_err(),
        EnvError::EmptyPrefix
    ));
}

#[test]
fn a_trailing_separator_is_supplied_when_missing() {
    assert_eq!(EnvConfig::with_prefix("MYAPP").unwrap().prefix(), "MYAPP_");
    assert_eq!(EnvConfig::with_prefix("MYAPP_").unwrap().prefix(), "MYAPP_");
    assert_eq!(EnvConfig::new().prefix(), "AUTHN_");
}

#[test]
fn reads_values_under_a_configurable_prefix() {
    let env = environment("AK_T1_", &[("OIDC_CLIENT_ID", "my-client")]);

    assert_eq!(env.name("OIDC_CLIENT_ID"), "AK_T1_OIDC_CLIENT_ID");
    assert_eq!(
        env.get("OIDC_CLIENT_ID").unwrap().as_deref(),
        Some("my-client")
    );
    assert_eq!(env.get("ABSENT").unwrap(), None);
}

/// A variable set to the empty string means "not configured" in practice.
#[test]
fn an_empty_value_counts_as_unset() {
    let env = environment("AK_T2_", &[("OIDC_CLIENT_ID", "   ")]);

    assert_eq!(env.get("OIDC_CLIENT_ID").unwrap(), None);
    assert!(!env.is_set("OIDC_CLIENT_ID"));
}

#[test]
fn a_missing_required_value_names_the_variable() {
    let env = EnvConfig::with_prefix("AK_T3_").unwrap();
    let error = env.require("OIDC_ISSUER_URL").unwrap_err();

    assert!(matches!(error, EnvError::Missing { .. }));
    assert!(error.to_string().contains("AK_T3_OIDC_ISSUER_URL"));
}

#[test]
fn a_malformed_value_is_an_error_not_a_silent_default() {
    let env = environment("AK_T4_", &[("MAX_CACHE_TTL_SECS", "not-a-number")]);

    let error = env
        .parse_or::<u64, _>("MAX_CACHE_TTL_SECS", 300, number)
        .unwrap_err();
    assert!(matches!(error, EnvError::Invalid { .. }));
    assert!(error.to_string().contains("AK_T4_MAX_CACHE_TTL_SECS"));
}

#[test]
fn parse_or_falls_back_only_when_unset() {
    let env = environment("AK_T5_", &[("MAX_CACHE_TTL_SECS", "60")]);

    assert_eq!(
        env.parse_or::<u64, _>("MAX_CACHE_TTL_SECS", 300, number).unwrap(),
        60
    );
    assert_eq!(env.parse_or::<u64, _>("ABSENT", 300, number).unwrap(), 300);
}

#[test]
fn lists_accept_spaces_or_commas() {
    let env = environment(
        "AK_T6_",
        &[
            ("SPACED", "openid email profile"),
            ("COMMAD", "openid, email ,profile"),
        ],
    );

    let expected = vec!["openid", "email", "profile"];
    assert_eq!(env.list("SPACED").unwrap().unwrap(), expected);
    assert_eq!(env.list("COMMAD").unwrap().unwrap(), expected);
    assert_eq!(env.list("ABSENT").unwrap(), None);
}

#[test]
fn durations_are_read_in_seconds() {
    let env = environment("AK_T7_", &[("TTL_SECS", "45")]);

    assert_eq!(
        env.duration_secs("TTL_SECS").unwrap(),
        Some(Duration::from_secs(45))
    );
}

#[test]
fn durations_are_whole_decimal_numbers() {
    let env = environment(
        "AK_",
        &[
            ("SIGNED", " +007 "),
            ("LARGEST", "18446744073709551615"),
            ("TOO_LARGE", "18446744073709551616"),
            ("NEGATIVE", "-1"),
            ("FRACTION", "1.5"),
        ],
    );
    assert_eq!(
        env.duration_secs("SIGNED").unwrap(),
        Some(Duration::from_secs(7))
    );
    assert_eq!(
        env.duration_secs("LARGEST").unwrap(),
        Some(Duration::from_secs(u64::MAX))
    );
    assert_eq!(env.duration_secs("ABSENT").unwrap(), None);
    for suffix in ["TOO_LARGE", "NEGATIVE", "FRACTION"] {
        assert!(
            matches!(env.duration_secs(suffix), Err(EnvError::Invalid { .. })),
            "accepted {suffix}"
        );
    }
    assert_eq!(
        env.duration_secs("FRACTION").unwrap_err().to_string(),
        "AK_FRACTION could not be parsed: invalid digit found in string"
    );
}

#[test]
fn builds_an_oidc_config_from_the_environment() {
    let env = environment(
        "AK_T8_",
        &[
            ("OIDC_ISSUER_URL", "https://idp.example"),
            ("OIDC_CLIENT_ID", "my-client"),
            ("OIDC_REDIRECT_URL", "https://app.example/callback"),
            ("OIDC_SCOPES", "openid,groups"),
        ],
    );

    let config = env.oidc_config().unwrap();

    assert_eq!(config.issuer_url().as_str(), "https://idp.example");
    let scopes: Vec<&str> = config.scopes().iter().map(|s| s.as_str()).collect();
    assert_eq!(scopes, vec!["openid", "groups"]);
}

/// Secrets belong in a secret manager: `oidc_config` works without the secret variable set, and
/// the caller supplies it afterwards.
#[test]
fn the_client_secret_may_come_from_elsewhere() {
    let env = environment(
        "AK_T9_",
        &[
            ("OIDC_ISSUER_URL", "https://idp.example"),
            ("OIDC_CLIENT_ID", "my-client"),
            ("OIDC_REDIRECT_URL", "https://app.example/callback"),
        ],
    );

    let config = env.oidc_config().unwrap();
    assert_eq!(config.client_secret(), None);
    let config = config.with_client_secret("from-kms");
    assert_eq!(config.issuer_url().as_str(), "https://idp.example");
    assert_eq!(config.client_secret(), Some("from-kms"));
}

#[test]
fn an_oidc_config_reads_the_secret_and_the_interval() {
    let env = environment(
        "AK_",
        &[
            ("OIDC_ISSUER_URL", "https://idp.example"),
            ("OIDC_CLIENT_ID", "my-client"),
            ("OIDC_REDIRECT_URL", "https://app.example/callback"),
            ("OIDC_CLIENT_SECRET", "s3cret"),
            ("OIDC_MIN_REFRESH_SECS", "5"),
        ],
    );
    let config = env.oidc_config().unwrap();
    assert_eq!(config.client_id(), "my-client");
    assert_eq!(config.client_secret(), Some("s3cret"));
    assert_eq!(config.min_refresh_interval(), Duration::from_secs(5));
    assert_eq!(config.scopes().len(), 3);
}

#[test]
fn a_malformed_url_in_the_environment_is_reported() {
    let env = environment(
        "AK_",
        &[
            ("OIDC_ISSUER_URL", "not a url"),
            ("OIDC_CLIENT_ID", "my-client"),
            ("OIDC_REDIRECT_URL", "https://app.example/callback"),
        ],
    );
    let error = env.oidc_config().unwrap_err();
    assert_eq!(
        error.to_string(),
        "AK_OIDC_ISSUER_URL could not be parsed: invalid issuer url: relative URL without a base"
    );
}

#[test]
fn a_malformed_redirect_url_is_reported_under_its_own_name() {
    let env = environment(
        "APP_",
        &[
            ("OIDC_ISSUER_URL", "https://idp.example"),
            ("OIDC_CLIENT_ID", "c"),
            ("OIDC_REDIRECT_URL", "not a url"),
        ],
    );
    assert!(matches!(
        env.oidc_config().unwrap_err(),
        EnvError::Invalid { name, .. } if name == "APP_OIDC_REDIRECT_URL"
    ));
}

#[test]
fn environment_failures_are_internal() {
    let env = EnvConfig::new().with_variable("AUTHN_X", Variable::NotUnicode);
    let error = env.get("X").unwrap_err();
    assert_eq!(error.to_string(), "AUTHN_X is not valid UTF-8");
    let error = AuthError::from(error);
    assert_eq!(error.status(), 500);
    assert_eq!(error.detail(), "AUTHN_X is not valid UTF-8");
    assert!(AuthError::from(EnvError::EmptyPrefix)
        .detail()
        .starts_with("an environment prefix is required"));
}

#[test]
fn a_copied_environment_reads_alike() {
    let env = environment("AK_T9_", &[("NAME", "value")]);
    let copy = env.clone();

    assert_eq!(copy.prefix(), "AK_T9_");
    assert_eq!(copy.get("NAME").unwrap().as_deref(), Some("value"));
    assert_eq!(copy.get("OTHER").unwrap(), None);
}
