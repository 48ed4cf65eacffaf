//! RFC 7662 introspection, and its interaction with static tokens.
use authn_kit::mechanisms::api_token::{StaticTokenSpec, TokenStep, TokenValidator};
use authn_kit::mechanisms::introspection::{claims_from_response, IntrospectionReply};
use authn_kit::mechanisms::IntrospectionValidator;
use authn_kit::time::{Duration, SystemTime};
use authn_kit::{
    ApiTokenAuthenticator, AuthContext, AuthError, AuthProfile, AuthRequest, AuthScope, CacheConfig,
    ClaimSource, ClaimValue, Credential, IdentityClaims, SecretString, Verdict,
};

#[derive(Clone, Debug, PartialEq, Eq)]
struct User {
    email: String,
    username: String,
}

impl TryFrom<IdentityClaims> for User {
    type Error = String;

    fn try_from(claims: IdentityClaims) -> Result<Self, Self::Error> {
        let username = claims
            .best_effort_username()
            .ok_or("no identity")?
            .to_string();
        Ok(Self {
            email: claims.email.clone().unwrap_or_else(|| username.clone()),
            username,
        })
    }
}

#[derive(Clone, Debug, PartialEq, Eq, Hash)]
struct Scope;

impl AuthScope for Scope {
    fn label(&self) -> String {
        "global".to_string()
    }
}

struct TestApp;

impl AuthProfile for TestApp {
    type User = User;
    type Scope = Scope;
}

const ACTIVE: &str = r#"{
    "active": true,
    "sub": "svc-1",
    "username": "reporting-service",
    "email": "reporting@example.com",
    "scope": "config:read config:write",
    "client_id": "reporting",
    "exp": 4102444800,
    "custom_tenant": "acme"
}"#;

/// An endpoint that gives one answer and records what it is asked.
struct Endpoint {
    status: u16,
    body: &'static str,
    keys: Vec<String>,
}

impl Endpoint {
    fn new(status: u16, body: &'static str) -> Self {
        Self { status, body, keys: Vec::new() }
    }

    fn validate(&mut self, key: &str) -> Result<IdentityClaims, AuthError> {
        let validator = validator();
        let request = validator.request(key);
        self.keys.push(request.form[0].1.expose_secret().to_string());
        validator.interpret(IntrospectionReply::Answered {
            status: self.status,
            body: Ok(self.body.as_bytes().to_vec()),
        })
    }
}

fn validator() -> IntrospectionValidator {
    IntrospectionValidator::new("https://idp.example/introspect", "Bearer endpoint-credential")
}

type ApiTokens = ApiTokenAuthenticator<TestApp, IntrospectionValidator>;

fn static_tokens() -> ApiTokens {
    ApiTokens::new(
        "sptok_",
        vec![StaticTokenSpec {
            token: "local-secret".to_string(),
            principal: "svc-local".to_string(),
            email: None,
            scopes: None,
        }],
    )
    .ok()
    .unwrap()
}

fn authenticator() -> ApiTokens {
    static_tokens().with_fallback(validator())
}

fn run(
    auth: &mut ApiTokens,
    endpoint: &mut Endpoint,
    token: &str,
) -> Result<Verdict<User>, AuthError> {
    let request = AuthRequest::default();
    let credential = Credential::Bearer(SecretString::from(token.to_string()));
    let ctx = AuthContext::new(&request, &credential, &Scope);
    let now = Duration::from_secs(1_000);
    match auth.begin(&ctx, now) {
        TokenStep::Answered(answer) => answer,
        TokenStep::Validate(pending) => {
            assert_eq!(pending.scope(), None);
            let reply = endpoint.validate(pending.api_key());
            let wall = SystemTime::after_epoch(Duration::from_secs(1_700_000_000));
            auth.finish(pending, reply, wall, now)
        }
    }
}

// ------------------------------------------------------------ claim mapping

#[test]
fn maps_an_active_response_onto_identity_claims() {
    let claims = Endpoint::new(200, ACTIVE).validate("key").unwrap();

    assert_eq!(claims.source, ClaimSource::Introspection);
    assert_eq!(claims.subject.as_deref(), Some("svc-1"));
    assert_eq!(
        claims.preferred_username.as_deref(),
        Some("reporting-service")
    );
    assert_eq!(claims.email.as_deref(), Some("reporting@example.com"));
    assert_eq!(claims.client_id.as_deref(), Some("reporting"));
    assert_eq!(claims.scopes(), vec!["config:read", "config:write"]);
    assert_eq!(
        claims.expires_at,
        Some(SystemTime::after_epoch(Duration::from_secs(4_102_444_800)))
    );
}

#[test]
fn preserves_non_standard_response_claims() {
    let claims = Endpoint::new(200, ACTIVE).validate("key").unwrap();

    assert!(matches!(
        claims.extra_claim("custom_tenant"),
        Some(ClaimValue::Text(tenant)) if tenant == "acme"
    ));
    assert!(matches!(
        claims.extra_claim("exp"),
        Some(ClaimValue::Number { text, unsigned: Some(4_102_444_800) }) if text == "4102444800"
    ));
    assert!(matches!(claims.extra_claim("active"), Some(ClaimValue::Bool(true))));
}

#[test]
fn members_of_every_shape_are_read() {
    let endpoint = r#"{"active":true,"sub":"s","n":null,"f":1.5,"neg":-3,"list":[1,"x"],"o":{"k":true}}"#;
    let claims = Endpoint::new(200, endpoint).validate("key").unwrap();
    assert!(matches!(claims.extra_claim("n"), Some(ClaimValue::Null)));
    assert!(matches!(
        claims.extra_claim("f"),
        Some(ClaimValue::Number { text, unsigned: None }) if text == "1.5"
    ));
    assert!(matches!(
        claims.extra_claim("neg"),
        Some(ClaimValue::Number { text, unsigned: None }) if text == "-3"
    ));
    assert!(matches!(claims.extra_claim("list"), Some(ClaimValue::Json(t)) if t == "[1,\"x\"]"));
    assert!(matches!(claims.extra_claim("o"), Some(ClaimValue::Json(t)) if t == "{\"k\":true}"));
}

#[test]
fn a_document_that_is_no_object_is_the_endpoints_fault() {
    let error = claims_from_response(None).unwrap_err();
    assert_eq!(error.detail(), "introspection response was not a JSON object");
}

// ------------------------------------------------------------ request shape

#[test]
fn presents_the_configured_authorization_header_verbatim() {
    let request = validator().request("the-api-key");

    // Verbatim, not re-derived: the endpoint may expect any scheme.
    assert_eq!(
        request.authorization.expose_secret(),
        "Bearer endpoint-credential"
    );
    assert_eq!(request.endpoint, "https://idp.example/introspect");
    assert_eq!(validator().endpoint(), "https://idp.example/introspect");
    assert_eq!(request.form.len(), 1);
    assert_eq!(request.form[0].0, "token");
    assert_eq!(request.form[0].1.expose_secret(), "the-api-key");
}

// -------------------------------------------------------------- failures

#[test]
fn an_inactive_token_is_the_clients_problem() {
    let error = Endpoint::new(200, r#"{"active": false}"#)
        .validate("key")
        .unwrap_err();

    assert_eq!(error.status(), 401);
    assert!(!error.is_service_fault());
}

/// "The token could not be checked" must be distinguishable from "the token is bad", so a client
/// knows whether retrying is worthwhile.
#[test]
fn endpoint_failures_are_service_faults() {
    let cases = [
        (500, ACTIVE, "upstream error"),
        (200, "not json at all", "unparseable body"),
        (
            200,
            r#"{"sub": "x"}"#,
            "missing the required `active` member",
        ),
        (200, r#"{"active": true}"#, "active but no identity claim"),
        (200, r#"["not", "an", "object"]"#, "not an object"),
    ];

    for (status, body, why) in cases {
        let error = Endpoint::new(status, body).validate("key").unwrap_err();

        assert_eq!(error.status(), 503, "for {why}");
        assert!(error.is_service_fault(), "for {why}");
    }
}

#[test]
fn endpoint_failures_are_described() {
    let detail = |reply| validator().interpret(reply).unwrap_err().detail().to_string();
    assert_eq!(
        detail(IntrospectionReply::Failed("timed out".to_string())),
        "introspection request failed: timed out"
    );
    assert_eq!(
        detail(IntrospectionReply::Answered { status: 404, body: Ok(Vec::new()) }),
        "introspection endpoint returned status 404 Not Found"
    );
    assert_eq!(
        detail(IntrospectionReply::Answered { status: 200, body: Err("cut off".to_string()) }),
        "could not parse introspection response: cut off"
    );
    assert_eq!(
        detail(IntrospectionReply::Answered { status: 204, body: Ok(b"{".to_vec()) }),
        "could not parse introspection response: error decoding response body"
    );
}

// ------------------------------------------------------- combined with static

/// Static tokens are checked first and locally, so a static hit never touches the network.
#[test]
fn a_static_token_short_circuits_introspection() {
    let mut endpoint = Endpoint::new(200, ACTIVE);
    let mut auth = authenticator();

    let verdict = run(&mut auth, &mut endpoint, "sptok_local-secret").unwrap();

    assert_eq!(
        verdict,
        Verdict::Authenticated(User {
            email: "svc-local".into(),
            username: "svc-local".into()
        })
    );
    assert_eq!(
        endpoint.keys.len(),
        0,
        "introspection should not have been called"
    );
}

#[test]
fn an_unknown_key_falls_through_to_introspection() {
    let mut endpoint = Endpoint::new(200, ACTIVE);
    let mut auth = authenticator();

    let verdict = run(&mut auth, &mut endpoint, "sptok_remote-secret").unwrap();

    assert_eq!(
        verdict,
        Verdict::Authenticated(User {
            email: "reporting@example.com".into(),
            username: "reporting-service".into()
        })
    );
    // The prefix is stripped before the key reaches the endpoint.
    assert_eq!(endpoint.keys, vec!["remote-secret"]);
}

#[test]
fn without_a_fallback_an_unknown_key_is_rejected() {
    let mut endpoint = Endpoint::new(200, ACTIVE);
    let mut auth = static_tokens();

    let error = run(&mut auth, &mut endpoint, "sptok_unknown").unwrap_err();
    assert_eq!(error.status(), 401);
}

#[test]
fn a_bearer_token_without_the_prefix_is_never_introspected() {
    let mut endpoint = Endpoint::new(200, ACTIVE);
    let mut auth = authenticator();

    let verdict = run(&mut auth, &mut endpoint, "header.payload.signature").unwrap();

    assert_eq!(verdict, Verdict::NotApplicable);
    assert_eq!(endpoint.keys.len(), 0);
}

// ---------------------------------------------------------------- caching

#[test]
fn introspection_results_are_cached() {
    let mut endpoint = Endpoint::new(200, ACTIVE);
    let mut auth = authenticator();

    for _ in 0..3 {
        assert!(matches!(
            run(&mut auth, &mut endpoint, "sptok_remote-secret"),
            Ok(Verdict::Authenticated(_))
        ));
    }

    assert_eq!(
        endpoint.keys.len(),
        1,
        "the endpoint was called more than once"
    );
}

#[test]
fn distinct_keys_are_cached_separately() {
    let mut endpoint = Endpoint::new(200, ACTIVE);
    let mut auth = authenticator();

    run(&mut auth, &mut endpoint, "sptok_key-one").unwrap();
    run(&mut auth, &mut endpoint, "sptok_key-two").unwrap();

    assert_eq!(endpoint.keys.len(), 2);
}

/// The response's `exp` is in 2100, but revocation is the point of introspection, so caching is
/// capped regardless of how long-lived the token claims to be.
#[test]
fn caching_is_capped_below_a_distant_token_expiry() {
    let mut endpoint = Endpoint::new(200, ACTIVE);
    let mut auth = authenticator()
        // Shorter than the safety margin, so the entry is never cached at all, which is the
        // observable end of "the cap is applied, not the `exp`".
        .with_max_cache_ttl(Duration::from_secs(5))
        .with_cache_config(CacheConfig {
            refresh_margin: Duration::from_secs(30),
            ..CacheConfig::default()
        });

    run(&mut auth, &mut endpoint, "sptok_remote-secret").unwrap();
    run(&mut auth, &mut endpoint, "sptok_remote-secret").unwrap();

    assert_eq!(
        endpoint.keys.len(),
        2,
        "the distant `exp` was used instead of the cap"
    );
}

/// The cap holds whatever expiry is reported: none, one that has passed, or a distant one.
#[test]
fn the_cap_holds_for_every_reported_expiry() {
    const NO_EXPIRY: &str = r#"{"active": true, "sub": "s", "email": "s@x", "username": "s"}"#;
    const PAST: &str =
        r#"{"active": true, "sub": "s", "email": "s@x", "username": "s", "exp": 1600000000}"#;
    let wall = SystemTime::after_epoch(Duration::from_secs(1_700_000_000));
    let request = AuthRequest::default();
    let credential = Credential::Bearer(SecretString::from("sptok_remote".to_string()));
    let ctx = AuthContext::new(&request, &credential, &Scope);

    for (body, cap, served_until) in [
        // The fallback of 60 seconds keeps to the cap.
        (NO_EXPIRY, 90, 60),
        (PAST, 90, 60),
        // The cap is shorter, and the margin comes off it.
        (NO_EXPIRY, 50, 40),
        (PAST, 50, 40),
        (ACTIVE, 50, 40),
    ] {
        let mut endpoint = Endpoint::new(200, body);
        let mut auth = authenticator()
            .with_max_cache_ttl(Duration::from_secs(cap))
            .with_cache_config(CacheConfig {
                refresh_margin: Duration::from_secs(10),
                ..CacheConfig::default()
            });
        let TokenStep::Validate(pending) = auth.begin(&ctx, Duration::from_secs(1_000)) else {
            panic!("expected a validation");
        };
        let reply = endpoint.validate(pending.api_key());
        auth.finish(pending, reply, wall, Duration::from_secs(1_000)).unwrap();

        let last = Duration::new(1_000 + served_until - 1, 999_999_999);
        assert!(matches!(auth.begin(&ctx, last), TokenStep::Answered(Ok(_))));
        for later in [served_until, cap] {
            assert!(matches!(
                auth.begin(&ctx, Duration::from_secs(1_000 + later)),
                TokenStep::Validate(_)
            ));
        }
    }
}

#[test]
fn rejected_keys_are_not_cached() {
    let mut endpoint = Endpoint::new(200, r#"{"active": false}"#);
    let mut auth = authenticator();
    for _ in 0..2 {
        assert_eq!(
            run(&mut auth, &mut endpoint, "sptok_revoked").unwrap_err().status(),
            401
        );
    }
    assert_eq!(endpoint.keys.len(), 2);
    assert_eq!(validator().name(), "introspection");
}
