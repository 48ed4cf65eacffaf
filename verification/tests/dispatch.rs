//! Credential parsing and gateway dispatch.
use authn_kit::{
    AuthChain, AuthContext, AuthError, AuthGateway, AuthProfile, AuthRequest, AuthScope,
    Authenticator, Credential, GatewayStep, IdentityClaims, ScopeResolver, Verdict,
};
use base64::engine::general_purpose;
use base64::Engine;

#[derive(Clone, Debug, PartialEq, Eq)]
struct User(String);

impl TryFrom<IdentityClaims> for User {
    type Error = String;

    fn try_from(claims: IdentityClaims) -> Result<Self, Self::Error> {
        Ok(Self(
            claims
                .best_effort_username()
                .ok_or("no identity")?
                .to_string(),
        ))
    }
}

#[derive(Clone, Debug, PartialEq, Eq, Hash)]
enum Scope {
    Public,
    Tenant(String),
}

impl AuthScope for Scope {
    fn label(&self) -> String {
        match self {
            Self::Public => "public".to_string(),
            Self::Tenant(id) => format!("tenant_{id}"),
        }
    }

    fn is_public(&self) -> bool {
        matches!(self, Self::Public)
    }
}

struct TestApp;

impl AuthProfile for TestApp {
    type User = User;
    type Scope = Scope;
}

/// A path-derived decision with a header-supplied tenant id.
struct PathScopes;

impl ScopeResolver for PathScopes {
    type Scope = Scope;

    fn resolve(&self, request: &AuthRequest) -> Scope {
        if request.path().starts_with("/health") {
            return Scope::Public;
        }
        Scope::Tenant(request.header("x-org-id").unwrap_or("default").to_string())
    }
}

/// Accepts one `Bearer` credential, declines everything that is no bearer token.
struct BearerOnly;

impl BearerOnly {
    fn authenticate(&self, ctx: &AuthContext<'_, TestApp>) -> Result<Verdict<User>, AuthError> {
        match ctx.credential {
            Credential::Bearer(token) if token.expose_secret() == "good" => {
                Ok(Verdict::Authenticated(User("alice".into())))
            }
            Credential::Bearer(_) => Err(AuthError::invalid_credential("bad token")),
            _ => Ok(Verdict::NotApplicable),
        }
    }
}

impl Authenticator<TestApp> for BearerOnly {
    fn name(&self) -> &'static str {
        "bearer-only"
    }
}

fn basic(payload: &str) -> String {
    format!("Basic {}", general_purpose::STANDARD.encode(payload))
}

fn parse(header: &str) -> Credential {
    Credential::from_authorization_header(header)
}

// ------------------------------------------------------- credential parsing

#[test]
fn parses_bearer() {
    let Credential::Bearer(token) = parse("Bearer abc123") else {
        panic!("expected Bearer");
    };
    assert_eq!(token.expose_secret(), "abc123");
}

/// RFC 9110 section 11.1 defines the auth scheme as case-insensitive.
#[test]
fn scheme_matching_is_case_insensitive() {
    for header in ["Bearer t", "bearer t", "BEARER t", "BeArEr t"] {
        assert!(
            matches!(parse(header), Credential::Bearer(_)),
            "failed for {header:?}"
        );
    }
}

#[test]
fn bearer_parameter_may_contain_spaces() {
    let Credential::Bearer(token) = parse("Bearer a b c") else {
        panic!("expected Bearer");
    };
    assert_eq!(token.expose_secret(), "a b c");
}

#[test]
fn parses_basic() {
    let Credential::Basic { id, secret } = parse(&basic("alice:hunter2")) else {
        panic!("expected Basic");
    };
    assert_eq!(id, "alice");
    assert_eq!(secret.expose_secret(), "hunter2");
}

/// RFC 7617 allows `:` inside the password; the split is on the first one only.
#[test]
fn basic_password_may_contain_colons() {
    let Credential::Basic { id, secret } = parse(&basic("alice:a:b:c")) else {
        panic!("expected Basic");
    };
    assert_eq!(id, "alice");
    assert_eq!(secret.expose_secret(), "a:b:c");
}

#[test]
fn basic_with_unparseable_payload_is_malformed_not_an_error() {
    let cases = [
        ("Basic !!!not-base64!!!", "not valid base64"),
        // base64 of the bytes 0xFF 0xFE, which are not valid UTF-8.
        ("Basic //4=", "not valid UTF-8"),
        (&basic("no-colon-here"), "missing ':' separator"),
    ];

    for (header, expected) in cases {
        let Credential::Malformed { scheme, detail } = parse(header) else {
            panic!("expected Malformed for {header:?}");
        };
        assert_eq!(scheme, "basic");
        assert_eq!(detail, expected, "for {header:?}");
    }
}

#[test]
fn decoded_basic_payloads_are_split_at_the_first_colon() {
    let Credential::Basic { id, secret } =
        Credential::from_basic_payload(Some(b"id:a:b".to_vec()))
    else {
        panic!("expected Basic");
    };
    assert_eq!(id, "id");
    assert_eq!(secret.expose_secret(), "a:b");
    assert!(matches!(
        Credential::from_basic_payload(None),
        Credential::Malformed { detail: "not valid base64", .. }
    ));
}

#[test]
fn unknown_schemes_are_preserved_verbatim() {
    let Credential::Other { scheme, value } = parse("Internal s3cret") else {
        panic!("expected Other");
    };
    assert_eq!(scheme, "internal");
    assert_eq!(value.expose_secret(), "s3cret");
}

#[test]
fn header_without_a_parameter_yields_no_credential() {
    for header in ["Bearer", "", "   "] {
        assert!(parse(header).is_none(), "failed for {header:?}");
    }
}

#[test]
fn absent_authorization_header_yields_no_credential() {
    let request = AuthRequest::builder().path("/x").build();
    assert!(Credential::from_request(&request).is_none());
}

#[test]
fn credential_is_read_from_the_request_case_insensitively() {
    let request = AuthRequest::builder()
        .header("AUTHORIZATION", "Bearer t")
        .build();
    assert!(matches!(
        Credential::from_request(&request),
        Credential::Bearer(_)
    ));
}

// -------------------------------------------------------------- gateway

type Gateway = AuthGateway<TestApp, PathScopes, BearerOnly>;

fn gateway() -> Gateway {
    AuthGateway::new(PathScopes, AuthChain::new().with(BearerOnly))
}

fn settle(
    gateway: &Gateway,
    request: &AuthRequest,
    first: GatewayStep<TestApp>,
) -> Result<Option<User>, AuthError> {
    let mut step = first;
    loop {
        match step {
            GatewayStep::Decided(result) => return result,
            GatewayStep::Consult(pending) => {
                let ctx = AuthContext::new(request, pending.credential(), pending.scope());
                let answer = gateway.authenticator(&pending).unwrap().authenticate(&ctx);
                step = gateway.resume(pending, answer);
            }
        }
    }
}

fn authenticate(request: &AuthRequest) -> Result<Option<User>, AuthError> {
    let gateway = gateway();
    settle(&gateway, request, gateway.authenticate(request))
}

#[test]
fn gateway_returns_the_principal_on_success() {
    let request = AuthRequest::builder()
        .path("/config")
        .header("authorization", "Bearer good")
        .build();

    assert_eq!(authenticate(&request).unwrap(), Some(User("alice".into())));
}

#[test]
fn gateway_returns_no_principal_for_an_anonymous_public_request() {
    let request = AuthRequest::builder().path("/health").build();

    assert_eq!(authenticate(&request).unwrap(), None);
}

#[test]
fn gateway_challenges_an_unclaimed_protected_request() {
    let request = AuthRequest::builder()
        .path("/config")
        .header("authorization", "Internal whatever")
        .build();

    let error = authenticate(&request).unwrap_err();

    assert_eq!(error.status(), 401);
    // The detail names the scheme and scope, so an operator can tell "no
    // authenticator handles this scheme" from "the credential was rejected".
    assert!(error.detail().contains("internal"), "{}", error.detail());
    assert!(
        error.detail().contains("tenant_default"),
        "{}",
        error.detail()
    );
    assert_eq!(
        error.detail(),
        "no authenticator claimed the request (scheme: internal, scope: tenant_default)"
    );
}

#[test]
fn gateway_propagates_a_rejection_unchanged() {
    let request = AuthRequest::builder()
        .path("/config")
        .header("authorization", "Bearer wrong")
        .build();

    let error = authenticate(&request).unwrap_err();

    assert_eq!(error.status(), 401);
    assert_eq!(error.detail(), "bad token");
}

#[test]
fn gateway_resolves_scope_from_the_request() {
    let request = AuthRequest::builder()
        .path("/config")
        .header("x-org-id", "acme")
        .build();

    assert_eq!(gateway().scope_of(&request), Scope::Tenant("acme".into()));
}

#[test]
fn gateway_reports_its_authenticators() {
    assert_eq!(gateway().authenticator_names(), vec!["bearer-only"]);
}

#[test]
fn a_supplied_credential_takes_the_place_of_the_header() {
    let request = AuthRequest::builder().path("/config").build();
    let gateway = gateway();
    let first = gateway.authenticate_with(&request, parse("Bearer good"));
    assert_eq!(
        settle(&gateway, &request, first).unwrap(),
        Some(User("alice".into()))
    );
    let first = gateway.authenticate_with(&request, Credential::Absent);
    assert_eq!(
        settle(&gateway, &request, first).unwrap_err().detail(),
        "no authenticator claimed the request (scheme: none, scope: tenant_default)"
    );
}
