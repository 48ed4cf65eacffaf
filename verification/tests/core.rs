//! Principals, the chain, errors, credentials and cookies.
use std::sync::atomic::{AtomicUsize, Ordering};
use std::sync::Arc;

use authn_kit::time::Duration;
use authn_kit::{
    AuthChain, AuthContext, AuthError, AuthProfile, AuthRequest, AuthScope, Authenticator,
    ChainStep, ClaimSource, ClaimValue, CookieDirective, Credential, IdentityClaims, Outcome,
    PublicScopePolicy, SameSite, SecretString, Verdict,
};

#[derive(Clone, Debug, PartialEq, Eq)]
struct User {
    email: String,
    username: String,
}

impl TryFrom<IdentityClaims> for User {
    type Error = String;

    fn try_from(claims: IdentityClaims) -> Result<Self, Self::Error> {
        Ok(Self {
            email: claims.email.clone().ok_or("email claim not found")?,
            username: claims
                .best_effort_username()
                .ok_or("no usable identity claim")?
                .to_string(),
        })
    }
}

#[derive(Clone, Debug, PartialEq, Eq, Hash)]
enum Scope {
    Public,
    Tenant(String),
}

impl AuthScope for Scope {
    fn label(&self) -> String {
        match self {
            Self::Public => "public".to_string(),
            Self::Tenant(id) => format!("tenant_{id}"),
        }
    }

    fn is_public(&self) -> bool {
        matches!(self, Self::Public)
    }

    fn cache_discriminator(&self) -> Option<&str> {
        match self {
            Self::Public => None,
            Self::Tenant(id) => Some(id),
        }
    }
}

struct TestApp;

impl AuthProfile for TestApp {
    type User = User;
    type Scope = Scope;
}

/// An authenticator whose behaviour is scripted, recording whether it ran.
struct Scripted {
    name: &'static str,
    calls: Arc<AtomicUsize>,
    result: fn() -> Result<Verdict<User>, AuthError>,
}

impl Scripted {
    fn new(
        name: &'static str,
        result: fn() -> Result<Verdict<User>, AuthError>,
    ) -> (Self, Arc<AtomicUsize>) {
        let calls = Arc::new(AtomicUsize::new(0));
        (Self { name, calls: calls.clone(), result }, calls)
    }

    fn authenticate(&self, _ctx: &AuthContext<'_, TestApp>) -> Result<Verdict<User>, AuthError> {
        self.calls.fetch_add(1, Ordering::SeqCst);
        (self.result)()
    }
}

impl Authenticator<TestApp> for Scripted {
    fn name(&self) -> &'static str {
        self.name
    }
}

type Chain = AuthChain<TestApp, Scripted>;

fn authenticate(
    chain: &Chain,
    request: &AuthRequest,
    credential: &Credential,
    scope: &Scope,
) -> Result<Outcome<User>, AuthError> {
    let ctx = AuthContext::new(request, credential, scope);
    let mut step = chain.begin(credential, scope);
    loop {
        match step {
            ChainStep::Decided(decision) => return decision,
            ChainStep::Consult(consultation) => {
                let answer = chain.authenticator(&consultation).unwrap().authenticate(&ctx);
                step = chain.resume(consultation, answer);
            }
        }
    }
}

fn alice() -> User {
    User {
        email: "alice@example.com".into(),
        username: "alice".into(),
    }
}

fn bearer() -> Credential {
    Credential::Bearer(SecretString::from("token".to_string()))
}

// ------------------------------------------------------------------ principal

#[test]
fn principal_is_derived_from_try_from() {
    let claims = IdentityClaims::new(ClaimSource::IdToken)
        .with_email("alice@example.com")
        .with_preferred_username("alice");

    assert_eq!(User::try_from(claims).unwrap(), alice());
}

#[test]
fn principal_conversion_reports_missing_claims() {
    let claims = IdentityClaims::new(ClaimSource::ClientCredentials).with_client_id("svc");

    assert_eq!(
        User::try_from(claims).unwrap_err(),
        "email claim not found".to_string()
    );
}

#[test]
fn username_falls_back_across_claims_in_order() {
    let base = IdentityClaims::new(ClaimSource::Introspection);
    assert_eq!(base.best_effort_username(), None);

    let with_client = base.clone().with_client_id("svc");
    assert_eq!(with_client.best_effort_username(), Some("svc"));

    let with_subject = with_client.clone().with_subject("sub-1");
    assert_eq!(with_subject.best_effort_username(), Some("sub-1"));

    let with_email = with_subject.clone().with_email("a@example.com");
    assert_eq!(with_email.best_effort_username(), Some("a@example.com"));

    let with_preferred = with_email.with_preferred_username("alice");
    assert_eq!(with_preferred.best_effort_username(), Some("alice"));
}

#[test]
fn extra_claims_are_reachable_without_being_modelled() {
    let claims = IdentityClaims::new(ClaimSource::IdToken)
        .with_extra("groups", ClaimValue::Json("[\"admin\",\"dev\"]".to_string()))
        .with_scope("openid email profile");

    let Some(ClaimValue::Json(groups)) = claims.extra_claim("groups") else {
        panic!("expected a list");
    };
    assert_eq!(
        serde_json::from_str::<Vec<String>>(groups).unwrap(),
        vec!["admin".to_string(), "dev".to_string()]
    );
    assert!(claims.extra_claim("absent").is_none());
    assert_eq!(claims.scopes(), vec!["openid", "email", "profile"]);
}

#[test]
fn scopes_are_split_at_any_white_space() {
    let claims = IdentityClaims::default().with_scope("  a\tb \u{2003} c\n");
    assert_eq!(claims.scopes(), vec!["a", "b", "c"]);
    assert!(IdentityClaims::default().scopes().is_empty());
    assert_eq!(IdentityClaims::default().source, ClaimSource::IdToken);
}

#[test]
fn setting_a_claim_again_replaces_it() {
    let claims = IdentityClaims::default()
        .with_extra("tier", ClaimValue::Text("free".to_string()))
        .with_extra("tier", ClaimValue::Text("paid".to_string()))
        .with_name("Alice");
    assert!(matches!(claims.extra_claim("tier"), Some(ClaimValue::Text(t)) if t == "paid"));
    let copy = claims.clone();
    assert!(matches!(copy.extra_claim("tier"), Some(ClaimValue::Text(t)) if t == "paid"));
    assert_eq!(copy.name.as_deref(), Some("Alice"));
}

// ------------------------------------------------------------------ chain

#[test]
fn chain_skips_authenticators_that_decline() {
    let (declines, declined_calls) = Scripted::new("declines", || Ok(Verdict::NotApplicable));
    let (accepts, accepted_calls) =
        Scripted::new("accepts", || Ok(Verdict::Authenticated(alice())));

    let chain = Chain::new().with(declines).with(accepts);
    let outcome = authenticate(
        &chain,
        &AuthRequest::default(),
        &bearer(),
        &Scope::Tenant("acme".into()),
    )
    .unwrap();

    assert_eq!(outcome, Outcome::Authenticated(alice()));
    assert_eq!(declined_calls.load(Ordering::SeqCst), 1);
    assert_eq!(accepted_calls.load(Ordering::SeqCst), 1);
}

#[test]
fn chain_stops_at_the_first_authenticator_that_claims_the_request() {
    let (first, _) = Scripted::new("first", || Ok(Verdict::Authenticated(alice())));
    let (second, second_calls) = Scripted::new("second", || Ok(Verdict::NotApplicable));

    let chain = Chain::new().with(first).with(second);
    authenticate(
        &chain,
        &AuthRequest::default(),
        &bearer(),
        &Scope::Tenant("acme".into()),
    )
    .unwrap();

    assert_eq!(second_calls.load(Ordering::SeqCst), 0);
}

#[test]
fn chain_fails_closed_on_error() {
    let (rejects, _) = Scripted::new("rejects", || {
        Err(AuthError::invalid_credential("bad signature"))
    });
    let (fallback, fallback_calls) =
        Scripted::new("fallback", || Ok(Verdict::Authenticated(alice())));

    let chain = Chain::new().with(rejects).with(fallback);
    let error = authenticate(
        &chain,
        &AuthRequest::default(),
        &bearer(),
        &Scope::Tenant("acme".into()),
    )
    .unwrap_err();

    assert_eq!(error.status(), 401);
    assert_eq!(fallback_calls.load(Ordering::SeqCst), 0);
}

#[test]
fn chain_reports_not_applicable_when_nothing_claims_a_protected_request() {
    let (declines, _) = Scripted::new("declines", || Ok(Verdict::NotApplicable));

    let chain = Chain::new().with(declines);
    let outcome = authenticate(
        &chain,
        &AuthRequest::default(),
        &Credential::Absent,
        &Scope::Tenant("acme".into()),
    )
    .unwrap();

    assert_eq!(outcome, Outcome::NotApplicable);
}

#[test]
fn public_scope_without_a_credential_is_anonymous() {
    let (never, never_calls) = Scripted::new("never", || Ok(Verdict::Authenticated(alice())));

    let chain = Chain::new().with(never);
    let outcome = authenticate(
        &chain,
        &AuthRequest::default(),
        &Credential::Absent,
        &Scope::Public,
    )
    .unwrap();

    assert_eq!(outcome, Outcome::Anonymous);
    assert_eq!(never_calls.load(Ordering::SeqCst), 0);
}

#[test]
fn public_scope_with_a_valid_credential_still_authenticates() {
    let (accepts, _) = Scripted::new("accepts", || Ok(Verdict::Authenticated(alice())));

    let chain = Chain::new().with(accepts);
    let outcome =
        authenticate(&chain, &AuthRequest::default(), &bearer(), &Scope::Public).unwrap();

    assert_eq!(outcome, Outcome::Authenticated(alice()));
}

#[test]
fn public_scope_with_an_invalid_credential_fails() {
    let (rejects, _) = Scripted::new("rejects", || Err(AuthError::invalid_credential("bad")));

    let chain = Chain::new().with(rejects);
    let error =
        authenticate(&chain, &AuthRequest::default(), &bearer(), &Scope::Public).unwrap_err();

    assert_eq!(error.status(), 401);
}

#[test]
fn always_anonymous_policy_consults_nobody() {
    let (never, never_calls) =
        Scripted::new("never", || Err(AuthError::invalid_credential("bad")));

    let chain = Chain::new()
        .public_scope_policy(PublicScopePolicy::AlwaysAnonymous)
        .with(never);
    let outcome =
        authenticate(&chain, &AuthRequest::default(), &bearer(), &Scope::Public).unwrap();

    assert_eq!(outcome, Outcome::Anonymous);
    assert_eq!(never_calls.load(Ordering::SeqCst), 0);
}

#[test]
fn empty_chain_declines_rather_than_panicking() {
    let chain = Chain::new();
    assert!(chain.is_empty());

    let outcome = authenticate(
        &chain,
        &AuthRequest::default(),
        &bearer(),
        &Scope::Tenant("acme".into()),
    )
    .unwrap();

    assert_eq!(outcome, Outcome::NotApplicable);
}

#[test]
fn chain_reports_its_authenticators_in_order() {
    let (first, _) = Scripted::new("first", || Ok(Verdict::NotApplicable));
    let (second, _) = Scripted::new("second", || Ok(Verdict::NotApplicable));
    let chain = Chain::default().with(first).with(second);
    assert_eq!(chain.names(), vec!["first", "second"]);
    assert!(!chain.is_empty());
    let ChainStep::Consult(consultation) = chain.begin(&bearer(), &Scope::Public) else {
        panic!("expected a consultation");
    };
    assert_eq!(consultation.index(), 0);
}

// -------------------------------------------------------------------- errors

#[test]
fn error_statuses_distinguish_client_and_service_faults() {
    let cases: Vec<(AuthError, u16, bool)> = vec![
        (AuthError::unauthenticated("no cookie"), 401, false),
        (AuthError::invalid_credential("bad sig"), 401, false),
        (AuthError::malformed_credential("bad base64"), 400, false),
        (AuthError::scope_denied("wrong org"), 403, false),
        (AuthError::unsupported("no password grant"), 501, false),
        (AuthError::upstream("idp timeout"), 503, true),
        (AuthError::internal("missing config"), 500, true),
        (AuthError::redirect("https://idp/auth", vec![]), 302, false),
    ];

    for (error, status, is_fault) in cases {
        assert_eq!(error.status(), status, "{}", error.to_string());
        assert_eq!(error.is_service_fault(), is_fault, "{}", error.to_string());
    }
}

#[test]
fn client_messages_do_not_leak_internal_detail() {
    let error = AuthError::upstream("connect to https://internal-idp.svc:8443 refused");

    assert_eq!(error.client_message(), "Authentication service unavailable");
    assert!(error.detail().contains("internal-idp.svc"));
    assert!(!error.client_message().contains("internal-idp.svc"));
}

#[test]
fn log_lines_carry_a_label_and_the_detail() {
    assert_eq!(
        AuthError::unauthenticated("no cookie").to_string(),
        "unauthenticated: no cookie"
    );
    assert_eq!(
        AuthError::scope_denied("wrong org").to_string(),
        "scope denied: wrong org"
    );
    assert_eq!(
        AuthError::redirect("https://idp/auth", vec![]).to_string(),
        "redirect to https://idp/auth"
    );
    assert_eq!(
        AuthError::redirect("https://idp/auth", vec![]).detail(),
        "https://idp/auth"
    );
}

// ---------------------------------------------------------------- credential

#[test]
fn credential_debug_redacts_secrets_but_keeps_the_public_id() {
    let basic = Credential::Basic {
        id: "client-42".into(),
        secret: SecretString::from("hunter2".to_string()),
    };

    let rendered = format!("{basic:?}");
    assert!(rendered.contains("client-42"));
    assert!(!rendered.contains("hunter2"));
    assert!(!format!("{:?}", bearer()).contains("token"));
}

#[test]
fn redacted_credentials_are_rendered_for_logs() {
    let basic = Credential::Basic {
        id: "client \"42\"".into(),
        secret: SecretString::from("hunter2".to_string()),
    };
    assert_eq!(
        basic.redacted(),
        "Basic { id: \"client \\\"42\\\"\", secret: <redacted> }"
    );
    assert_eq!(bearer().redacted(), "Bearer(<redacted>)");
    assert_eq!(Credential::Absent.redacted(), "None");
    let other = Credential::Other {
        scheme: "internal".into(),
        value: SecretString::from("t".to_string()),
    };
    assert_eq!(
        other.clone().redacted(),
        "Other { scheme: \"internal\", value: <redacted> }"
    );
    let malformed = Credential::Malformed {
        scheme: "basic".into(),
        detail: "not valid UTF-8",
    };
    assert_eq!(
        malformed.redacted(),
        "Malformed { scheme: \"basic\", detail: \"not valid UTF-8\" }"
    );
}

#[test]
fn credential_reports_its_scheme() {
    assert_eq!(bearer().scheme(), Some("bearer"));
    assert_eq!(Credential::Absent.scheme(), None);
    assert!(Credential::Absent.is_none());

    let internal = Credential::Other {
        scheme: "internal".into(),
        value: SecretString::from("t".to_string()),
    };
    assert_eq!(internal.scheme(), Some("internal"));
}

// ============================================================ exhaustive chain
//
// A chain branches on four independent inputs, giving a decision space of
// 2 x 2 x 2 x 3 = 24 cases, which the table below enumerates: every row states
// the outcome and whether the chain was allowed to consult the authenticator.

#[derive(Clone, Copy, Debug, PartialEq, Eq)]
enum Script {
    Authenticate,
    Decline,
    Fail,
}

#[derive(Clone, Copy, Debug, PartialEq, Eq)]
enum Expect {
    Authenticated,
    Anonymous,
    NotApplicable,
    Failed,
}

fn programmed(script: Script) -> (Scripted, Arc<AtomicUsize>) {
    Scripted::new(
        "programmed",
        match script {
            Script::Authenticate => || Ok(Verdict::Authenticated(alice())),
            Script::Decline => || Ok(Verdict::NotApplicable),
            Script::Fail => || Err(AuthError::invalid_credential("scripted failure")),
        },
    )
}

fn run_case(
    public: bool,
    policy: PublicScopePolicy,
    credential: Credential,
    script: Script,
) -> (Expect, usize) {
    let (authenticator, calls) = programmed(script);
    let chain = Chain::new().public_scope_policy(policy).with(authenticator);

    let scope = if public {
        Scope::Public
    } else {
        Scope::Tenant("acme".into())
    };
    let expect = match authenticate(&chain, &AuthRequest::default(), &credential, &scope) {
        Ok(Outcome::Authenticated(_)) => Expect::Authenticated,
        Ok(Outcome::Anonymous) => Expect::Anonymous,
        Ok(Outcome::NotApplicable) => Expect::NotApplicable,
        Err(_) => Expect::Failed,
    };
    (expect, calls.load(Ordering::SeqCst))
}

type E = Expect;
type P = PublicScopePolicy;
type S = Script;

#[test]
fn chain_decision_table_is_exhaustive() {
    // (public, policy, credential_present, script) => (outcome, times consulted)
    let table = [
        // -- protected scope: the policy and credential guards do not apply -----
        (false, P::Optional, false, S::Authenticate, E::Authenticated, 1),
        (false, P::Optional, false, S::Decline, E::NotApplicable, 1),
        (false, P::Optional, false, S::Fail, E::Failed, 1),
        (false, P::Optional, true, S::Authenticate, E::Authenticated, 1),
        (false, P::Optional, true, S::Decline, E::NotApplicable, 1),
        (false, P::Optional, true, S::Fail, E::Failed, 1),
        (false, P::AlwaysAnonymous, false, S::Authenticate, E::Authenticated, 1),
        (false, P::AlwaysAnonymous, false, S::Decline, E::NotApplicable, 1),
        (false, P::AlwaysAnonymous, false, S::Fail, E::Failed, 1),
        (false, P::AlwaysAnonymous, true, S::Authenticate, E::Authenticated, 1),
        (false, P::AlwaysAnonymous, true, S::Decline, E::NotApplicable, 1),
        (false, P::AlwaysAnonymous, true, S::Fail, E::Failed, 1),
        // -- public + AlwaysAnonymous: short-circuits, never consults -----------
        (true, P::AlwaysAnonymous, false, S::Authenticate, E::Anonymous, 0),
        (true, P::AlwaysAnonymous, false, S::Decline, E::Anonymous, 0),
        (true, P::AlwaysAnonymous, false, S::Fail, E::Anonymous, 0),
        (true, P::AlwaysAnonymous, true, S::Authenticate, E::Anonymous, 0),
        (true, P::AlwaysAnonymous, true, S::Decline, E::Anonymous, 0),
        (true, P::AlwaysAnonymous, true, S::Fail, E::Anonymous, 0),
        // -- public + P::Optional, no credential: nothing to check -----------------
        (true, P::Optional, false, S::Authenticate, E::Anonymous, 0),
        (true, P::Optional, false, S::Decline, E::Anonymous, 0),
        (true, P::Optional, false, S::Fail, E::Anonymous, 0),
        // -- public + P::Optional, credential offered: validate it -----------------
        (true, P::Optional, true, S::Authenticate, E::Authenticated, 1),
        (true, P::Optional, true, S::Decline, E::Anonymous, 1),
        (true, P::Optional, true, S::Fail, E::Failed, 1),
    ];

    assert_eq!(table.len(), 24, "decision space must be covered exhaustively");

    for (public, policy, has_credential, script, expected, expected_calls) in table {
        let credential = if has_credential {
            bearer()
        } else {
            Credential::Absent
        };
        let (outcome, calls) = run_case(public, policy, credential, script);

        let case = format!(
            "public={public} policy={policy:?} credential={has_credential} script={script:?}"
        );
        assert_eq!(outcome, expected, "outcome for {case}");
        assert_eq!(calls, expected_calls, "consultations for {case}");
    }
}

/// The chain never invents an identity.
#[test]
fn chain_never_fabricates_a_principal() {
    for script in [Script::Decline, Script::Fail] {
        for public in [true, false] {
            for has_credential in [true, false] {
                let credential = if has_credential {
                    bearer()
                } else {
                    Credential::Absent
                };
                let (outcome, _) =
                    run_case(public, PublicScopePolicy::Optional, credential, script);
                assert_ne!(
                    outcome,
                    Expect::Authenticated,
                    "script={script:?} public={public} credential={has_credential}"
                );
            }
        }
    }
}

/// A failing authenticator is terminal, whatever follows it in the chain.
#[test]
fn chain_error_is_terminal_regardless_of_position() {
    for trailing in [Script::Authenticate, Script::Decline] {
        let (fails, _) = programmed(Script::Fail);
        let (last, after) = programmed(trailing);
        let chain = Chain::new().with(fails).with(last);

        let result = authenticate(
            &chain,
            &AuthRequest::default(),
            &bearer(),
            &Scope::Tenant("acme".into()),
        );

        assert!(result.is_err(), "trailing={trailing:?}");
        assert_eq!(after.load(Ordering::SeqCst), 0, "trailing={trailing:?}");
    }
}

/// Nothing after the deciding authenticator is consulted.
#[test]
fn chain_consults_nobody_after_a_decision() {
    let (first, _) = programmed(Script::Authenticate);
    let (second, after) = programmed(Script::Authenticate);
    let chain = Chain::new().with(first).with(second);

    authenticate(
        &chain,
        &AuthRequest::default(),
        &bearer(),
        &Scope::Tenant("acme".into()),
    )
    .unwrap();

    assert_eq!(after.load(Ordering::SeqCst), 0);
}

/// A protected scope never resolves to an anonymous request.
#[test]
fn protected_scope_never_resolves_to_anonymous() {
    for policy in [
        PublicScopePolicy::Optional,
        PublicScopePolicy::AlwaysAnonymous,
    ] {
        for has_credential in [true, false] {
            for script in [Script::Authenticate, Script::Decline, Script::Fail] {
                let credential = if has_credential {
                    bearer()
                } else {
                    Credential::Absent
                };
                let (outcome, _) = run_case(false, policy, credential, script);

                assert_ne!(
                    outcome,
                    Expect::Anonymous,
                    "policy={policy:?} credential={has_credential} script={script:?}"
                );
            }
        }
    }
}

// ------------------------------------------------------------------ outcomes

#[test]
fn outcomes_and_verdicts_are_taken_apart() {
    let verdict: Verdict<u8> = Verdict::Authenticated(3);
    assert!(verdict.is_applicable());
    assert_eq!(Verdict::Authenticated(3).map(|n: u8| n + 1).principal(), Some(4));
    assert_eq!(Verdict::<u8>::NotApplicable.principal(), None);
    assert_eq!(Outcome::from(Verdict::Authenticated(3)), Outcome::Authenticated(3));
    assert_eq!(Outcome::<u8>::from(Verdict::NotApplicable), Outcome::NotApplicable);
    assert!(Outcome::<u8>::Anonymous.is_applicable());
    assert!(!Outcome::<u8>::NotApplicable.is_applicable());
    assert_eq!(Outcome::Authenticated(3).map(|n: u8| n * 2).principal(), Some(6));
    assert_eq!(Outcome::<u8>::Anonymous.principal(), None);
}

// --------------------------------------------------------------- cookies

/// These are RFC 6265bis wire values, not Rust identifiers.
#[test]
fn same_site_renders_the_rfc_attribute_values() {
    assert_eq!(SameSite::Strict.to_string(), "Strict");
    assert_eq!(SameSite::Lax.to_string(), "Lax");
    assert_eq!(SameSite::Unrestricted.to_string(), "None");
}

#[test]
fn cookie_defaults_to_the_conservative_posture() {
    assert_eq!(
        CookieDirective::set("session", "abc").to_string(),
        "session=abc; HttpOnly; Secure; SameSite=Lax"
    );
}

#[test]
fn cookie_renders_every_attribute_in_order() {
    let cookie = CookieDirective::set("session", "abc")
        .with_path("/app")
        .with_domain("example.com")
        .with_max_age(Duration::from_secs(600))
        .with_same_site(Some(SameSite::Strict));

    assert_eq!(
        cookie.to_string(),
        "session=abc; Path=/app; Domain=example.com; Max-Age=600; HttpOnly; Secure; SameSite=Strict"
    );
}

#[test]
fn cookie_attributes_can_be_relaxed() {
    let cookie = CookieDirective::set("session", "abc")
        .with_http_only(false)
        .with_secure(false)
        .with_same_site(None);

    assert_eq!(cookie.to_string(), "session=abc");
}

#[test]
fn cleared_cookie_expires_immediately() {
    assert_eq!(
        CookieDirective::clear("session").to_string(),
        "session=; Max-Age=0; HttpOnly; Secure; SameSite=Lax"
    );
}

#[test]
fn cookie_age_is_rendered_in_whole_seconds() {
    let cookie = CookieDirective::set("s", "v")
        .with_max_age(Duration::new(59, 999_999_999))
        .with_domain_opt(None);
    assert_eq!(
        cookie.clone().to_string(),
        "s=v; Max-Age=59; HttpOnly; Secure; SameSite=Lax"
    );
}

#[test]
fn copies_conclude_alike() {
    assert_eq!(Verdict::Authenticated(7).clone(), Verdict::Authenticated(7));
    assert_eq!(Verdict::<u8>::NotApplicable.clone(), Verdict::NotApplicable);
    assert_eq!(Outcome::Authenticated(7).clone(), Outcome::Authenticated(7));
    assert_eq!(Outcome::<u8>::Anonymous.clone(), Outcome::Anonymous);
    assert_eq!(Outcome::<u8>::NotApplicable.clone(), Outcome::NotApplicable);
}
