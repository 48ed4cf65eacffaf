//! The login flow and the authenticators behind an OpenID Provider, with the provider's part
//! played by the tests.
use std::sync::Arc;

use authn_kit::mechanisms::basic::{BasicStep, Grant, GRANT_TYPE_HEADER};
use authn_kit::mechanisms::bearer::BearerStep;
use authn_kit::mechanisms::session::SessionStep;
use authn_kit::mechanisms::{BasicAuthenticator, BearerAuthenticator, SessionAuthenticator};
use authn_kit::oidc::claims::IdTokenClaims;
use authn_kit::oidc::error::{TokenErrorCode, TokenExchangeError};
use authn_kit::oidc::login::AuthUrl;
use authn_kit::oidc::provider::VerificationStep;
use authn_kit::oidc::{
    CallbackParams, IdTokenCodec, LoginFlow, NonceCheck, OidcConfig, OidcProvider, ProtectionData,
};
use authn_kit::time::Duration;
use authn_kit::{
    AuthContext, AuthError, AuthProfile, AuthRequest, AuthScope, Authenticator, ClaimSource,
    CookieDirective, Credential, IdentityClaims, SecretString, Verdict,
};
use base64::engine::general_purpose::URL_SAFE_NO_PAD;
use base64::Engine;
use openidconnect::{ClaimsVerificationError, SignatureVerificationError};

#[derive(Clone, Debug, PartialEq, Eq)]
struct User {
    email: String,
    username: String,
}

impl TryFrom<IdentityClaims> for User {
    type Error = String;

    fn try_from(claims: IdentityClaims) -> Result<Self, Self::Error> {
        // A machine grant carries no human identity, so the principal is named after the
        // validated client.
        if claims.source == ClaimSource::ClientCredentials {
            let client = claims
                .client_id
                .clone()
                .ok_or("client_id claim not found")?;
            return Ok(Self {
                email: format!("{client}@service.local"),
                username: format!("service-account-{client}"),
            });
        }

        Ok(Self {
            email: claims.email.clone().ok_or("email claim not found")?,
            username: claims
                .best_effort_username()
                .ok_or("no identity")?
                .to_string(),
        })
    }
}

#[derive(Clone, Debug, PartialEq, Eq, Hash)]
struct Scope;

impl AuthScope for Scope {
    fn label(&self) -> String {
        "session".to_string()
    }
}

struct TestApp;

impl AuthProfile for TestApp {
    type User = User;
    type Scope = Scope;
}

const ISSUER: &str = "https://idp.example";

fn config() -> OidcConfig {
    OidcConfig::new(ISSUER, "test-client", "https://app.example/callback")
        .unwrap()
        .with_client_secret("test-secret")
}

fn endpoint() -> AuthUrl {
    AuthUrl::new("https://idp.example/authorize").unwrap()
}

fn flow() -> LoginFlow<IdTokenCodec> {
    LoginFlow::new(config())
}

fn alice() -> User {
    User {
        email: "alice@example.com".into(),
        username: "alice".into(),
    }
}

fn alice_claims() -> IdentityClaims {
    IdentityClaims::new(ClaimSource::IdToken)
        .with_subject("alice")
        .with_email("alice@example.com")
        .with_preferred_username("alice")
}

/// A compact JWS in which everything but the signature is in order.
fn id_token() -> String {
    let header = URL_SAFE_NO_PAD.encode(r#"{"alg":"RS256","kid":"k1"}"#);
    let payload = URL_SAFE_NO_PAD.encode(
        r#"{"iss":"https://idp.example","aud":["test-client"],"exp":1800000000,"iat":1799996400,"sub":"alice"}"#,
    );
    format!("{header}.{payload}.c2ln")
}

fn token_claims() -> IdTokenClaims {
    IdTokenClaims {
        subject: "alice".to_string(),
        expiration: 1_800_000_000,
        email: Some("alice@example.com".to_string()),
        preferred_username: Some("alice".to_string()),
        name: None,
        members: None,
    }
}

fn no_matching_key() -> ClaimsVerificationError {
    ClaimsVerificationError::SignatureVerification(SignatureVerificationError::NoMatchingKey)
}

// ------------------------------------------------------------- verification

#[test]
fn a_verified_token_is_accepted() {
    let provider = OidcProvider::new(config());
    let VerificationStep::Verify(pending) =
        provider.verify_id_token(&id_token(), NonceCheck::Present)
    else {
        panic!("expected a verification");
    };
    assert_eq!(pending.token(), id_token());
    assert!(matches!(pending.nonce(), NonceCheck::Present));
    let VerificationStep::Decided(Ok(claims)) = provider.verified(pending, Ok(token_claims()))
    else {
        panic!("expected acceptance");
    };
    assert_eq!(User::try_from(claims).unwrap(), alice());
}

#[test]
fn a_text_that_is_no_id_token_is_rejected_at_once() {
    let provider = OidcProvider::new(config());
    let VerificationStep::Decided(Err(error)) =
        provider.verify_id_token("not-a-token", NonceCheck::Skip)
    else {
        panic!("expected a rejection");
    };
    assert_eq!(error.status(), 401);
    assert!(error.detail().starts_with("malformed id token: "), "{}", error.detail());
}

#[test]
fn an_expired_token_is_rejected_without_a_refresh() {
    let provider = OidcProvider::new(config());
    let VerificationStep::Verify(pending) =
        provider.verify_id_token(&id_token(), NonceCheck::Present)
    else {
        panic!("expected a verification");
    };
    let expired = ClaimsVerificationError::Expired("ID token is expired".to_string());
    let VerificationStep::Decided(Err(error)) = provider.verified(pending, Err(expired)) else {
        panic!("expected a rejection");
    };
    assert_eq!(error.status(), 401);
    assert!(error.detail().contains("expired"), "{}", error.detail());
}

/// Verification must fail closed after one refresh and retry.
#[test]
fn a_token_signed_by_an_unpublished_key_is_refused() {
    let provider = OidcProvider::new(config());
    let VerificationStep::Verify(pending) =
        provider.verify_id_token(&id_token(), NonceCheck::Present)
    else {
        panic!("expected a verification");
    };
    let VerificationStep::Refresh(pending) = provider.verified(pending, Err(no_matching_key()))
    else {
        panic!("expected a refresh");
    };
    let VerificationStep::Verify(pending) = provider.refreshed(pending, Ok(())) else {
        panic!("expected a retry");
    };
    let VerificationStep::Decided(Err(error)) =
        provider.verified(pending, Err(no_matching_key()))
    else {
        panic!("expected a rejection");
    };
    assert_eq!(error.status(), 401);
}

#[test]
fn a_failed_refresh_is_returned() {
    let provider = OidcProvider::new(config());
    let VerificationStep::Verify(pending) =
        provider.verify_id_token(&id_token(), NonceCheck::Present)
    else {
        panic!("expected a verification");
    };
    let VerificationStep::Refresh(pending) = provider.verified(pending, Err(no_matching_key()))
    else {
        panic!("expected a refresh");
    };
    let failed = provider.refreshed(pending, Err(AuthError::upstream("issuer down")));
    assert!(matches!(failed, VerificationStep::Decided(Err(e)) if e.status() == 503));
}

// ---------------------------------------------------------------- bearer

#[test]
fn bearer_authenticator_declines_non_jwt_tokens() {
    let auth = BearerAuthenticator::<TestApp>::new();
    let request = AuthRequest::default();

    for value in [
        "sptok_apikey",
        "opaque",
        "a.b",
        "a.b.c.d",
        "a..c",
        ".b.c",
        "a.b.",
        "",
    ] {
        let credential = Credential::Bearer(SecretString::from(value.to_string()));
        let step = auth.begin(&AuthContext::new(&request, &credential, &Scope));
        assert!(
            matches!(step, BearerStep::Answered(Ok(Verdict::NotApplicable))),
            "for {value:?}"
        );
    }
}

#[test]
fn bearer_authenticator_answers_with_the_verdict_on_the_token() {
    let auth = BearerAuthenticator::<TestApp>::new();
    assert_eq!(auth.name(), "bearer");
    let request = AuthRequest::default();
    let credential = Credential::Bearer(SecretString::from("a.b.c".to_string()));
    let BearerStep::Verify { token, nonce } =
        auth.begin(&AuthContext::new(&request, &credential, &Scope))
    else {
        panic!("expected a verification");
    };
    assert_eq!(token, "a.b.c");
    assert!(matches!(nonce, NonceCheck::Present));

    assert_eq!(
        auth.finish(Ok(alice_claims())).unwrap(),
        Verdict::Authenticated(alice())
    );
    let rejected = auth.finish(Err(AuthError::invalid_credential("token expired: x")));
    assert_eq!(rejected.unwrap_err().status(), 401);
    let nameless = IdentityClaims::new(ClaimSource::IdToken).with_subject("s");
    assert_eq!(
        auth.finish(Ok(nameless)).unwrap_err().detail(),
        "bearer identity conversion: email claim not found"
    );
}

// ---------------------------------------------------------------- session

#[test]
fn session_authenticator_accepts_a_valid_cookie() {
    let auth = SessionAuthenticator::<TestApp, IdTokenCodec>::new();
    assert_eq!(auth.name(), "session");
    let request = AuthRequest::builder().cookie("session", "the-token").build();
    let ctx = AuthContext::new(&request, &Credential::Absent, &Scope);
    let SessionStep::Verify { token, nonce } = auth.begin(&ctx, &endpoint()) else {
        panic!("expected a verification");
    };
    assert_eq!(token, "the-token");
    assert!(matches!(nonce, NonceCheck::Present));

    let verdict = auth.finish(&ctx, &endpoint(), Ok(alice_claims())).unwrap();
    assert_eq!(verdict, Verdict::Authenticated(alice()));
}

#[test]
fn session_authenticator_without_a_login_flow_declines_rather_than_redirects() {
    let auth = SessionAuthenticator::<TestApp, IdTokenCodec>::new();

    let request = AuthRequest::builder().method("GET").path("/config").build();
    let ctx = AuthContext::new(&request, &Credential::Absent, &Scope);
    let SessionStep::Answered(Err(error)) = auth.begin(&ctx, &endpoint()) else {
        panic!("expected a failure");
    };

    assert_eq!(error.status(), 401);
    assert_eq!(error.detail(), "no session cookie");
}

fn challenging() -> SessionAuthenticator<TestApp, IdTokenCodec> {
    SessionAuthenticator::new().with_login_redirect(Arc::new(flow()))
}

/// A client presenting an API credential is doing API authentication and must never be bounced
/// into an interactive login.
#[test]
fn session_authenticator_ignores_requests_carrying_another_credential() {
    let auth = challenging();

    let request = AuthRequest::builder().method("GET").path("/config").build();
    let credential = Credential::Bearer(SecretString::from("sptok_key".to_string()));
    let step = auth.begin(&AuthContext::new(&request, &credential, &Scope), &endpoint());

    assert!(matches!(step, SessionStep::Answered(Ok(Verdict::NotApplicable))));
}

#[test]
fn session_authenticator_redirects_an_unauthenticated_navigation() {
    let auth = challenging();

    let request = AuthRequest::builder()
        .method("GET")
        .path("/admin/workspaces")
        .query("page=2")
        .build();
    let ctx = AuthContext::new(&request, &Credential::Absent, &Scope);
    let SessionStep::Answered(Err(error)) = auth.begin(&ctx, &endpoint()) else {
        panic!("expected a failure");
    };

    let AuthError::Redirect { location, cookies } = error else {
        panic!("expected a redirect, got {error:?}");
    };
    assert!(
        location.starts_with(&format!("{ISSUER}/authorize")),
        "{location}"
    );
    assert!(
        location.contains("code_challenge"),
        "PKCE missing: {location}"
    );
    assert!(location.contains("client_id=test-client"));
    // The protection cookie, and a clear of any stale session.
    assert_eq!(cookies.len(), 2);
    let data = ProtectionData::decode(&cookie_value(&cookies, "authn_protection")).unwrap();
    assert_eq!(data.destination, "/admin/workspaces?page=2");
}

/// Redirecting a mutation into a login round-trip silently discards its body.
#[test]
fn session_authenticator_never_redirects_a_mutation() {
    let auth = challenging();

    for method in ["POST", "PUT", "PATCH", "DELETE"] {
        let request = AuthRequest::builder()
            .method(method)
            .path("/config")
            .build();
        let ctx = AuthContext::new(&request, &Credential::Absent, &Scope);
        let SessionStep::Answered(Err(error)) = auth.begin(&ctx, &endpoint()) else {
            panic!("expected a failure");
        };

        assert_eq!(error.status(), 401, "for {method}");
    }
}

#[test]
fn an_unusable_session_is_a_new_login_for_a_navigation() {
    let auth = challenging();
    let request = AuthRequest::builder().method("GET").path("/x").build();
    let ctx = AuthContext::new(&request, &Credential::Absent, &Scope);
    let expired = || Err(AuthError::invalid_credential("token expired: x"));
    let error = auth.finish(&ctx, &endpoint(), expired()).unwrap_err();
    assert_eq!(error.status(), 302);

    // A provider that is down is no reason to sign in again.
    let down = Err(AuthError::upstream("discovery failed: x"));
    let error = auth.finish(&ctx, &endpoint(), down).unwrap_err();
    assert_eq!(error.status(), 503);

    // An empty cookie cannot be decoded.
    let request = AuthRequest::builder().method("POST").cookie("session", "").build();
    let ctx = AuthContext::new(&request, &Credential::Absent, &Scope);
    let SessionStep::Answered(Err(error)) = auth.begin(&ctx, &endpoint()) else {
        panic!("expected a failure");
    };
    assert_eq!(error.detail(), "empty session cookie");
}

#[test]
fn a_path_that_leaves_the_origin_is_not_redirected_to() {
    let auth = challenging();
    let request = AuthRequest::builder().method("GET").path("//evil.example").build();
    let ctx = AuthContext::new(&request, &Credential::Absent, &Scope);
    let SessionStep::Answered(Err(error)) = auth.begin(&ctx, &endpoint()) else {
        panic!("expected a failure");
    };
    assert_eq!(error.status(), 400);
}

// -------------------------------------------------------------- login flow

#[test]
fn authorize_url_carries_every_required_parameter() {
    let redirect = flow().authorize(&endpoint(), "/admin/organisations").unwrap();

    for expected in [
        "response_type=code",
        "client_id=test-client",
        "code_challenge",
        "code_challenge_method=S256",
        "state=",
        "nonce=",
        "scope=",
    ] {
        assert!(redirect.location.contains(expected), "missing {expected}");
    }
    // The destination must not appear in the URL: it lives in the protection cookie, so it can
    // never be influenced by whoever crafts the callback.
    assert!(
        !redirect.location.contains("organisations"),
        "{}",
        redirect.location
    );
}

#[test]
fn authorize_url_is_spelled_from_the_secrets() {
    let data = ProtectionData {
        csrf: SecretString::from("the-state".to_string()),
        nonce: SecretString::from("the-nonce".to_string()),
        // The example of RFC 7636, appendix B.
        pkce_verifier: Some(SecretString::from(
            "dBjftJeZ4CVP-mB92K27uhbUJU1p1r_wW1gFWFOEjXk".to_string(),
        )),
        destination: "/".to_string(),
    };
    let redirect = flow().authorize_with(&endpoint(), data).unwrap();
    assert_eq!(param(&redirect.location, "state"), "the-state");
    assert_eq!(param(&redirect.location, "nonce"), "the-nonce");
    assert_eq!(
        param(&redirect.location, "code_challenge"),
        "E9Melhoa2OwvFrEMTJguCHaoeK1t8URWbuGJSstw-cM"
    );
    assert_eq!(param(&redirect.location, "redirect_uri"), "https://app.example/callback");
    assert_eq!(param(&redirect.location, "scope"), "openid openid email profile");
}

#[test]
fn secrets_are_fresh_for_every_login() {
    let flow = flow();
    let first = flow.authorize(&endpoint(), "/").unwrap();
    let second = flow.authorize(&endpoint(), "/").unwrap();
    assert_ne!(param(&first.location, "state"), param(&second.location, "state"));
    assert_ne!(param(&first.location, "nonce"), param(&second.location, "nonce"));
    assert_eq!(param(&first.location, "state").len(), 22);

    let data = ProtectionData::decode(&cookie_value(&first.cookies, "authn_protection")).unwrap();
    assert_eq!(data.csrf.expose_secret(), param(&first.location, "state"));
    assert_eq!(data.nonce.expose_secret(), param(&first.location, "nonce"));
    assert_eq!(data.pkce_verifier.unwrap().expose_secret().len(), 43);
}

#[test]
fn pkce_can_be_switched_off() {
    let flow = LoginFlow::new(config().with_pkce(false));
    let redirect = flow.authorize(&endpoint(), "/").unwrap();
    assert!(!redirect.location.contains("code_challenge"));
    let data = ProtectionData::decode(&cookie_value(&redirect.cookies, "authn_protection")).unwrap();
    assert!(data.pkce_verifier.is_none());
}

#[test]
fn authorize_rejects_an_off_origin_destination() {
    let error = flow()
        .authorize(&endpoint(), "https://evil.example/steal")
        .unwrap_err();
    assert_eq!(error.status(), 400);
}

#[test]
fn an_endpoint_must_be_a_url() {
    assert_eq!(
        AuthUrl::new("nowhere").unwrap_err(),
        "relative URL without a base"
    );
    assert_eq!(endpoint().as_str(), "https://idp.example/authorize");
}

// ==================================================== login round trip

/// Pulls a query parameter out of the authorization URL.
fn param(location: &str, name: &str) -> String {
    let query = location
        .split_once('?')
        .expect("authorize url has a query")
        .1;
    url::form_urlencoded::parse(query.as_bytes())
        .find(|(key, _)| key == name)
        .map(|(_, value)| value.into_owned())
        .unwrap_or_else(|| panic!("authorize url has no {name}"))
}

fn cookie_value(cookies: &[CookieDirective], name: &str) -> String {
    cookies
        .iter()
        .find(|cookie| cookie.name == name)
        .unwrap_or_else(|| panic!("no {name} cookie"))
        .value
        .clone()
}

#[test]
fn a_full_login_round_trip_succeeds() {
    let flow = flow();

    let redirect = flow.authorize(&endpoint(), "/admin/organisations").unwrap();
    let state = param(&redirect.location, "state");
    let nonce = param(&redirect.location, "nonce");
    let challenge = param(&redirect.location, "code_challenge");
    let protection = cookie_value(&redirect.cookies, "authn_protection");

    let callback =
        CallbackParams::from_query(&format!("code=the-code&state={state}")).unwrap();
    let exchange = flow.complete(callback, Some(&protection)).unwrap();
    assert_eq!(exchange.code(), "the-code");
    // The verifier hashes to the challenge that was sent.
    let verifier = openidconnect::PkceCodeVerifier::new(exchange.pkce_verifier().unwrap().to_string());
    assert_eq!(
        openidconnect::PkceCodeChallenge::from_code_verifier_sha256(&verifier).as_str(),
        challenge
    );

    let pending = flow.exchanged(exchange, Ok(Some("the.id.token".to_string()))).unwrap();
    assert_eq!(pending.id_token(), "the.id.token");
    assert!(matches!(
        pending.nonce_check(),
        NonceCheck::Matches(expected) if expected.expose_secret() == nonce
    ));
    let complete = flow.finish(pending, Ok(alice_claims())).unwrap();

    assert_eq!(complete.claims.email.as_deref(), Some("alice@example.com"));
    assert_eq!(complete.redirect_to, "/admin/organisations");
    assert_eq!(User::try_from(complete.claims).unwrap(), alice());

    // A new session, and the spent protection cookie cleared.
    assert_eq!(cookie_value(&complete.cookies, "session"), "the.id.token");
    let cleared = complete
        .cookies
        .iter()
        .find(|c| c.name == "authn_protection")
        .unwrap();
    assert_eq!(cleared.max_age, Some(Duration::zero()));
}

/// The provider rejects the exchange when the verifier does not match.
#[test]
fn a_mismatched_pkce_verifier_is_refused() {
    let flow = flow();
    let redirect = flow.authorize(&endpoint(), "/admin").unwrap();
    let state = param(&redirect.location, "state");
    let protection = cookie_value(&redirect.cookies, "authn_protection");
    let callback =
        CallbackParams::from_query(&format!("code=the-code&state={state}")).unwrap();
    let exchange = flow.complete(callback, Some(&protection)).unwrap();

    let refused = Err(TokenExchangeError::ServerResponse(TokenErrorCode::InvalidGrant));
    let error = flow.exchanged(exchange, refused).unwrap_err();

    assert_eq!(error.status(), 401);
}

#[test]
fn a_token_response_needs_an_id_token_and_a_verdict() {
    let flow = flow();
    let redirect = flow.authorize(&endpoint(), "/admin").unwrap();
    let state = param(&redirect.location, "state");
    let protection = cookie_value(&redirect.cookies, "authn_protection");
    let exchange = || {
        let callback = CallbackParams::from_query(&format!("code=c&state={state}")).unwrap();
        flow.complete(callback, Some(&protection)).unwrap()
    };

    let error = flow.exchanged(exchange(), Ok(None)).unwrap_err();
    assert_eq!(error.status(), 503);
    assert_eq!(error.detail(), "token response carried no id_token");

    let pending = flow.exchanged(exchange(), Ok(Some("t".to_string()))).unwrap();
    let rejected = Err(AuthError::invalid_credential("nonce mismatch: x"));
    let error = flow.finish(pending, rejected).unwrap_err();
    assert_eq!(error.detail(), "nonce mismatch: x");
}

#[test]
fn a_callback_state_that_does_not_match_the_cookie_is_refused() {
    let flow = flow();

    let redirect = flow.authorize(&endpoint(), "/admin").unwrap();
    let protection = cookie_value(&redirect.cookies, "authn_protection");

    let callback = CallbackParams::from_query("code=the-code&state=forged").unwrap();
    let error = flow.complete(callback, Some(&protection)).unwrap_err();

    assert_eq!(error.status(), 401);
    assert!(error.detail().contains("state"), "{}", error.detail());
}

#[test]
fn a_callback_without_the_protection_cookie_is_refused() {
    let callback = CallbackParams::from_query("code=c&state=s").unwrap();
    let error = flow().complete(callback, None).unwrap_err();

    assert_eq!(error.status(), 401);
}

/// A user declining consent is an RFC 6749 error response, not a malformed request.
#[test]
fn a_declined_login_is_reported_as_unauthenticated() {
    let callback = CallbackParams::from_query(
        "error=access_denied&error_description=The+user+declined",
    )
    .unwrap();
    let error = flow().complete(callback, None).unwrap_err();

    assert_eq!(error.status(), 401);
    assert!(error.detail().contains("declined"), "{}", error.detail());
}

#[test]
fn any_other_error_of_the_provider_is_upstream() {
    let callback = CallbackParams::from_query("error=server_error").unwrap();
    let error = flow().complete(callback, None).unwrap_err();
    assert_eq!(error.status(), 503);
    assert_eq!(
        error.detail(),
        "provider reported server_error during sign-in: server_error"
    );
}

// ======================================================== basic auth grants

fn basic(id: &str, secret: &str) -> Credential {
    Credential::Basic {
        id: id.to_string(),
        secret: SecretString::from(secret.to_string()),
    }
}

fn now() -> Duration {
    Duration::from_secs(1_000)
}

fn begin(
    auth: &mut BasicAuthenticator<TestApp>,
    request: &AuthRequest,
    credential: &Credential,
) -> BasicStep<User> {
    auth.begin(&AuthContext::new(request, credential, &Scope), now())
}

#[test]
fn client_credentials_authenticates_a_machine() {
    let mut auth = BasicAuthenticator::<TestApp>::new();
    assert_eq!(auth.name(), "basic");
    let credential = basic("reporting", "machine-secret");
    let BasicStep::Exchange(grant, pending) =
        begin(&mut auth, &AuthRequest::default(), &credential)
    else {
        panic!("expected an exchange");
    };
    // The exchange runs as the caller's client, which is what proves their credentials.
    assert_eq!(grant, Grant::ClientCredentials);
    assert_eq!(pending.id(), "reporting");
    assert_eq!(pending.secret(), "machine-secret");

    let verdict = auth
        .finish_client_credentials(pending, Ok(Some(Duration::from_secs(3_600))), now())
        .unwrap();
    assert_eq!(
        verdict,
        Verdict::Authenticated(User {
            email: "reporting@service.local".into(),
            username: "service-account-reporting".into(),
        })
    );
}

#[test]
fn client_credentials_rejects_a_bad_secret() {
    let mut auth = BasicAuthenticator::<TestApp>::new();
    let credential = basic("reporting", "wrong");
    let BasicStep::Exchange(_, pending) = begin(&mut auth, &AuthRequest::default(), &credential)
    else {
        panic!("expected an exchange");
    };
    let refused = Err(TokenExchangeError::ServerResponse(TokenErrorCode::InvalidClient));
    let error = auth.finish_client_credentials(pending, refused, now()).unwrap_err();

    assert_eq!(error.status(), 401);
}

#[test]
fn client_credentials_results_are_cached() {
    let mut auth = BasicAuthenticator::<TestApp>::new();
    let credential = basic("reporting", "machine-secret");
    let mut exchanges = 0;

    for _ in 0..3 {
        match begin(&mut auth, &AuthRequest::default(), &credential) {
            BasicStep::Answered(answer) => {
                assert!(matches!(answer, Ok(Verdict::Authenticated(_))));
            }
            BasicStep::Exchange(_, pending) => {
                exchanges += 1;
                auth.finish_client_credentials(
                    pending,
                    Ok(Some(Duration::from_secs(3_600))),
                    now(),
                )
                .unwrap();
            }
        }
    }

    assert_eq!(exchanges, 1, "the token endpoint was re-hit");
}

fn password_request() -> AuthRequest {
    AuthRequest::builder().header("x-grant-type", "password").build()
}

/// The password grant is off unless explicitly enabled: OAuth 2.1 removes it.
#[test]
fn the_password_grant_is_refused_unless_enabled() {
    let mut auth = BasicAuthenticator::<TestApp>::new();

    let BasicStep::Answered(Err(error)) =
        begin(&mut auth, &password_request(), &basic("alice", "pw"))
    else {
        panic!("no exchange should be attempted");
    };

    assert_eq!(error.status(), 501);
}

#[test]
fn the_password_grant_authenticates_when_enabled() {
    let mut auth = BasicAuthenticator::<TestApp>::new().with_password_grant(true);
    let credential = basic("alice", "correct-horse");
    let BasicStep::Exchange(grant, pending) = begin(&mut auth, &password_request(), &credential)
    else {
        panic!("expected an exchange");
    };
    assert_eq!(grant, Grant::Password);

    let reply = Ok((Some("the.id.token".to_string()), Some(Duration::from_secs(3_600))));
    let pending = auth.exchanged_password(pending, reply).ok().unwrap();
    assert_eq!(pending.id_token(), "the.id.token");
    let verdict = auth.finish_password(pending, Ok(alice_claims()), now()).unwrap();
    assert_eq!(verdict, Verdict::Authenticated(alice()));

    // The principal is cached under the password grant, and not under the other one.
    assert!(matches!(
        begin(&mut auth, &password_request(), &credential),
        BasicStep::Answered(Ok(Verdict::Authenticated(_)))
    ));
    assert!(matches!(
        begin(&mut auth, &AuthRequest::default(), &credential),
        BasicStep::Exchange(Grant::ClientCredentials, _)
    ));
}

#[test]
fn the_password_grant_rejects_bad_credentials() {
    let mut auth = BasicAuthenticator::<TestApp>::new().with_password_grant(true);
    let BasicStep::Exchange(_, pending) =
        begin(&mut auth, &password_request(), &basic("alice", "wrong"))
    else {
        panic!("expected an exchange");
    };
    let refused = Err(TokenExchangeError::ServerResponse(TokenErrorCode::InvalidGrant));
    let error = auth.exchanged_password(pending, refused).err().unwrap();

    assert_eq!(error.status(), 401);
}

#[test]
fn a_password_grant_needs_an_id_token_that_verifies() {
    let mut auth = BasicAuthenticator::<TestApp>::new().with_password_grant(true);
    let credential = basic("alice", "pw");
    let BasicStep::Exchange(_, pending) = begin(&mut auth, &password_request(), &credential)
    else {
        panic!("expected an exchange");
    };
    let error = auth.exchanged_password(pending, Ok((None, None))).err().unwrap();
    assert_eq!(error.detail(), "token response carried no id_token");

    let BasicStep::Exchange(_, pending) = begin(&mut auth, &password_request(), &credential)
    else {
        panic!("expected an exchange");
    };
    let pending = auth
        .exchanged_password(pending, Ok((Some("t".to_string()), None)))
        .ok()
        .unwrap();
    assert!(matches!(pending.nonce_check(), NonceCheck::Skip));
    let rejected = Err(AuthError::invalid_credential("wrong issuer: x"));
    assert_eq!(
        auth.finish_password(pending, rejected, now()).unwrap_err().detail(),
        "wrong issuer: x"
    );
}

/// The header is absent or says `password`; naming the grant of an absent header is no exception.
#[test]
fn a_named_client_credentials_grant_is_a_bad_request() {
    for allow in [false, true] {
        let mut auth = BasicAuthenticator::<TestApp>::new().with_password_grant(allow);
        let request = AuthRequest::builder()
            .header("x-grant-type", "client_credentials")
            .build();
        let BasicStep::Answered(Err(error)) = begin(&mut auth, &request, &basic("a", "b")) else {
            panic!("expected a failure");
        };
        assert_eq!(error.status(), 400);
    }
}

/// `X-Grant-Type` selects the grant; anything unrecognised is the client's mistake to fix.
#[test]
fn an_unrecognised_grant_type_is_a_bad_request() {
    let mut auth = BasicAuthenticator::<TestApp>::new();

    let request = AuthRequest::builder()
        .header("x-grant-type", "device_code")
        .build();
    let BasicStep::Answered(Err(error)) = begin(&mut auth, &request, &basic("a", "b")) else {
        panic!("expected a failure");
    };

    assert_eq!(error.status(), 400);
    assert_eq!(error.detail(), "unsupported x-grant-type: device_code");
    assert_eq!(GRANT_TYPE_HEADER, "x-grant-type");
}

#[test]
fn basic_authenticator_declines_other_credentials() {
    let mut auth = BasicAuthenticator::<TestApp>::new();
    let request = AuthRequest::default();

    for credential in [
        Credential::Absent,
        Credential::Bearer(SecretString::from("t".to_string())),
    ] {
        let step = begin(&mut auth, &request, &credential);
        assert!(matches!(step, BasicStep::Answered(Ok(Verdict::NotApplicable))));
    }
}
