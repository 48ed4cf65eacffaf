//! Verifying ID tokens that were really signed.
use std::time::{SystemTime, UNIX_EPOCH};

use authn_kit::oidc::login::AuthUrl;
use authn_kit::oidc::provider::{
    concluded, has_sized_signature, without_mac, PendingToken, VerificationStep,
};
use authn_kit::oidc::{CallbackParams, LoginFlow, NonceCheck, OidcConfig, OidcProvider};
use authn_kit::{AuthError, IdentityClaims, SecretString};
use base64::engine::general_purpose::URL_SAFE_NO_PAD;
use base64::Engine;
use openidconnect::{ClaimsVerificationError, SignatureVerificationError};

type HmacKey = openidconnect::core::CoreHmacKey;
type IdToken = openidconnect::core::CoreIdToken;
type TokenClaims = openidconnect::core::CoreIdTokenClaims;
type SigningAlgorithm = openidconnect::core::CoreJwsSigningAlgorithm;

const ISSUER: &str = "https://idp.example";
const CLIENT_ID: &str = "test-client";
const CLIENT_SECRET: &str = "test-secret";

const METADATA: &str = r#"{
    "issuer": "https://idp.example",
    "authorization_endpoint": "https://idp.example/authorize",
    "token_endpoint": "https://idp.example/token",
    "jwks_uri": "https://idp.example/jwks",
    "introspection_endpoint": "https://idp.example/introspect",
    "response_types_supported": ["code"],
    "subject_types_supported": ["public"],
    "id_token_signing_alg_values_supported": ["RS256", "HS256"]
}"#;

const NO_KEYS: &str = r#"{"keys":[]}"#;

fn config() -> OidcConfig {
    OidcConfig::new(ISSUER, CLIENT_ID, "https://app.example/oidc/callback").unwrap()
}

fn provider() -> OidcProvider {
    OidcProvider::new(config().with_client_secret(CLIENT_SECRET))
}

fn payload(nonce: Option<&str>, audience: &str, lifetime: i64) -> String {
    let now = SystemTime::now().duration_since(UNIX_EPOCH).unwrap().as_secs() as i64;
    let nonce = nonce.map(|nonce| format!(r#""nonce":"{nonce}","#)).unwrap_or_default();
    format!(
        r#"{{"iss":"{ISSUER}","aud":["{audience}"],{nonce}"exp":{},"iat":{now},"sub":"alice","email":"alice@example.com","preferred_username":"alice"}}"#,
        now + lifetime
    )
}

fn sign(payload: &str, secret: &str) -> String {
    sign_by(payload, secret, SigningAlgorithm::HmacSha256)
}

fn sign_by(payload: &str, secret: &str, algorithm: SigningAlgorithm) -> String {
    let claims: TokenClaims = serde_json::from_str(payload).unwrap();
    let key = HmacKey::new(secret.as_bytes());
    IdToken::new(claims, &key, algorithm, None, None)
        .unwrap()
        .to_string()
}

fn mint(nonce: Option<&str>) -> String {
    sign(&payload(nonce, CLIENT_ID, 3_600), CLIENT_SECRET)
}

/// A token that claims to be signed with a key of the provider.
fn rsa_token() -> String {
    let header = URL_SAFE_NO_PAD.encode(r#"{"alg":"RS256","kid":"k1"}"#);
    let payload = URL_SAFE_NO_PAD.encode(payload(Some("n-1"), CLIENT_ID, 3_600));
    format!("{header}.{payload}.c2ln")
}

fn rsa_key(kid: &str) -> String {
    let modulus = URL_SAFE_NO_PAD.encode([0xab; 256]);
    format!(r#"{{"kty":"RSA","use":"sig","kid":"{kid}","n":"{modulus}","e":"AQAB"}}"#)
}

fn step(token: &str, nonce: NonceCheck, keys: &str) -> VerificationStep {
    let provider = provider();
    match provider.verify_id_token(token, nonce) {
        VerificationStep::Verify(pending) => provider.verify(pending, METADATA, keys),
        other => other,
    }
}

fn verify(token: &str, nonce: NonceCheck) -> Result<IdentityClaims, AuthError> {
    match step(token, nonce, NO_KEYS) {
        VerificationStep::Decided(result) => result,
        _ => panic!("expected a decision"),
    }
}

fn matches_nonce(nonce: &str) -> NonceCheck {
    NonceCheck::Matches(SecretString::from(nonce.to_string()))
}

#[test]
fn verifies_a_well_formed_id_token() {
    let claims = verify(&mint(Some("n-1")), NonceCheck::Present).expect("token should verify");

    assert_eq!(claims.subject.as_deref(), Some("alice"));
    assert_eq!(claims.email.as_deref(), Some("alice@example.com"));
    assert_eq!(claims.best_effort_username(), Some("alice"));
    assert!(claims.extra_claim("nonce").is_some());
    assert!(claims.expires_at.is_some());
}

#[test]
fn rejects_an_expired_token() {
    let token = sign(&payload(Some("n"), CLIENT_ID, -3_600), CLIENT_SECRET);
    let error = verify(&token, NonceCheck::Present).unwrap_err();

    assert_eq!(error.status(), 401);
    assert!(error.detail().contains("expired"), "{}", error.detail());
}

#[test]
fn rejects_a_token_minted_for_another_audience() {
    let token = sign(&payload(Some("n-1"), "some-other-client", 3_600), CLIENT_SECRET);
    let error = verify(&token, NonceCheck::Present).unwrap_err();

    assert_eq!(error.status(), 401);
    assert!(error.detail().starts_with("wrong audience: "), "{}", error.detail());
}

#[test]
fn rejects_a_token_of_another_issuer() {
    let foreign = payload(Some("n-1"), CLIENT_ID, 3_600).replace(ISSUER, "https://other.example");
    let error = verify(&sign(&foreign, CLIENT_SECRET), NonceCheck::Present).unwrap_err();

    assert_eq!(error.status(), 401);
    assert!(error.detail().starts_with("wrong issuer: "), "{}", error.detail());
}

#[test]
fn nonce_checks_behave_as_named() {
    let with_nonce = mint(Some("n-1"));
    let without_nonce = mint(None);

    // Present: requires a nonce, any value.
    assert!(verify(&with_nonce, NonceCheck::Present).is_ok());
    assert_eq!(
        verify(&without_nonce, NonceCheck::Present).unwrap_err().detail(),
        "nonce mismatch: missing nonce claim"
    );

    // Skip: accepts a token minted outside an authorization request.
    assert!(verify(&without_nonce, NonceCheck::Skip).is_ok());
    assert!(verify(&with_nonce, NonceCheck::Skip).is_ok());

    // Matches: binds the token to one specific login attempt.
    assert!(verify(&with_nonce, matches_nonce("n-1")).is_ok());
    assert_eq!(
        verify(&with_nonce, matches_nonce("n-2")).unwrap_err().detail(),
        "nonce mismatch: nonce mismatch"
    );
    assert_eq!(
        verify(&without_nonce, matches_nonce("n-1")).unwrap_err().detail(),
        "nonce mismatch: missing nonce claim"
    );
}

#[test]
fn a_forged_token_is_refused_whatever_its_nonce_check() {
    let forged = sign(&payload(Some("n-1"), CLIENT_ID, 3_600), "another-secret");
    for nonce in [NonceCheck::Present, NonceCheck::Skip, matches_nonce("n-1")] {
        assert!(matches!(
            step(&forged, nonce, NO_KEYS),
            VerificationStep::Refresh(_)
        ));
    }
}

/// A public client has no secret that a symmetric signature could rest on.
#[test]
fn a_symmetric_signature_needs_a_client_secret() {
    let provider = OidcProvider::new(config());
    let VerificationStep::Verify(pending) =
        provider.verify_id_token(&mint(Some("n-1")), NonceCheck::Present)
    else {
        panic!("expected a verification");
    };
    let VerificationStep::Decided(Err(error)) = provider.verify(pending, METADATA, NO_KEYS) else {
        panic!("expected a rejection");
    };
    assert!(
        error.detail().starts_with("signature verification: Disallowed signature algorithm: "),
        "{}",
        error.detail()
    );
}

/// Fresh keys are asked for where no key matches, several do, or one does not verify.
#[test]
fn key_trouble_asks_for_fresh_keys() {
    let one = format!(r#"{{"keys":[{}]}}"#, rsa_key("k1"));
    let two = format!(r#"{{"keys":[{},{}]}}"#, rsa_key("k1"), rsa_key("k1"));
    let other = format!(r#"{{"keys":[{}]}}"#, rsa_key("k2"));
    for keys in [NO_KEYS, &one, &two, &other] {
        let provider = provider();
        let VerificationStep::Verify(pending) =
            provider.verify_id_token(&rsa_token(), NonceCheck::Present)
        else {
            panic!("expected a verification");
        };
        let VerificationStep::Refresh(pending) = provider.verify(pending, METADATA, keys) else {
            panic!("expected a refresh");
        };
        let VerificationStep::Verify(pending) = provider.refreshed(pending, Ok(())) else {
            panic!("expected a retry");
        };
        let VerificationStep::Decided(Err(error)) = provider.verify(pending, METADATA, keys)
        else {
            panic!("expected a rejection");
        };
        assert_eq!(error.status(), 401);
    }
}

#[test]
fn an_algorithm_that_is_not_offered_is_final() {
    let metadata = METADATA.replace(r#"["RS256", "HS256"]"#, r#"["RS256"]"#);
    let provider = provider();
    let VerificationStep::Verify(pending) =
        provider.verify_id_token(&mint(Some("n-1")), NonceCheck::Present)
    else {
        panic!("expected a verification");
    };
    assert!(matches!(
        provider.verify(pending, &metadata, NO_KEYS),
        VerificationStep::Decided(Err(error)) if error.status() == 401
    ));
}

#[test]
fn unreadable_metadata_accept_no_token() {
    let provider = provider();
    for (metadata, keys) in [("{}", NO_KEYS), (METADATA, "no keys")] {
        let VerificationStep::Verify(pending) =
            provider.verify_id_token(&mint(Some("n-1")), NonceCheck::Present)
        else {
            panic!("expected a verification");
        };
        assert!(matches!(
            provider.examine(&pending, metadata, keys),
            Err(ClaimsVerificationError::Other(_))
        ));
    }
}

/// The nonce minted for a login is the one its ID token has to carry.
#[test]
fn a_login_is_bound_to_its_token() {
    let flow = LoginFlow::new(config().with_client_secret(CLIENT_SECRET));
    let endpoint = AuthUrl::new("https://idp.example/authorize").unwrap();
    let redirect = flow.authorize(&endpoint, "/admin").unwrap();
    let query: Vec<(String, String)> = url::Url::parse(&redirect.location)
        .unwrap()
        .query_pairs()
        .into_owned()
        .collect();
    let param = |name: &str| query.iter().find(|(key, _)| key == name).unwrap().1.clone();
    let cookie = redirect.cookies[0].value.clone();

    for (nonce, accepted) in [(param("nonce"), true), ("another".to_string(), false)] {
        let callback =
            CallbackParams::from_query(&format!("code=c&state={}", param("state"))).unwrap();
        let exchange = flow.complete(callback, Some(&cookie)).unwrap();
        let pending = flow.exchanged(exchange, Ok(Some(mint(Some(&nonce))))).unwrap();
        let verified = verify(pending.id_token(), pending.nonce_check());
        assert_eq!(verified.is_ok(), accepted);
        assert_eq!(flow.finish(pending, verified).is_ok(), accepted);
    }
}

const ALL_MACS: &str = r#"["HS256", "HS384", "HS512"]"#;

fn all_macs() -> String {
    METADATA.replace(r#"["RS256", "HS256"]"#, ALL_MACS)
}

/// A token with a MAC of `size` bytes, all zero.
fn zero_mac_token(algorithm: &str, payload: &str, size: usize) -> String {
    let header = URL_SAFE_NO_PAD.encode(format!(r#"{{"alg":"{algorithm}"}}"#));
    let payload = URL_SAFE_NO_PAD.encode(payload);
    format!("{header}.{payload}.{}", URL_SAFE_NO_PAD.encode(vec![0u8; size]))
}

fn pending(provider: &OidcProvider, token: &str) -> PendingToken {
    match provider.verify_id_token(token, NonceCheck::Present) {
        VerificationStep::Verify(pending) => pending,
        _ => panic!("expected a verification"),
    }
}

#[test]
fn every_mac_algorithm_verifies() {
    let provider = provider();
    for algorithm in [
        SigningAlgorithm::HmacSha256,
        SigningAlgorithm::HmacSha384,
        SigningAlgorithm::HmacSha512,
    ] {
        let token = sign_by(&payload(Some("n-1"), CLIENT_ID, 3_600), CLIENT_SECRET, algorithm);
        let pending = pending(&provider, &token);
        assert!(matches!(
            provider.verify(pending, &all_macs(), NO_KEYS),
            VerificationStep::Decided(Ok(_))
        ));
    }
}

/// A MAC is a bad one whether its bytes are wrong or their number.
#[test]
fn a_mac_of_any_length_that_is_wrong_is_a_bad_signature() {
    let provider = provider();
    let claims = payload(Some("n-1"), CLIENT_ID, 3_600);
    for algorithm in ["HS256", "HS384", "HS512"] {
        for size in [0, 1, 31, 32, 33, 47, 48, 49, 63, 64, 65, 200] {
            let token = zero_mac_token(algorithm, &claims, size);
            let first = pending(&provider, &token);
            match provider.examine(&first, &all_macs(), NO_KEYS) {
                Err(ClaimsVerificationError::SignatureVerification(
                    SignatureVerificationError::CryptoError(report),
                )) => assert_eq!(report, "bad HMAC"),
                _ => panic!("expected a bad signature: {algorithm}, {size} bytes"),
            }
            let VerificationStep::Refresh(first) = provider.verify(first, &all_macs(), NO_KEYS)
            else {
                panic!("expected a refresh");
            };
            let VerificationStep::Verify(second) = provider.refreshed(first, Ok(())) else {
                panic!("expected a retry");
            };
            let VerificationStep::Decided(Err(error)) =
                provider.verify(second, &all_macs(), NO_KEYS)
            else {
                panic!("expected a rejection");
            };
            assert_eq!(error.status(), 401);
        }
    }
}

/// What is wrong with a token before its MAC comes first, whatever the length of the MAC.
#[test]
fn earlier_objections_come_before_the_mac() {
    let provider = provider();
    let claims = payload(Some("n-1"), CLIENT_ID, 3_600);
    let foreign = claims.replace(ISSUER, "https://other.example");
    let other = payload(Some("n-1"), "some-other-client", 3_600);
    for size in [3, 32] {
        let token = zero_mac_token("HS256", &foreign, size);
        assert!(matches!(
            provider.examine(&pending(&provider, &token), METADATA, NO_KEYS),
            Err(ClaimsVerificationError::InvalidIssuer(_))
        ));
        let token = zero_mac_token("HS256", &other, size);
        assert!(matches!(
            provider.examine(&pending(&provider, &token), METADATA, NO_KEYS),
            Err(ClaimsVerificationError::InvalidAudience(_))
        ));
        let token = zero_mac_token("HS384", &claims, size);
        assert!(matches!(
            provider.verify(pending(&provider, &token), METADATA, NO_KEYS),
            VerificationStep::Decided(Err(error))
                if error.detail().contains("algorithm `HS384` is not one of: ")
        ));
    }
}

#[test]
fn the_length_of_a_mac_follows_from_its_algorithm() {
    for (algorithm, length) in [("HS256", 43), ("HS384", 64), ("HS512", 86)] {
        for count in [0, 42, 43, 44, 63, 64, 65, 85, 86, 87] {
            let token = format!("h.p.{}", "A".repeat(count));
            assert_eq!(has_sized_signature(&token, Some(algorithm)), count == length);
        }
    }
    assert!(has_sized_signature("h.p.s", Some("RS256")));
    assert!(has_sized_signature("h.p.s", None));
    assert!(has_sized_signature("", None));
    assert!(!has_sized_signature("", Some("HS256")));
}

#[test]
fn without_a_secret_only_the_mac_is_replaced() {
    let disallowed = |report: &str| {
        ClaimsVerificationError::SignatureVerification(SignatureVerificationError::DisallowedAlg(
            report.to_string(),
        ))
    };
    for heard in [
        Ok(Vec::new()),
        Err(ClaimsVerificationError::Expired("late".to_string())),
        Err(ClaimsVerificationError::InvalidNonce("none".to_string())),
        Err(disallowed("symmetric signatures are disallowed for public clients")),
    ] {
        assert!(matches!(
            without_mac(heard),
            ClaimsVerificationError::SignatureVerification(
                SignatureVerificationError::CryptoError(report)
            ) if report == "bad HMAC"
        ));
    }
    assert!(matches!(
        without_mac(Err(disallowed("algorithm `HS256` is not one of: RS256"))),
        ClaimsVerificationError::SignatureVerification(
            SignatureVerificationError::DisallowedAlg(report)
        ) if report == "algorithm `HS256` is not one of: RS256"
    ));
    assert!(matches!(
        without_mac(Err(ClaimsVerificationError::InvalidIssuer("other".to_string()))),
        ClaimsVerificationError::InvalidIssuer(report) if report == "other"
    ));
}

#[test]
fn a_verifiers_answer_is_concluded() {
    let heard = |json: &str| Ok(json.as_bytes().to_vec());
    let bound = matches_nonce("n-1");

    let claims = concluded(
        &bound,
        heard(r#"{"sub":"alice","nonce":"n-1","exp":1700000000,"email":"a@b.c"}"#),
    )
    .unwrap();
    assert_eq!(claims.subject, "alice");
    assert_eq!(claims.expiration, 1_700_000_000);
    assert_eq!(claims.email.as_deref(), Some("a@b.c"));
    assert!(concluded(&NonceCheck::Skip, heard(r#"{"sub":"alice"}"#)).is_ok());
    assert!(concluded(&NonceCheck::Present, heard(r#"{"sub":"alice","nonce":"x"}"#)).is_ok());

    for (nonce, json, expected) in [
        (&bound, r#"{"sub":"alice","nonce":"n-2"}"#, "nonce mismatch"),
        (&bound, r#"{"sub":"alice"}"#, "missing nonce claim"),
        (&NonceCheck::Present, r#"{"sub":"alice","nonce":7}"#, "missing nonce claim"),
    ] {
        assert!(matches!(
            concluded(nonce, heard(json)),
            Err(ClaimsVerificationError::InvalidNonce(report)) if report == expected
        ));
    }
    for (json, expected) in [
        ("[]", "expected an object"),
        ("{}", "missing field `sub`"),
        (r#"{"sub":7}"#, "missing field `sub`"),
        ("", "EOF while parsing a value at line 1 column 0"),
    ] {
        assert!(matches!(
            concluded(&NonceCheck::Skip, heard(json)),
            Err(ClaimsVerificationError::Other(report)) if report == expected
        ));
    }
    assert!(matches!(
        concluded(&bound, Err(ClaimsVerificationError::Expired("late".to_string()))),
        Err(ClaimsVerificationError::Expired(report)) if report == "late"
    ));
}
