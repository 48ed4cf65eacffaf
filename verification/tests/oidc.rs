//! Configuration, claim mapping, error classification and the parts of the login flow.
use authn_kit::json::{read_object, text_of};
use authn_kit::mechanisms::bearer::is_compact_jws;
use authn_kit::oidc::claims::IdTokenClaims;
use authn_kit::oidc::error::{
    is_possibly_stale_keys, DiscoveryError, TokenErrorCode, TokenExchangeError,
};
use authn_kit::oidc::provider::{require_nonce_present, skip_nonce_check};
use authn_kit::oidc::{
    discovered_introspection_endpoint, identity_from_id_token_claims, CallbackParams,
    CookieSettings, IdTokenCodec, IntrospectionMetadata, OidcConfig, OidcConfigError, OidcProvider,
    ProtectionData, RedirectPolicy, Session, SessionCodec,
};
use authn_kit::time::{Duration, SystemTime};
use authn_kit::{AuthError, ClaimSource, ClaimValue, CookieDirective, SecretString};
use base64::engine::general_purpose::URL_SAFE_NO_PAD;
use base64::Engine;
use openidconnect::{ClaimsVerificationError, SignatureVerificationError};

// ------------------------------------------------------------------- config

#[test]
fn config_rejects_a_malformed_issuer_url() {
    let error = OidcConfig::new("not a url", "client", "https://app.example/callback")
        .unwrap_err();
    assert!(matches!(error, OidcConfigError::IssuerUrl(_)));
    assert_eq!(
        error.to_string(),
        "invalid issuer url: relative URL without a base"
    );
}

#[test]
fn config_rejects_a_malformed_redirect_url() {
    let error =
        OidcConfig::new("https://idp.example", "client", "not a url").unwrap_err();
    assert!(matches!(error, OidcConfigError::RedirectUrl(_)));
    assert_eq!(
        error.to_string(),
        "invalid redirect url: relative URL without a base"
    );
}

fn config() -> OidcConfig {
    OidcConfig::new("https://idp.example", "client", "https://app.example/cb").unwrap()
}

/// OIDC Core requires the `openid` scope on the authorization request.
#[test]
fn config_requests_openid_by_default() {
    let config = config();

    let scopes: Vec<&str> = config.scopes().iter().map(|s| s.as_str()).collect();
    assert!(scopes.contains(&"openid"), "got {scopes:?}");
    assert!(scopes.contains(&"email"));
    assert!(scopes.contains(&"profile"));
}

/// OAuth 2.1 requires PKCE of all clients, confidential ones included.
#[test]
fn config_enables_pkce_by_default() {
    let config = config();
    assert!(config.uses_pkce());
    assert!(!config.with_pkce(false).uses_pkce());
}

#[test]
fn config_scopes_and_refresh_interval_are_overridable() {
    let config = config()
        .with_scopes(vec!["openid".to_string(), "groups".to_string()])
        .with_min_refresh_interval(Duration::from_secs(5));

    let scopes: Vec<&str> = config.scopes().iter().map(|s| s.as_str()).collect();
    assert_eq!(scopes, vec!["openid", "groups"]);
    assert_eq!(config.min_refresh_interval(), Duration::from_secs(5));
}

#[test]
fn config_keeps_what_it_was_made_with() {
    let config = config().with_client_secret("s3cret").clone();
    assert_eq!(config.issuer_url().as_str(), "https://idp.example");
    assert_eq!(config.redirect_url().as_str(), "https://app.example/cb");
    assert_eq!(config.client_id(), "client");
    assert_eq!(config.client_secret(), Some("s3cret"));
    assert_eq!(config.min_refresh_interval(), Duration::from_secs(30));
    assert!(!format!("{config:?}").contains("s3cret"));
}

#[test]
fn refreshes_are_debounced() {
    let provider = OidcProvider::new(config());
    assert_eq!(provider.config().client_id(), "client");
    assert!(!provider.refresh_due(&Duration::new(29, 999_999_999)));
    assert!(provider.refresh_due(&Duration::from_secs(30)));
    assert!(!provider.refresh_still_due(true, &Duration::from_secs(90)));
    assert!(provider.refresh_still_due(false, &Duration::from_secs(90)));
    assert!(!provider.refresh_still_due(false, &Duration::from_secs(9)));
}

// ------------------------------------------------------------ claim mapping

const STANDARD_CLAIMS: &str = r#"{
    "iss": "https://idp.example",
    "aud": ["client-id"],
    "exp": 1800000000,
    "iat": 1799996400,
    "sub": "sub-123",
    "email": "alice@example.com",
    "preferred_username": "alice",
    "name": "Alice Example"
}"#;

/// The claims of an ID token, as the provider's library reads them.
fn id_token_claims(json: &str) -> IdTokenClaims {
    let claims: openidconnect::core::CoreIdTokenClaims = serde_json::from_str(json).unwrap();
    let members = serde_json::to_vec(&claims).unwrap();
    let found = IdTokenClaims::from_members(read_object(&members).unwrap().unwrap()).unwrap();

    assert_eq!(found.subject, claims.subject().as_str());
    assert_eq!(found.expiration, claims.expiration().timestamp());
    assert_eq!(found.email.as_deref(), claims.email().map(|email| email.as_str()));
    assert_eq!(
        found.preferred_username.as_deref(),
        claims.preferred_username().map(|name| name.as_str())
    );
    assert_eq!(
        found.name.as_deref(),
        claims.name().and_then(|name| name.get(None)).map(|name| name.as_str())
    );
    found
}

#[test]
fn a_token_without_a_subject_has_no_claims() {
    let members = read_object(br#"{"exp":5,"email":"a@b"}"#).unwrap().unwrap();
    assert!(IdTokenClaims::from_members(members).is_none());

    let members = read_object(br#"{"sub":"s","exp":-5}"#).unwrap().unwrap();
    assert_eq!(IdTokenClaims::from_members(members).unwrap().expiration, 0);
}

#[test]
fn maps_standard_claims_onto_identity_claims() {
    let identity = identity_from_id_token_claims(id_token_claims(STANDARD_CLAIMS));

    assert_eq!(identity.source, ClaimSource::IdToken);
    assert_eq!(identity.subject.as_deref(), Some("sub-123"));
    assert_eq!(identity.email.as_deref(), Some("alice@example.com"));
    assert_eq!(identity.preferred_username.as_deref(), Some("alice"));
    assert_eq!(identity.name.as_deref(), Some("Alice Example"));
    assert_eq!(
        identity.expires_at,
        Some(SystemTime::after_epoch(Duration::from_secs(1_800_000_000)))
    );
}

#[test]
fn preserves_every_claim_the_provider_sent() {
    let identity = identity_from_id_token_claims(id_token_claims(STANDARD_CLAIMS));

    assert!(matches!(
        identity.extra_claim("iss"),
        Some(ClaimValue::Text(iss)) if iss == "https://idp.example"
    ));
    assert!(matches!(
        identity.extra_claim("sub"),
        Some(ClaimValue::Text(sub)) if sub == "sub-123"
    ));
    assert!(matches!(
        identity.extra_claim("exp"),
        Some(ClaimValue::Number { unsigned: Some(1_800_000_000), .. })
    ));
    assert!(identity.extra_claim("aud").is_some());
}

#[test]
fn identity_falls_back_to_the_subject_when_no_username_is_present() {
    let identity = identity_from_id_token_claims(id_token_claims(
        r#"{
            "iss": "https://idp.example",
            "aud": ["client-id"],
            "exp": 1800000000,
            "iat": 1799996400,
            "sub": "sub-only"
        }"#,
    ));
    assert_eq!(identity.best_effort_username(), Some("sub-only"));
    assert_eq!(identity.email, None);
}

#[test]
fn an_expiry_before_the_epoch_is_clamped() {
    let identity = identity_from_id_token_claims(IdTokenClaims {
        subject: "s".to_string(),
        expiration: -5,
        email: None,
        preferred_username: None,
        name: None,
        members: None,
    });
    assert_eq!(
        identity.expires_at,
        Some(SystemTime::after_epoch(Duration::zero()))
    );
    assert!(identity.extra_claim("sub").is_none());
}

// ---------------------------------------------------- error classification
//
// Refreshing the keys must be attempted for exactly the failures fresh keys
// could change, and for no others.

#[test]
fn only_key_related_signature_failures_warrant_a_refresh() {
    let signature_cases = [
        (SignatureVerificationError::NoMatchingKey, true),
        (
            SignatureVerificationError::CryptoError("bad".into()),
            true,
        ),
        (
            SignatureVerificationError::AmbiguousKeyId("dup".into()),
            true,
        ),
        (SignatureVerificationError::NoSignature, false),
        (
            SignatureVerificationError::UnsupportedAlg("none".into()),
            false,
        ),
        (
            SignatureVerificationError::DisallowedAlg("HS256".into()),
            false,
        ),
        (
            SignatureVerificationError::InvalidKey("wrong type".into()),
            false,
        ),
        (
            SignatureVerificationError::Other("?".into()),
            false,
        ),
    ];

    for (inner, expected) in signature_cases {
        let rendered = format!("{inner:?}");
        let error = ClaimsVerificationError::SignatureVerification(inner);
        assert_eq!(is_possibly_stale_keys(&error), expected, "for {rendered}");
    }
}

#[test]
fn non_signature_failures_never_warrant_a_refresh() {
    let cases = [
        ClaimsVerificationError::Expired("yesterday".into()),
        ClaimsVerificationError::InvalidAudience("other".into()),
        ClaimsVerificationError::InvalidIssuer("other".into()),
        ClaimsVerificationError::InvalidNonce("mismatch".into()),
        ClaimsVerificationError::InvalidAuthTime("too old".into()),
        ClaimsVerificationError::Unsupported("encrypted".into()),
        ClaimsVerificationError::Other("?".into()),
    ];

    for error in cases {
        assert!(!is_possibly_stale_keys(&error), "for {error:?}");
    }
}

/// A rejected token is the client's problem; an unsupported token shape is a configuration
/// problem.
#[test]
fn verification_failures_map_to_client_facing_statuses() {
    assert_eq!(
        AuthError::from(ClaimsVerificationError::Expired("x".into())).status(),
        401
    );
    assert_eq!(
        AuthError::from(ClaimsVerificationError::InvalidAudience("x".into())).status(),
        401
    );
    assert_eq!(
        AuthError::from(ClaimsVerificationError::InvalidNonce("x".into())).status(),
        401
    );
    assert_eq!(
        AuthError::from(ClaimsVerificationError::Unsupported("x".into())).status(),
        501
    );
    // Never a service fault: none of these implicate the service's infrastructure.
    assert!(
        !AuthError::from(ClaimsVerificationError::Expired("x".into())).is_service_fault()
    );
}

#[test]
fn verification_failures_are_described() {
    let cases = [
        (ClaimsVerificationError::Expired("x".into()), "token expired: x"),
        (ClaimsVerificationError::InvalidAudience("x".into()), "wrong audience: x"),
        (ClaimsVerificationError::InvalidIssuer("x".into()), "wrong issuer: x"),
        (ClaimsVerificationError::InvalidNonce("x".into()), "nonce mismatch: x"),
        (
            ClaimsVerificationError::InvalidAuthTime("x".into()),
            "authentication too old: x",
        ),
        (
            ClaimsVerificationError::SignatureVerification(
                SignatureVerificationError::CryptoError("x".into()),
            ),
            "signature verification: Crypto error: x",
        ),
        (ClaimsVerificationError::Unsupported("x".into()), "unsupported token: x"),
        (ClaimsVerificationError::Other("x".into()), "claims verification: x"),
        (
            ClaimsVerificationError::InvalidSubject("x".into()),
            "claims verification: Invalid subject: x",
        ),
        (
            ClaimsVerificationError::InvalidAuthContext("x".into()),
            "claims verification: Invalid authorization context class reference: x",
        ),
    ];
    for (error, detail) in cases {
        assert_eq!(AuthError::from(error).detail(), detail);
    }
}

#[test]
fn signature_failures_are_described() {
    let cases = [
        (SignatureVerificationError::AmbiguousKeyId("x".into()), "Ambiguous key identification: x"),
        (SignatureVerificationError::CryptoError("x".into()), "Crypto error: x"),
        (SignatureVerificationError::DisallowedAlg("x".into()), "Disallowed signature algorithm: x"),
        (SignatureVerificationError::InvalidKey("x".into()), "Invalid cryptographic key: x"),
        (SignatureVerificationError::NoMatchingKey, "No matching key found"),
        (SignatureVerificationError::NoSignature, "No signature found"),
        (
            SignatureVerificationError::UnsupportedAlg("x".into()),
            "Unsupported signature algorithm: x",
        ),
        (SignatureVerificationError::Other("x".into()), "Other error: x"),
    ];
    for (cause, report) in cases {
        let error = AuthError::from(ClaimsVerificationError::SignatureVerification(cause));
        assert_eq!(error.detail(), format!("signature verification: {report}"));
    }
}

#[test]
fn discovery_failures_are_service_faults() {
    let cases = [
        (DiscoveryError::UrlParse("x".into()), 500, "malformed discovery url: x"),
        (
            DiscoveryError::Parse("x".into()),
            503,
            "could not parse provider metadata: x",
        ),
        (DiscoveryError::Request("x".into()), 503, "discovery request failed: x"),
        (
            DiscoveryError::Response { status: "502 Bad Gateway".into(), report: "x".into() },
            503,
            "discovery endpoint returned status 502 Bad Gateway: x",
        ),
        (
            DiscoveryError::Validation("x".into()),
            503,
            "provider metadata failed validation: x",
        ),
        (DiscoveryError::Other("x".into()), 503, "discovery failed: x"),
    ];
    for (error, status, detail) in cases {
        let error = AuthError::from(error);
        assert_eq!(error.status(), status);
        assert_eq!(error.detail(), detail);
        assert!(error.is_service_fault());
    }
}

#[test]
fn exchange_failures_tell_whose_fault_they_are() {
    let cases = [
        (
            TokenExchangeError::ServerResponse(TokenErrorCode::UnsupportedGrantType),
            501,
            "the identity provider does not support this grant type",
        ),
        (
            TokenExchangeError::ServerResponse(TokenErrorCode::InvalidGrant),
            401,
            "credentials rejected by the provider",
        ),
        (
            TokenExchangeError::ServerResponse(TokenErrorCode::InvalidClient),
            401,
            "credentials rejected by the provider",
        ),
        (
            TokenExchangeError::ServerResponse(TokenErrorCode::UnauthorizedClient),
            401,
            "credentials rejected by the provider",
        ),
        (
            TokenExchangeError::ServerResponse(TokenErrorCode::Other("InvalidScope".into())),
            503,
            "token endpoint error: InvalidScope",
        ),
        (
            TokenExchangeError::NoEndpoint("x".into()),
            500,
            "provider advertises no token endpoint: x",
        ),
        (TokenExchangeError::Request("x".into()), 503, "token request failed: x"),
        (
            TokenExchangeError::Parse("x".into()),
            503,
            "could not parse token response: x",
        ),
        (TokenExchangeError::Other("x".into()), 503, "token exchange failed: x"),
    ];
    for (error, status, detail) in cases {
        let error = AuthError::from(error);
        assert_eq!(error.status(), status);
        assert_eq!(error.detail(), detail);
    }
}

// ----------------------------------------------------------------- metadata

/// A minimal but realistic discovery document, plus the RFC 8414 `introspection_endpoint` that OIDC
/// Core discovery does not define.
const DISCOVERY_DOC: &str = r#"{
    "issuer": "https://idp.example",
    "authorization_endpoint": "https://idp.example/authorize",
    "token_endpoint": "https://idp.example/token",
    "jwks_uri": "https://idp.example/jwks",
    "introspection_endpoint": "https://idp.example/introspect",
    "response_types_supported": ["code"],
    "subject_types_supported": ["public"],
    "id_token_signing_alg_values_supported": ["RS256"]
}"#;

fn metadata(document: &str) -> IntrospectionMetadata {
    let members = read_object(document.as_bytes()).unwrap().unwrap();
    IntrospectionMetadata {
        introspection_endpoint: text_of(&members, "introspection_endpoint"),
    }
}

#[test]
fn metadata_exposes_the_advertised_introspection_endpoint() {
    assert_eq!(
        discovered_introspection_endpoint(&metadata(DISCOVERY_DOC)).as_deref(),
        Some("https://idp.example/introspect")
    );
}

#[test]
fn metadata_without_introspection_still_parses() {
    let without = DISCOVERY_DOC.replace(
        "\"introspection_endpoint\": \"https://idp.example/introspect\",",
        "",
    );

    assert_eq!(discovered_introspection_endpoint(&metadata(&without)), None);
}

#[test]
fn an_advertised_introspection_endpoint_is_found() {
    let advertised = IntrospectionMetadata {
        introspection_endpoint: Some("https://idp.example/introspect".to_string()),
    };
    assert_eq!(
        discovered_introspection_endpoint(&advertised).as_deref(),
        Some("https://idp.example/introspect")
    );
    let silent = IntrospectionMetadata { introspection_endpoint: None };
    assert_eq!(discovered_introspection_endpoint(&silent), None);
}

// --------------------------------------------------------- redirect policy

#[test]
fn relative_policy_accepts_same_origin_paths() {
    let policy = RedirectPolicy::RelativeOnly;

    for destination in ["/", "/admin/organisations", "/a?b=c#d"] {
        assert!(
            policy.validate(destination).is_ok(),
            "rejected {destination:?}"
        );
    }
}

#[test]
fn relative_policy_rejects_every_way_out_of_the_origin() {
    let policy = RedirectPolicy::RelativeOnly;

    let attacks = [
        ("https://evil.example", "absolute url"),
        ("http://evil.example/x", "absolute url"),
        ("//evil.example", "protocol-relative"),
        ("//evil.example/path", "protocol-relative"),
        (r"/\evil.example", "backslash protocol-relative"),
        ("evil.example", "schemeless absolute"),
        (
            "/path\nLocation: https://evil.example",
            "header injection via newline",
        ),
        (
            "/path\rSet-Cookie: x=1",
            "header injection via carriage return",
        ),
    ];

    for (destination, why) in attacks {
        let error = policy
            .validate(destination)
            .expect_err(&format!("accepted {destination:?} ({why})"));
        assert_eq!(error.status(), 400);
    }
}

#[test]
fn allowlist_policy_accepts_listed_origins_and_relative_paths() {
    let policy = RedirectPolicy::Allowlist(vec!["https://app.example".to_string()]);

    for destination in [
        "https://app.example",
        "https://app.example/",
        "https://app.example/admin",
        "https://app.example?next=1",
        "/still-relative",
    ] {
        assert!(
            policy.validate(destination).is_ok(),
            "rejected {destination:?}"
        );
    }
}

/// Prefix matching without an origin boundary is the classic allow-list bypass:
/// `https://app.example.evil.com` starts with `https://app.example`.
#[test]
fn allowlist_policy_matches_on_an_origin_boundary() {
    let policy = RedirectPolicy::Allowlist(vec!["https://app.example".to_string()]);

    for destination in [
        "https://app.example.evil.com",
        "https://app.examplex/admin",
        "https://evil.example",
    ] {
        assert!(
            policy.validate(destination).is_err(),
            "accepted {destination:?}"
        );
    }
}

#[test]
fn rejections_quote_the_destination() {
    let detail = |policy: RedirectPolicy, destination: &str| {
        policy.validate(destination).unwrap_err().detail().to_string()
    };
    assert_eq!(
        detail(RedirectPolicy::default(), "a\tb"),
        "rejected login redirect \"a\\tb\": contains a control character"
    );
    assert_eq!(
        detail(RedirectPolicy::RelativeOnly, "//x"),
        "rejected login redirect \"//x\": protocol-relative url"
    );
    assert_eq!(
        detail(RedirectPolicy::RelativeOnly, ""),
        "rejected login redirect \"\": only relative paths are permitted"
    );
    assert_eq!(
        detail(RedirectPolicy::Allowlist(vec![]), "x"),
        "rejected login redirect \"x\": origin is not allow-listed"
    );
    // A listed origin may be written with trailing slashes.
    let policy = RedirectPolicy::Allowlist(vec!["https://app.example//".to_string()]);
    assert!(policy.validate("https://app.example#top").is_ok());
}

// ------------------------------------------------------------- callback

#[test]
fn parses_a_successful_callback() {
    let CallbackParams::Success { code, state } =
        CallbackParams::from_query("code=abc123&state=xyz789").unwrap()
    else {
        panic!("expected Success");
    };

    assert_eq!(code.expose_secret(), "abc123");
    assert_eq!(state.expose_secret(), "xyz789");
}

/// A user clicking "Deny" is an RFC 6749 section 4.1.2.1 error response, not a malformed request.
#[test]
fn parses_a_provider_error_callback() {
    let CallbackParams::Failure { error, description } = CallbackParams::from_query(
        "error=access_denied&error_description=The+user+denied+the+request",
    )
    .unwrap() else {
        panic!("expected Failure");
    };

    assert_eq!(error, "access_denied");
    assert_eq!(description.as_deref(), Some("The user denied the request"));
}

#[test]
fn percent_encoded_callback_values_are_decoded() {
    let CallbackParams::Success { code, .. } =
        CallbackParams::from_query("code=a%2Bb%2Fc&state=s").unwrap()
    else {
        panic!("expected Success");
    };

    assert_eq!(code.expose_secret(), "a+b/c");
}

#[test]
fn callback_without_code_or_error_is_rejected() {
    for query in ["", "state=only", "unrelated=1"] {
        let error =
            CallbackParams::from_query(query).expect_err(&format!("accepted {query:?}"));
        assert_eq!(error.status(), 400);
    }
}

#[test]
fn the_last_value_of_a_callback_parameter_counts() {
    let CallbackParams::Success { code, state } =
        CallbackParams::from_query("code=a&state=s&code=b").unwrap()
    else {
        panic!("expected Success");
    };
    assert_eq!(code.expose_secret(), "b");
    assert_eq!(state.expose_secret(), "s");

    let pairs = vec![
        ("code".to_string(), "c".to_string()),
        ("error".to_string(), "server_error".to_string()),
        ("state".to_string(), "s".to_string()),
    ];
    assert!(matches!(
        CallbackParams::from_pairs(&pairs).unwrap(),
        CallbackParams::Failure { error, description: None } if error == "server_error"
    ));
}

// ---------------------------------------------------------- protection data

fn protection() -> ProtectionData {
    ProtectionData {
        csrf: SecretString::from("csrf-value".to_string()),
        nonce: SecretString::from("nonce-value".to_string()),
        pkce_verifier: Some(SecretString::from("verifier-value".to_string())),
        destination: "/admin/organisations".to_string(),
    }
}

#[test]
fn protection_data_round_trips_through_a_cookie_value() {
    let decoded = ProtectionData::decode(&protection().encode()).unwrap();

    assert_eq!(decoded.csrf.expose_secret(), "csrf-value");
    assert_eq!(decoded.nonce.expose_secret(), "nonce-value");
    assert_eq!(
        decoded.pkce_verifier.as_ref().map(|verifier| verifier.expose_secret()),
        Some("verifier-value")
    );
    assert_eq!(decoded.destination, "/admin/organisations");
}

#[test]
fn protection_data_are_written_in_order() {
    let payload = URL_SAFE_NO_PAD.decode(protection().encode()).unwrap();
    assert_eq!(
        String::from_utf8(payload).unwrap(),
        r#"{"csrf":"csrf-value","nonce":"nonce-value","pkce_verifier":"verifier-value","destination":"/admin/organisations"}"#
    );

    let bare = ProtectionData {
        csrf: SecretString::from("a\"b".to_string()),
        nonce: SecretString::from("n".to_string()),
        pkce_verifier: None,
        destination: "/".to_string(),
    };
    assert_eq!(
        URL_SAFE_NO_PAD.decode(bare.encode()).unwrap(),
        br#"{"csrf":"a\"b","nonce":"n","pkce_verifier":null,"destination":"/"}"#
    );
}

/// The encoded value goes into a cookie verbatim, and RFC 6265 excludes `;`, `,`, space and `"`
/// from a cookie value.
#[test]
fn encoded_protection_data_is_cookie_safe() {
    let encoded = ProtectionData {
        csrf: SecretString::from("a+b/c=".to_string()),
        nonce: SecretString::from("n".to_string()),
        pkce_verifier: None,
        destination: "/x?y=z&w=1".to_string(),
    }
    .encode();

    for forbidden in [';', ',', ' ', '"', '='] {
        assert!(!encoded.contains(forbidden), "contains {forbidden:?}");
    }
    let decoded = ProtectionData::decode(&encoded).unwrap();
    assert_eq!(decoded.csrf.expose_secret(), "a+b/c=");
    assert!(decoded.pkce_verifier.is_none());
}

#[test]
fn a_corrupt_protection_cookie_is_rejected_as_unauthenticated() {
    for raw in ["not-base64!!!", "", "YWJj"] {
        let error =
            ProtectionData::decode(raw).expect_err(&format!("accepted {raw:?}"));
        assert_eq!(error.status(), 401);
    }
}

#[test]
fn every_field_of_the_protection_data_is_needed() {
    let read = |json: &str| {
        let members = read_object(json.as_bytes()).unwrap().unwrap();
        ProtectionData::from_members(&members)
    };
    let detail = |json: &str| read(json).unwrap_err().detail().to_string();
    assert_eq!(
        detail(r#"{"nonce":"n","destination":"/"}"#),
        "bad protection cookie payload: missing field `csrf`"
    );
    assert_eq!(
        detail(r#"{"csrf":"c","destination":"/"}"#),
        "bad protection cookie payload: missing field `nonce`"
    );
    assert_eq!(
        detail(r#"{"csrf":"c","nonce":"n"}"#),
        "bad protection cookie payload: missing field `destination`"
    );
    assert_eq!(
        detail(r#"{"csrf":"c","nonce":"n","destination":"/","pkce_verifier":1}"#),
        "bad protection cookie payload: field `pkce_verifier` is not a string"
    );
    assert_eq!(
        detail(r#"{"csrf":null,"nonce":"n","destination":"/"}"#),
        "bad protection cookie payload: field `csrf` is not a string"
    );
    assert_eq!(
        detail(r#"{"csrf":"c","nonce":["n"],"destination":"/"}"#),
        "bad protection cookie payload: field `nonce` is not a string"
    );
    assert_eq!(
        detail(r#"{"csrf":"c","nonce":"n","destination":7}"#),
        "bad protection cookie payload: field `destination` is not a string"
    );
    let data = read(r#"{"csrf":"c","nonce":"n","destination":"/","other":true}"#).unwrap();
    assert!(data.pkce_verifier.is_none());
    assert_eq!(data.destination, "/");
}

// -------------------------------------------------------------- cookies

#[test]
fn protection_cookie_is_short_lived_and_script_inaccessible() {
    let rendered = CookieSettings::protection("authn_protection")
        .set("payload")
        .to_string();

    assert!(rendered.starts_with("authn_protection=payload"));
    assert!(rendered.contains("Max-Age=600"));
    assert!(rendered.contains("HttpOnly"));
    assert!(rendered.contains("Secure"));
}

/// `SameSite=Lax`, not `Strict`: the provider returns the user by a cross-site top-level
/// navigation, and `Strict` withholds cookies on exactly that.
#[test]
fn login_cookies_use_lax_same_site_so_the_callback_carries_them() {
    assert!(
        CookieSettings::protection("p")
            .set("v")
            .to_string()
            .contains("SameSite=Lax")
    );
    assert!(
        CookieSettings::session("s")
            .set("v")
            .to_string()
            .contains("SameSite=Lax")
    );
}

#[test]
fn session_cookie_secure_flag_can_be_relaxed_for_local_http() {
    let rendered = CookieSettings::session("session")
        .with_secure(false)
        .set("token")
        .to_string();

    assert!(!rendered.contains("Secure"));
    assert!(rendered.contains("HttpOnly"));
}

#[test]
fn clearing_a_cookie_targets_the_same_path() {
    let settings = CookieSettings::session("session").with_path("/app");
    let cleared: CookieDirective = settings.clear();

    let rendered = cleared.to_string();
    assert!(rendered.starts_with("session="));
    assert!(rendered.contains("Path=/app"));
    assert!(rendered.contains("Max-Age=0"));
}

#[test]
fn cookie_settings_are_rendered_in_full() {
    let settings = CookieSettings::session("s")
        .with_domain(Some("example.com".to_string()))
        .with_max_age(Duration::from_secs(60))
        .with_same_site(None)
        .clone();
    assert_eq!(
        settings.set("v").to_string(),
        "s=v; Path=/; Domain=example.com; Max-Age=60; HttpOnly; Secure"
    );
    assert_eq!(
        CookieSettings::session("s").set("v").to_string(),
        "s=v; Path=/; Max-Age=86400; HttpOnly; Secure; SameSite=Lax"
    );
}

// -------------------------------------------------------------- codec

#[test]
fn id_token_codec_round_trips() {
    let codec = IdTokenCodec;
    let session = Session {
        id_token: "header.payload.sig".to_string(),
        expires_at: None,
    };

    let encoded = codec.encode(&session).unwrap();
    assert_eq!(encoded, "header.payload.sig");
    assert_eq!(
        codec.decode(&encoded).unwrap().id_token,
        "header.payload.sig"
    );
}

#[test]
fn id_token_codec_rejects_an_empty_cookie() {
    assert_eq!(IdTokenCodec.decode("").unwrap_err().status(), 401);
}

// -------------------------------------------------------------- nonces, shape

#[test]
fn a_nonce_may_be_required_or_ignored() {
    assert_eq!(require_nonce_present(Some("n")), Ok(()));
    assert_eq!(
        require_nonce_present(None),
        Err("missing nonce claim".to_string())
    );
    assert_eq!(skip_nonce_check(None), Ok(()));
    assert_eq!(skip_nonce_check(Some("n")), Ok(()));
}

/// Anything that is not a compact JWS must be declined, never rejected.
#[test]
fn jwt_shape_detection_is_strict() {
    assert!(is_compact_jws("header.payload.signature"));
    assert!(is_compact_jws("a.b.c"));

    for not_a_jwt in [
        "sptok_abc123", // an API key
        "opaque-token", // an opaque session handle
        "a.b",          // two segments
        "a.b.c.d",      // four segments
        "a..c",         // empty middle segment
        ".b.c",
        "a.b.",
        "",
    ] {
        assert!(!is_compact_jws(not_a_jwt), "accepted {not_a_jwt:?}");
    }
}

#[test]
fn a_copied_policy_permits_the_same() {
    let policy = RedirectPolicy::Allowlist(vec!["https://app.example".to_string()]).clone();

    assert!(policy.validate("https://app.example/x").is_ok());
    assert!(policy.validate("https://app.example.evil/x").is_err());
    assert!(RedirectPolicy::default().clone().validate("https://app.example/x").is_err());
}
