//! Static tokens, the disabled authenticator, and the credential cache.
use std::sync::Mutex;

use authn_kit::cache::{DEFAULT_FALLBACK_TTL, DEFAULT_MAX_ENTRIES, DEFAULT_REFRESH_MARGIN};
use authn_kit::mechanisms::api_token::{
    StaticTokenError, StaticTokenSpec, TokenStep, TokenValidator,
};
use authn_kit::time::Duration;
use authn_kit::{
    ApiTokenAuthenticator, AuthChain, AuthContext, AuthError, AuthProfile, AuthRequest, AuthScope,
    Authenticator, CacheConfig, ChainStep, ClaimSource, Credential, CredentialCache,
    DisabledAuthenticator, IdentityClaims, Outcome, SecretString, Verdict,
};

#[derive(Clone, Debug, PartialEq, Eq)]
struct User {
    email: String,
    username: String,
}

impl TryFrom<IdentityClaims> for User {
    type Error = String;

    fn try_from(claims: IdentityClaims) -> Result<Self, Self::Error> {
        Ok(Self {
            email: claims.email.clone().ok_or("email claim not found")?,
            username: claims
                .best_effort_username()
                .ok_or("no identity")?
                .to_string(),
        })
    }
}

#[derive(Clone, Debug, PartialEq, Eq, Hash)]
enum Scope {
    Global,
    Tenant(String),
}

impl AuthScope for Scope {
    fn label(&self) -> String {
        match self {
            Self::Global => "global".to_string(),
            Self::Tenant(id) => format!("tenant_{id}"),
        }
    }

    fn cache_discriminator(&self) -> Option<&str> {
        match self {
            Self::Global => None,
            Self::Tenant(id) => Some(id),
        }
    }
}

struct TestApp;

impl AuthProfile for TestApp {
    type User = User;
    type Scope = Scope;
}

/// A validator that is never asked.
struct NoValidator;

impl TokenValidator for NoValidator {
    fn name(&self) -> &'static str {
        "none"
    }
}

type ApiTokens = ApiTokenAuthenticator<TestApp, NoValidator>;

const TOKENS: &str = r#"[
    {"token": "unscoped-secret", "principal": "svc-any"},
    {"token": "acme-secret", "principal": "svc-acme", "email": "acme@example.com",
     "scopes": ["acme"]},
    {"token": "multi-secret", "principal": "svc-multi", "scopes": ["acme", "globex"]}
]"#;

/// Reads a token list.
fn specs(json: &str) -> Result<Vec<StaticTokenSpec>, String> {
    let list: Vec<serde_json::Value> =
        serde_json::from_str(json).map_err(|error| error.to_string())?;
    let text = |value: &serde_json::Value, name: &str| {
        value.get(name).and_then(|v| v.as_str()).map(str::to_string)
    };
    list.iter()
        .map(|entry| {
            Ok(StaticTokenSpec {
                token: text(entry, "token").ok_or("missing field `token`")?,
                principal: text(entry, "principal").ok_or("missing field `principal`")?,
                email: text(entry, "email"),
                scopes: entry.get("scopes").and_then(|v| v.as_array()).map(|scopes| {
                    scopes
                        .iter()
                        .filter_map(|scope| scope.as_str().map(str::to_string))
                        .collect()
                }),
            })
        })
        .collect()
}

fn authenticator() -> ApiTokens {
    ApiTokens::from_json("sptok_", TOKENS, specs).ok().unwrap()
}

fn bearer(value: &str) -> Credential {
    Credential::Bearer(SecretString::from(value.to_string()))
}

fn run(
    auth: &mut ApiTokens,
    credential: &Credential,
    scope: &Scope,
) -> Result<Verdict<User>, AuthError> {
    let request = AuthRequest::default();
    let ctx = AuthContext::new(&request, credential, scope);
    match auth.begin(&ctx, Duration::zero()) {
        TokenStep::Answered(answer) => answer,
        TokenStep::Validate(_) => panic!("nobody to ask"),
    }
}

// ------------------------------------------------------------ static tokens

#[test]
fn matches_an_unscoped_token_in_any_scope() {
    let mut auth = authenticator();

    for scope in [
        Scope::Global,
        Scope::Tenant("acme".into()),
        Scope::Tenant("x".into()),
    ] {
        let verdict = run(&mut auth, &bearer("sptok_unscoped-secret"), &scope).unwrap();
        assert_eq!(
            verdict,
            Verdict::Authenticated(User {
                email: "svc-any".into(),
                username: "svc-any".into(),
            }),
            "in {}",
            scope.label()
        );
    }
}

#[test]
fn email_defaults_to_the_principal() {
    // `svc-acme` declares an email; `svc-any` does not and falls back.
    let specs = specs(TOKENS).unwrap();
    assert_eq!(specs[0].email, None);
    assert_eq!(specs[1].email.as_deref(), Some("acme@example.com"));

    let mut auth = ApiTokens::new("sptok_", specs).ok().unwrap();
    let acme = Scope::Tenant("acme".into());
    assert_eq!(
        run(&mut auth, &bearer("sptok_acme-secret"), &acme).unwrap(),
        Verdict::Authenticated(User {
            email: "acme@example.com".into(),
            username: "svc-acme".into(),
        })
    );
}

#[test]
fn scoped_token_is_confined_to_its_scopes() {
    let mut auth = authenticator();
    let credential = bearer("sptok_acme-secret");

    let verdict = run(&mut auth, &credential, &Scope::Tenant("acme".into())).unwrap();
    assert!(matches!(verdict, Verdict::Authenticated(_)));

    // Another tenant, and the global scope, must both be refused.
    for scope in [Scope::Tenant("globex".into()), Scope::Global] {
        let error = run(&mut auth, &credential, &scope).unwrap_err();
        assert_eq!(error.status(), 401, "in {}", scope.label());
    }
}

#[test]
fn a_token_may_list_several_scopes() {
    let mut auth = authenticator();
    let credential = bearer("sptok_multi-secret");

    for scope in [Scope::Tenant("acme".into()), Scope::Tenant("globex".into())] {
        assert!(
            matches!(
                run(&mut auth, &credential, &scope),
                Ok(Verdict::Authenticated(_))
            ),
            "in {}",
            scope.label()
        );
    }
    assert!(run(&mut auth, &credential, &Scope::Tenant("other".into())).is_err());
}

/// A bearer token without the prefix belongs to another mechanism, so this authenticator must
/// decline and not reject: otherwise registering it before an OIDC authenticator would break every
/// OIDC bearer token.
#[test]
fn declines_bearer_tokens_without_the_prefix() {
    let mut auth = authenticator();

    for value in [
        "eyJhbGciOiJSUzI1NiJ9.payload.sig",
        "other_prefix-secret",
        "",
    ] {
        let verdict = run(&mut auth, &bearer(value), &Scope::Global).unwrap();
        assert_eq!(verdict, Verdict::NotApplicable, "for {value:?}");
    }
}

#[test]
fn declines_credentials_that_are_not_bearer() {
    let mut auth = authenticator();
    let credentials = [
        Credential::Absent,
        Credential::Basic {
            id: "a".into(),
            secret: SecretString::from("b".to_string()),
        },
        Credential::Other {
            scheme: "internal".into(),
            value: SecretString::from("t".to_string()),
        },
    ];

    for credential in credentials {
        assert_eq!(
            run(&mut auth, &credential, &Scope::Global).unwrap(),
            Verdict::NotApplicable
        );
    }
}

/// The prefix marks the token as an API key, so a non-matching key is a bad API key.
#[test]
fn a_prefixed_but_unknown_token_is_rejected_rather_than_passed_on() {
    let mut auth = authenticator();

    let error = run(&mut auth, &bearer("sptok_wrong"), &Scope::Global).unwrap_err();
    assert_eq!(error.status(), 401);
    assert_eq!(
        error.detail(),
        "no static token matches the presented api key for this scope"
    );
}

#[test]
fn a_near_miss_does_not_authenticate() {
    let mut auth = authenticator();

    for value in [
        "sptok_unscoped-secre",   // one byte short
        "sptok_unscoped-secretX", // one byte long
        "sptok_Unscoped-secret",  // case differs
    ] {
        assert!(
            run(&mut auth, &bearer(value), &Scope::Global).is_err(),
            "{value}"
        );
    }
}

/// A user type that no claims describe.
#[derive(Clone)]
struct Never;

impl TryFrom<IdentityClaims> for Never {
    type Error = String;

    fn try_from(_: IdentityClaims) -> Result<Self, String> {
        Err("no such user".to_string())
    }
}

struct NeverApp;

impl AuthProfile for NeverApp {
    type User = Never;
    type Scope = Scope;
}

#[test]
fn an_unconvertible_static_principal_is_an_internal_fault() {
    let mut auth =
        ApiTokenAuthenticator::<NeverApp, NoValidator>::from_json("sptok_", TOKENS, specs)
            .ok()
            .unwrap();
    let request = AuthRequest::default();
    let credential = bearer("sptok_unscoped-secret");
    let ctx = AuthContext::new(&request, &credential, &Scope::Global);
    let TokenStep::Answered(Err(error)) = auth.begin(&ctx, Duration::zero()) else {
        panic!("expected a failure");
    };
    assert_eq!(error.status(), 500);
    assert_eq!(
        error.detail(),
        "static token principal could not be converted: no such user"
    );
}

// ------------------------------------------------------------ construction

#[test]
fn a_malformed_token_list_fails_construction() {
    let error = ApiTokens::from_json("sptok_", "{not an array}", specs).err().unwrap();
    assert!(matches!(error, StaticTokenError::Malformed(_)));
    assert!(error.to_string().starts_with(
        "static token list must be a JSON array of {\"token\", \"principal\"[, \"email\", \"scopes\"]}: "
    ));
}

#[test]
fn an_empty_token_list_is_permitted() {
    let auth = ApiTokens::from_json("sptok_", "  ", |_| panic!("nothing to parse"))
        .ok()
        .unwrap();
    assert_eq!(auth.token_count(), 0);
    assert_eq!(auth.prefix(), "sptok_");
}

#[test]
fn mechanisms_an_empty_prefix_is_rejected() {
    let error = ApiTokens::from_json("", TOKENS, specs).err().unwrap();
    assert!(matches!(error, StaticTokenError::EmptyPrefix));
    assert_eq!(error.to_string(), "static token prefix must not be empty");
}

#[test]
fn an_empty_token_value_is_rejected() {
    let error = ApiTokens::from_json("sptok_", r#"[{"token": "", "principal": "svc"}]"#, specs)
        .err()
        .unwrap();
    assert_eq!(
        error.to_string(),
        "static token for principal \"svc\" has an empty token value"
    );
    assert!(matches!(error, StaticTokenError::EmptyToken(p) if p == "svc"));
}

// -------------------------------------------------------------- chain order

enum Either {
    Api(Mutex<ApiTokens>),
    JwtShaped,
}

impl Authenticator<TestApp> for Either {
    fn name(&self) -> &'static str {
        match self {
            Either::Api(api) => api.lock().unwrap().name(),
            Either::JwtShaped => "jwt-shaped",
        }
    }
}

impl Either {
    fn authenticate(&self, ctx: &AuthContext<'_, TestApp>) -> Result<Verdict<User>, AuthError> {
        match self {
            Either::Api(api) => match api.lock().unwrap().begin(ctx, Duration::zero()) {
                TokenStep::Answered(answer) => answer,
                TokenStep::Validate(_) => panic!("nobody to ask"),
            },
            // Only claims things that look like a JWT.
            Either::JwtShaped => match ctx.credential {
                Credential::Bearer(t) if t.expose_secret().split('.').count() == 3 => {
                    Ok(Verdict::Authenticated(User {
                        email: "jwt@example.com".into(),
                        username: "jwt".into(),
                    }))
                }
                _ => Ok(Verdict::NotApplicable),
            },
        }
    }
}

/// Because the prefix disambiguates, a static-token authenticator can sit either side of a bearer
/// authenticator without changing the outcome.
#[test]
fn prefix_makes_chain_order_irrelevant() {
    let api_key = bearer("sptok_unscoped-secret");
    let jwt = bearer("header.payload.signature");

    for static_first in [true, false] {
        let api = Either::Api(Mutex::new(authenticator()));
        let chain: AuthChain<TestApp, Either> = if static_first {
            AuthChain::new().with(api).with(Either::JwtShaped)
        } else {
            AuthChain::new().with(Either::JwtShaped).with(api)
        };
        let authenticate = |credential: &Credential| {
            let request = AuthRequest::default();
            let ctx = AuthContext::new(&request, credential, &Scope::Global);
            let mut step = chain.begin(credential, &Scope::Global);
            loop {
                match step {
                    ChainStep::Decided(decision) => return decision,
                    ChainStep::Consult(consultation) => {
                        let answer =
                            chain.authenticator(&consultation).unwrap().authenticate(&ctx);
                        step = chain.resume(consultation, answer);
                    }
                }
            }
        };

        assert_eq!(
            authenticate(&api_key).unwrap(),
            Outcome::Authenticated(User {
                email: "svc-any".into(),
                username: "svc-any".into()
            }),
            "static_first={static_first}"
        );
        assert_eq!(
            authenticate(&jwt).unwrap(),
            Outcome::Authenticated(User {
                email: "jwt@example.com".into(),
                username: "jwt".into()
            }),
            "static_first={static_first}"
        );
    }
}

// ---------------------------------------------------------------- disabled

#[test]
fn disabled_authenticator_authenticates_everything() {
    let auth = DisabledAuthenticator::<TestApp>::development();
    let request = AuthRequest::default();

    let verdict = auth
        .authenticate(&AuthContext::new(&request, &Credential::Absent, &Scope::Global))
        .unwrap();

    let Verdict::Authenticated(user) = verdict else {
        panic!("expected Authenticated");
    };
    // Conspicuously named, so it cannot be mistaken for a real principal in an audit log.
    assert_eq!(user.username, "authn-disabled");
    assert_eq!(user.email, "authn-disabled@invalid");
    assert_eq!(auth.name(), "disabled");
}

#[test]
fn disabled_authenticator_reports_an_unconvertible_identity() {
    // No email claim, and this fixture's `TryFrom` requires one.
    let auth = DisabledAuthenticator::<TestApp>::new(
        IdentityClaims::new(ClaimSource::StaticToken).with_subject("x"),
    );
    let request = AuthRequest::default();

    let error = auth
        .authenticate(&AuthContext::new(&request, &Credential::Absent, &Scope::Global))
        .unwrap_err();

    assert_eq!(error.status(), 500);
    assert_eq!(
        error.detail(),
        "disabled-auth identity could not be converted: email claim not found"
    );
}

// ------------------------------------------------------------------- cache

fn alice() -> User {
    User {
        email: "alice@example.com".into(),
        username: "alice".into(),
    }
}

fn now() -> Duration {
    Duration::from_secs(1_000)
}

fn minute() -> Option<Duration> {
    Some(Duration::from_secs(60))
}

fn cache() -> CredentialCache<User> {
    CredentialCache::new(CacheConfig {
        refresh_margin: Duration::zero(),
        fallback_ttl: Duration::from_secs(60),
        max_entries: 4,
    })
}

#[test]
fn cache_round_trips_a_principal() {
    let mut cache = cache();
    let key = CredentialCache::<User>::key(None, "basic", "alice", "secret");

    assert_eq!(cache.get(&key, now()), None);
    cache.insert(key.clone(), alice(), minute(), now());
    assert_eq!(cache.get(&key, now()), Some(alice()));
}

/// Every component of the key must separate entries.
#[test]
fn every_key_component_separates_entries() {
    let mut cache = cache();
    let base = CredentialCache::<User>::key(Some("acme"), "basic", "alice", "secret");
    cache.insert(base.clone(), alice(), minute(), now());

    let variants = [
        CredentialCache::<User>::key(Some("globex"), "basic", "alice", "secret"),
        CredentialCache::<User>::key(None, "basic", "alice", "secret"),
        CredentialCache::<User>::key(Some("acme"), "api-token", "alice", "secret"),
        CredentialCache::<User>::key(Some("acme"), "basic", "bob", "secret"),
        CredentialCache::<User>::key(Some("acme"), "basic", "alice", "rotated"),
    ];

    for variant in variants {
        assert_ne!(variant, base);
        assert_eq!(cache.get(&variant, now()), None);
    }
    assert_eq!(cache.get(&base, now()), Some(alice()));
}

/// A token expiring sooner than the safety margin is not worth caching.
#[test]
fn a_token_expiring_within_the_safety_margin_is_not_cached() {
    let mut cache = CredentialCache::<User>::new(CacheConfig {
        refresh_margin: Duration::from_secs(30),
        ..CacheConfig::default()
    });
    let key = CredentialCache::<User>::key(None, "basic", "alice", "secret");

    cache.insert(key.clone(), alice(), Some(Duration::from_secs(10)), now());

    assert_eq!(cache.get(&key, now()), None);
    assert!(cache.is_empty());
}

#[test]
fn cache_is_bounded() {
    let mut cache = cache();

    for index in 0..50 {
        let key =
            CredentialCache::<User>::key(None, "basic", &format!("user-{index}"), "secret");
        cache.insert(key, alice(), minute(), now());
    }

    assert!(cache.len() <= 4, "cache grew to {}", cache.len());
}

/// Under pressure the cache must keep serving its hot credentials.
#[test]
fn eviction_keeps_the_most_recently_used() {
    let mut cache = cache(); // max_entries = 4
    let hot = CredentialCache::<User>::key(None, "basic", "hot", "secret");

    cache.insert(hot.clone(), alice(), minute(), now());
    for name in ["cold-a", "cold-b", "cold-c"] {
        let key = CredentialCache::<User>::key(None, "basic", name, "secret");
        cache.insert(key, alice(), minute(), now());
    }

    // Touch the hot entry so it is the most recently used.
    assert_eq!(cache.get(&hot, now()), Some(alice()));

    // Two more inserts force two evictions.
    for name in ["new-a", "new-b"] {
        let key = CredentialCache::<User>::key(None, "basic", name, "secret");
        cache.insert(key, alice(), minute(), now());
    }

    assert_eq!(cache.get(&hot, now()), Some(alice()), "the hot entry was evicted");
    assert!(cache.len() <= 4);
}

#[test]
fn re_inserting_an_existing_key_does_not_evict() {
    let mut cache = cache();
    let keys: Vec<_> = ["a", "b", "c", "d"]
        .iter()
        .map(|name| CredentialCache::<User>::key(None, "basic", name, "secret"))
        .collect();
    for key in &keys {
        cache.insert(key.clone(), alice(), minute(), now());
    }

    // Refreshing an entry already present must not push anything out.
    cache.insert(keys[0].clone(), alice(), minute(), now());

    for key in &keys {
        assert_eq!(cache.get(key, now()), Some(alice()));
    }
}

#[test]
fn an_entry_can_be_invalidated() {
    let mut cache = cache();
    let key = CredentialCache::<User>::key(None, "basic", "alice", "secret");
    cache.insert(key.clone(), alice(), minute(), now());

    cache.invalidate(&key);

    assert_eq!(cache.get(&key, now()), None);
}

#[test]
fn an_entry_lives_for_its_lifetime_less_the_margin() {
    let mut cache = CredentialCache::<User>::default();
    let key = CredentialCache::<User>::key(None, "basic", "alice", "secret");
    cache.insert(key.clone(), alice(), minute(), now());

    // 60 seconds less the margin of 30.
    let last = Duration::new(1_029, 999_999_999);
    assert_eq!(cache.get(&key, last), Some(alice()));
    assert_eq!(cache.get(&key, Duration::from_secs(1_030)), None);
    assert_eq!(cache.len(), 1);

    // Without a reported lifetime the fallback of 60 seconds counts, without the margin.
    let other = CredentialCache::<User>::key(None, "basic", "bob", "secret");
    cache.insert(other.clone(), alice(), None, now());
    assert_eq!(cache.get(&other, Duration::new(1_059, 999_999_999)), Some(alice()));
    assert_eq!(cache.get(&other, Duration::from_secs(1_060)), None);
}

#[test]
fn a_fallback_no_longer_than_the_margin_still_caches() {
    let mut cache = CredentialCache::<User>::new(CacheConfig {
        refresh_margin: Duration::from_secs(30),
        fallback_ttl: Duration::from_secs(30),
        max_entries: 4,
    });
    let key = CredentialCache::<User>::key(None, "basic", "alice", "secret");
    cache.insert(key.clone(), alice(), None, now());

    assert_eq!(cache.len(), 1);
    assert_eq!(cache.get(&key, now()), Some(alice()));
    assert_eq!(cache.get(&key, Duration::from_secs(1_030)), None);
}

#[test]
fn a_full_cache_drops_expired_entries_first() {
    let mut cache = cache();
    let short = CredentialCache::<User>::key(None, "basic", "short", "secret");
    cache.insert(short.clone(), alice(), Some(Duration::from_secs(5)), now());
    let keys: Vec<_> = ["a", "b", "c"]
        .iter()
        .map(|name| CredentialCache::<User>::key(None, "basic", name, "secret"))
        .collect();
    for key in &keys {
        cache.insert(key.clone(), alice(), minute(), now());
    }
    // The short-lived entry is the most recently used, and has expired.
    assert_eq!(cache.get(&short, now()), Some(alice()));
    let later = Duration::from_secs(1_010);
    let fresh = CredentialCache::<User>::key(None, "basic", "fresh", "secret");
    cache.insert(fresh.clone(), alice(), minute(), later);

    assert_eq!(cache.get(&short, later), None);
    for key in keys.iter().chain([&fresh]) {
        assert_eq!(cache.get(key, later), Some(alice()));
    }
}

#[test]
fn a_cache_without_room_stores_nothing() {
    let mut cache = CredentialCache::<User>::new(CacheConfig {
        max_entries: 0,
        ..CacheConfig::default()
    });
    let key = CredentialCache::<User>::key(None, "basic", "alice", "secret");
    cache.insert(key.clone(), alice(), Some(Duration::from_secs(3_600)), now());
    assert_eq!(cache.get(&key, now()), None);
    assert!(cache.is_empty());
}

#[test]
fn cache_defaults_are_conservative() {
    let config = CacheConfig::default();
    assert_eq!(config.refresh_margin, Duration::from_secs(DEFAULT_REFRESH_MARGIN));
    assert_eq!(config.fallback_ttl, Duration::from_secs(DEFAULT_FALLBACK_TTL));
    assert_eq!(config.max_entries, DEFAULT_MAX_ENTRIES);
    assert_eq!(
        (DEFAULT_REFRESH_MARGIN, DEFAULT_FALLBACK_TTL, DEFAULT_MAX_ENTRIES),
        (30, 60, 10_000)
    );
}
