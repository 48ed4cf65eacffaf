//! API-token authentication: `Authorization: Bearer <prefix><key>`.
//!
//! Two mechanisms behind one prefix, tried in order:
//!
//! 1. Static tokens: a configured list, compared in constant time, without any network.
//! 2. A [`TokenValidator`] fallback: anything that can turn an unrecognised key into claims, such
//!    as an RFC 7662 introspection endpoint.
use std::marker::PhantomData;
use subtle::ConstantTimeEq;
use vstd::prelude::*;

use crate::authenticator::{AuthContext, AuthProfile, Authenticator};
use crate::cache::{self, CacheConfig, CacheKey, CacheView, CredentialCache, KeyView};
use crate::claims::{self, ClaimSource, ClaimsView, IdentityClaims};
use crate::credential::{Credential, CredentialView};
use crate::encoding;
use crate::error::{AuthError, AuthErrorView};
use crate::outcome::Verdict;
use crate::scope::{self, AuthScope};
use crate::secret::SecretString;
use crate::text;
use crate::time::{self, Duration, SystemTime};

verus! {

/// Default cap in seconds on how long a validated API key stays cached, regardless of the expiry
/// the validator reports.
///
/// Remote validation exists so revocation takes effect quickly, so caching is capped to keep
/// revocation lag small even for long-lived tokens.
pub const DEFAULT_MAX_CACHE_TTL: u64 = 300;

/// Validates an API key that carried the configured prefix but matched no static token.
///
/// Asked for a key and the request scope's discriminator, it answers with a
/// `Result<IdentityClaims, AuthError>`: the claims of the key, or why it is not valid.
pub trait TokenValidator: Send + Sync + 'static {
    /// A stable name, used in cache keys and logs.
    fn name(&self) -> (name: &'static str);
}

/// Why a list of static tokens is refused.
#[derive(Debug)]
pub enum StaticTokenError {
    Malformed(String),
    EmptyPrefix,
    EmptyToken(String),
}

/// What a [`StaticTokenError`] says.
pub ghost enum StaticTokenErrorView {
    Malformed(Seq<char>),
    EmptyPrefix,
    EmptyToken(Seq<char>),
}

impl View for StaticTokenError {
    type V = StaticTokenErrorView;

    open spec fn view(&self) -> StaticTokenErrorView {
        match *self {
            StaticTokenError::Malformed(report) => StaticTokenErrorView::Malformed(report@),
            StaticTokenError::EmptyPrefix => StaticTokenErrorView::EmptyPrefix,
            StaticTokenError::EmptyToken(principal) => StaticTokenErrorView::EmptyToken(principal@),
        }
    }
}

impl StaticTokenErrorView {
    /// The message for the operator.
    pub open spec fn message(self) -> Seq<char> {
        match self {
            StaticTokenErrorView::Malformed(report) =>
                "static token list must be a JSON array of {\"token\", \"principal\"[, \"email\", \"scopes\"]}: "@
                + report,
            StaticTokenErrorView::EmptyPrefix => "static token prefix must not be empty"@,
            StaticTokenErrorView::EmptyToken(principal) => "static token for principal "@
                + encoding::quoted(principal) + " has an empty token value"@,
        }
    }
}

impl StaticTokenError {
    /// The message for the operator.
    pub fn to_string(&self) -> (message: String)
        ensures
            message@ == self@.message(),
    {
        match self {
            StaticTokenError::Malformed(report) => text::join(
                "static token list must be a JSON array of {\"token\", \"principal\"[, \"email\", \"scopes\"]}: ",
                report.as_str(),
            ),
            StaticTokenError::EmptyPrefix => String::from_str(
                "static token prefix must not be empty",
            ),
            StaticTokenError::EmptyToken(principal) => {
                let head = text::join(
                    "static token for principal ",
                    encoding::quote(principal.as_str()).as_str(),
                );
                text::join(head.as_str(), " has an empty token value")
            },
        }
    }
}

/// One entry of the configured token list.
#[derive(Debug)]
pub struct StaticTokenSpec {
    /// The secret presented as the API key, after the prefix is stripped.
    pub token: String,
    /// The identity to authenticate as.
    pub principal: String,
    /// Optional email; defaults to `principal`.
    pub email: Option<String>,
    /// Scopes this token is valid for, matched against the scope's cache discriminator. `None`
    /// means every scope.
    pub scopes: Option<Vec<String>>,
}

/// What a [`StaticTokenSpec`] says.
pub ghost struct TokenSpecView {
    pub token: Seq<char>,
    pub principal: Seq<char>,
    pub email: Option<Seq<char>>,
    pub scopes: Option<Seq<Seq<char>>>,
}

/// The texts of an optional list of strings.
pub open spec fn optional_texts(list: Option<Vec<String>>) -> Option<Seq<Seq<char>>> {
    match list {
        Some(list) => Some(text::texts(list@)),
        None => None,
    }
}

impl View for StaticTokenSpec {
    type V = TokenSpecView;

    open spec fn view(&self) -> TokenSpecView {
        TokenSpecView {
            token: self.token@,
            principal: self.principal@,
            email: text::optional(self.email),
            scopes: optional_texts(self.scopes),
        }
    }
}

/// The entries of a token list.
pub open spec fn spec_views(specs: Seq<StaticTokenSpec>) -> Seq<TokenSpecView> {
    specs.map_values(|spec: StaticTokenSpec| spec@)
}

/// What is known of a loaded static token.
pub ghost struct TokenView {
    pub secret: Seq<char>,
    pub claims: ClaimsView,
    pub scopes: Option<Seq<Seq<char>>>,
}

impl TokenSpecView {
    /// The token that an entry loads.
    pub open spec fn loaded(self) -> TokenView {
        TokenView {
            secret: self.token,
            claims: ClaimsView {
                subject: Some(self.principal),
                preferred_username: Some(self.principal),
                email: Some(
                    match self.email {
                        Some(email) => email,
                        None => self.principal,
                    },
                ),
                ..ClaimsView::blank(ClaimSource::StaticToken)
            },
            scopes: self.scopes,
        }
    }
}

impl TokenView {
    /// Whether the token may be used for the scope: everywhere without a scope list, else where
    /// the scope's discriminator is listed.
    pub open spec fn permits(self, scope: Option<Seq<char>>) -> bool {
        match (self.scopes, scope) {
            (None, _) => true,
            (Some(allowed), Some(scope)) => allowed.contains(scope),
            (Some(_), None) => false,
        }
    }

    /// Whether the token answers for `key` in the scope.
    pub open spec fn accepts(self, scope: Option<Seq<char>>, key: Seq<char>) -> bool {
        self.permits(scope) && self.secret == key
    }
}

/// The index of the first token that answers for `key` in the scope, or the number of tokens.
pub open spec fn first_match(tokens: Seq<TokenView>, scope: Option<Seq<char>>, key: Seq<char>) -> int
    decreases tokens.len(),
{
    if tokens.len() == 0 || tokens[0].accepts(scope, key) {
        0
    } else {
        1 + first_match(tokens.drop_first(), scope, key)
    }
}

proof fn lemma_first_match(
    tokens: Seq<TokenView>,
    scope: Option<Seq<char>>,
    key: Seq<char>,
    at: int,
)
    requires
        0 <= at <= tokens.len(),
        forall|i: int| 0 <= i < at ==> !(#[trigger] tokens[i]).accepts(scope, key),
        at < tokens.len() ==> tokens[at].accepts(scope, key),
    ensures
        first_match(tokens, scope, key) == at,
    decreases at,
{
    if at > 0 {
        let rest = tokens.drop_first();
        assert forall|i: int| 0 <= i < at - 1 implies !(#[trigger] rest[i]).accepts(scope, key) by {
            assert(rest[i] == tokens[i + 1]);
        }
        lemma_first_match(rest, scope, key, at - 1);
    }
}

/// `subtle::ConstantTimeEq::ct_eq` on byte slices: whether they hold the same bytes. When the
/// lengths are equal, the comparison takes the same time wherever the bytes differ.
#[verifier::external_body]
fn constant_time_equal(a: &[u8], b: &[u8]) -> (same: bool)
    ensures
        same == (a@ == b@),
{
    bool::from(a.ct_eq(b))
}

struct StaticToken {
    secret: SecretString,
    claims: IdentityClaims,
    scopes: Option<Vec<String>>,
}

impl StaticToken {
    spec fn view(self) -> TokenView {
        TokenView {
            secret: self.secret@,
            claims: self.claims@,
            scopes: optional_texts(self.scopes),
        }
    }

    fn permits(&self, scope: Option<&str>) -> (permitted: bool)
        ensures
            permitted == self.view().permits(text::optional_str(scope)),
    {
        match (&self.scopes, scope) {
            (None, _) => true,
            (Some(allowed), Some(scope)) => text::contains(allowed, scope),
            (Some(_), None) => false,
        }
    }

    /// Constant-time comparison, so response timing does not reveal how many leading bytes of a
    /// guess were correct.
    ///
    /// Length is not hidden, but token values are high-entropy secrets, so a length reveals
    /// nothing usable.
    fn matches(&self, candidate: &str) -> (same: bool)
        ensures
            same == (self.secret@ == candidate@),
    {
        let expected = self.secret.expose_secret();
        let same = constant_time_equal(expected.as_bytes(), candidate.as_bytes());
        proof {
            if same {
                text::lemma_same_encoding(expected@, candidate@);
            }
        }
        same
    }
}

spec fn token_views(tokens: Seq<StaticToken>) -> Seq<TokenView> {
    tokens.map_values(|token: StaticToken| token.view())
}

/// Authenticates `Authorization: Bearer <prefix><key>`.
///
/// This authenticator and an OIDC bearer authenticator both claim the `Bearer` scheme. The prefix
/// tells them apart, so the chain's outcome does not depend on registration order: a token without
/// the prefix is declined here, and one with it never is.
pub struct ApiTokenAuthenticator<P: AuthProfile, V: TokenValidator> {
    prefix: String,
    tokens: Vec<StaticToken>,
    fallback: Option<V>,
    cache: CredentialCache<P::User>,
    max_cache_ttl: Duration,
    profile: PhantomData<P>,
}

/// A key that the fallback validator is to be asked about.
pub struct PendingValidation {
    api_key: SecretString,
    scope: Option<String>,
    cache_key: CacheKey,
}

impl PendingValidation {
    /// The key to validate.
    pub closed spec fn key(self) -> Seq<char> {
        self.api_key@
    }

    /// The discriminator of the scope the key is presented to.
    pub closed spec fn discriminator(self) -> Option<Seq<char>> {
        text::optional(self.scope)
    }

    /// What the validated principal is cached under.
    pub closed spec fn cached_under(self) -> KeyView {
        self.cache_key@
    }

    /// The key to validate.
    pub fn api_key(&self) -> (key: &str)
        ensures
            key@ == self.key(),
    {
        self.api_key.expose_secret()
    }

    /// The request scope's discriminator, for validators that are realm-aware.
    pub fn scope(&self) -> (scope: Option<&str>)
        ensures
            text::optional_str(scope) == self.discriminator(),
    {
        text::as_deref(&self.scope)
    }
}

/// What comes next for a request.
pub enum TokenStep<U> {
    /// The authenticator answers.
    Answered(Result<Verdict<U>, AuthError>),
    /// Ask the fallback validator, and finish with its reply.
    Validate(PendingValidation),
}

/// The cache key of a key that the validator `name` answers for.
pub open spec fn validation_key(
    scope: Option<Seq<char>>,
    name: Seq<char>,
    key: Seq<char>,
) -> KeyView {
    KeyView {
        scope,
        mechanism: name,
        principal: Seq::empty(),
        digest: cache::blake3_digest(vstd::utf8::encode_utf8(key)),
    }
}

/// The lifetime that a validated key is cached with: the time until it expires, but no more than
/// the cap. A key without an expiry, or with one that has passed, is left to the cache's fallback,
/// unless the fallback is longer than the cap.
pub open spec fn cache_span(
    expires_at: Option<nat>,
    wall: nat,
    cap: nat,
    fallback: nat,
) -> Option<nat> {
    match expires_at {
        Some(moment) if wall <= moment => Some(
            if cap < moment - wall {
                cap
            } else {
                (moment - wall) as nat
            },
        ),
        _ => if cap < fallback {
            Some(cap)
        } else {
            None
        },
    }
}

impl<P: AuthProfile, V: TokenValidator> ApiTokenAuthenticator<P, V> {
    /// What every API token starts with.
    pub closed spec fn marker(self) -> Seq<char> {
        self.prefix@
    }

    /// The loaded static tokens.
    pub closed spec fn loaded(self) -> Seq<TokenView> {
        token_views(self.tokens@)
    }

    /// Who is asked about a key that matches no static token.
    pub closed spec fn validator(self) -> Option<V> {
        self.fallback
    }

    /// The principals that were validated before.
    pub closed spec fn cached(self) -> CacheView<P::User> {
        self.cache@
    }

    /// The longest a validated key is cached.
    pub closed spec fn cache_cap(self) -> nat {
        self.max_cache_ttl@
    }

    /// Whether `built` is what becomes of a token list that was read as `specs`, or could not be
    /// read.
    pub open spec fn builds(
        prefix: &str,
        specs: Result<Vec<StaticTokenSpec>, String>,
        built: Result<ApiTokenAuthenticator<P, V>, StaticTokenError>,
    ) -> bool {
        match specs {
            Ok(specs) => call_ensures(
                ApiTokenAuthenticator::<P, V>::new,
                (prefix, specs),
                built,
            ),
            Err(report) => built is Err && built->Err_0@ == StaticTokenErrorView::Malformed(
                report@,
            ),
        }
    }

    /// Whether this is `before` with nothing changed but its cache.
    pub open spec fn differs_in_cache(self, before: ApiTokenAuthenticator<P, V>) -> bool {
        &&& self.marker() == before.marker()
        &&& self.loaded() == before.loaded()
        &&& self.validator() == before.validator()
        &&& self.cache_cap() == before.cache_cap()
    }

    /// Builds from the token list, such as a secret decrypted from a key service.
    ///
    /// A malformed list is an error and not a warning, so a configuration mistake fails startup
    /// instead of silently disabling authentication.
    pub fn new(prefix: &str, specs: Vec<StaticTokenSpec>) -> (built: Result<
        ApiTokenAuthenticator<P, V>,
        StaticTokenError,
    >)
        ensures
            match built {
                Ok(authenticator) => {
                    &&& prefix@.len() > 0
                    &&& forall|i: int|
                        0 <= i < specs.len() ==> (#[trigger] specs@[i]).token@.len() > 0
                    &&& authenticator.marker() == prefix@
                    &&& authenticator.loaded() == spec_views(specs@).map_values(
                        |spec: TokenSpecView| spec.loaded(),
                    )
                    &&& authenticator.validator() is None
                    &&& authenticator.cache_cap() == DEFAULT_MAX_CACHE_TTL * 1_000_000_000
                    &&& authenticator.cached().is_default()
                },
                Err(StaticTokenError::EmptyPrefix) => prefix@.len() == 0,
                Err(StaticTokenError::EmptyToken(principal)) => prefix@.len() > 0 && exists|i: int|
                    {
                        &&& 0 <= i < specs.len()
                        &&& (#[trigger] specs@[i]).token@.len() == 0
                        &&& specs@[i].principal@ == principal@
                        &&& forall|j: int|
                            0 <= j < i ==> (#[trigger] specs@[j]).token@.len() > 0
                    },
                Err(StaticTokenError::Malformed(_)) => false,
            },
    {
        if prefix.unicode_len() == 0 {
            return Err(StaticTokenError::EmptyPrefix);
        }
        let mut tokens: Vec<StaticToken> = Vec::new();
        let mut at: usize = 0;
        while at < specs.len()
            invariant
                at <= specs.len(),
                prefix@.len() > 0,
                tokens.len() == at,
                forall|i: int| 0 <= i < at ==> (#[trigger] specs@[i]).token@.len() > 0,
                forall|i: int| 0 <= i < at ==> (#[trigger] tokens@[i]).view() == specs@[i]@.loaded(),
            decreases specs.len() - at,
        {
            let spec = &specs[at];
            if spec.token.as_str().unicode_len() == 0 {
                return Err(StaticTokenError::EmptyToken(spec.principal.clone()));
            }
            let email = match &spec.email {
                Some(email) => email.as_str(),
                None => spec.principal.as_str(),
            };
            let claims = IdentityClaims::new(ClaimSource::StaticToken);
            let claims = claims.with_subject(spec.principal.as_str());
            let claims = claims.with_preferred_username(spec.principal.as_str());
            let claims = claims.with_email(email);
            let scopes = match &spec.scopes {
                Some(scopes) => Some(text::copy_strings(scopes)),
                None => None,
            };
            tokens.push(
                StaticToken { secret: SecretString::from(spec.token.clone()), claims, scopes },
            );
            at += 1;
        }
        let authenticator = ApiTokenAuthenticator {
            prefix: String::from_str(prefix),
            tokens,
            fallback: None,
            cache: CredentialCache::default(),
            max_cache_ttl: Duration::from_secs(DEFAULT_MAX_CACHE_TTL),
            profile: PhantomData,
        };
        assert(authenticator.loaded() =~= spec_views(specs@).map_values(
            |spec: TokenSpecView| spec.loaded(),
        ));
        Ok(authenticator)
    }

    /// Adds a validator consulted when no static token matches.
    ///
    /// Without one, an unrecognised key carrying the prefix is rejected outright.
    pub fn with_fallback(self, validator: V) -> (authenticator: ApiTokenAuthenticator<P, V>)
        ensures
            authenticator.validator() == Some(validator),
            authenticator.marker() == self.marker(),
            authenticator.loaded() == self.loaded(),
            authenticator.cached() == self.cached(),
            authenticator.cache_cap() == self.cache_cap(),
    {
        ApiTokenAuthenticator { fallback: Some(validator), ..self }
    }

    /// Starts a new cache with the given limits.
    pub fn with_cache_config(self, config: CacheConfig) -> (authenticator: ApiTokenAuthenticator<
        P,
        V,
    >)
        ensures
            authenticator.cached() == (CacheView {
                config,
                entries: Map::<KeyView, cache::EntryView<P::User>>::empty(),
                clock: 0,
            }),
            authenticator.differs_in_cache(self),
    {
        ApiTokenAuthenticator { cache: CredentialCache::new(config), ..self }
    }

    /// Caps how long a fallback-validated key stays cached, regardless of the expiry the validator
    /// reports.
    pub fn with_max_cache_ttl(self, ttl: Duration) -> (authenticator: ApiTokenAuthenticator<P, V>)
        ensures
            authenticator.cache_cap() == ttl@,
            authenticator.marker() == self.marker(),
            authenticator.loaded() == self.loaded(),
            authenticator.validator() == self.validator(),
            authenticator.cached() == self.cached(),
    {
        ApiTokenAuthenticator { max_cache_ttl: ttl, ..self }
    }

    /// Time from `wall` until `expires_at`, capped at the configured maximum. `None` leaves the
    /// cache its own fallback: the validator reported no expiry that lies ahead, and the fallback
    /// keeps to the cap.
    fn cache_ttl(&self, expires_at: Option<SystemTime>, wall: &SystemTime) -> (ttl: Option<
        Duration,
    >)
        ensures
            time::optional_span(ttl) == cache_span(
                time::optional_moment(expires_at),
                wall@,
                self.cache_cap(),
                self.cached().config.fallback_ttl@,
            ),
    {
        if let Some(moment) = expires_at {
            if let Some(remaining) = moment.duration_since(wall) {
                return Some(remaining.min(self.max_cache_ttl));
            }
        }
        if self.max_cache_ttl.is_below(&self.cache.fallback_ttl()) {
            Some(self.max_cache_ttl)
        } else {
            None
        }
    }

    /// Builds from a JSON array of tokens, which `parse` reads. A blank text yields no tokens.
    pub fn from_json<F: FnOnce(&str) -> Result<Vec<StaticTokenSpec>, String>>(
        prefix: &str,
        json: &str,
        parse: F,
    ) -> (built: Result<ApiTokenAuthenticator<P, V>, StaticTokenError>)
        requires
            forall|text: &str| #[trigger] parse.requires((text,)),
        ensures
            exists|specs: Result<Vec<StaticTokenSpec>, String>|
                {
                    &&& if text::trimmed(json@).len() == 0 {
                        specs is Ok && specs->Ok_0@.len() == 0
                    } else {
                        exists|list: &str|
                            list@ == text::trimmed(json@) && #[trigger] parse.ensures(
                                (list,),
                                specs,
                            )
                    }
                    &&& #[trigger] ApiTokenAuthenticator::<P, V>::builds(prefix, specs, built)
                },
    {
        let json = text::trim(json);
        if json.unicode_len() == 0 {
            let specs: Vec<StaticTokenSpec> = Vec::new();
            let built = ApiTokenAuthenticator::new(prefix, specs);
            assert(ApiTokenAuthenticator::<P, V>::builds(prefix, Ok(specs), built));
            return built;
        }
        let specs = parse(json);
        assert(parse.ensures((json,), specs));
        let ghost read = specs;
        let built = match specs {
            Ok(specs) => ApiTokenAuthenticator::new(prefix, specs),
            Err(report) => Err(StaticTokenError::Malformed(report)),
        };
        assert(ApiTokenAuthenticator::<P, V>::builds(prefix, read, built));
        built
    }

    pub fn prefix(&self) -> (prefix: &str)
        ensures
            prefix@ == self.marker(),
    {
        self.prefix.as_str()
    }

    pub fn token_count(&self) -> (count: usize)
        ensures
            count == self.loaded().len(),
    {
        self.tokens.len()
    }
}

/// Declining: the request is somebody else's.
pub open spec fn declined<U>() -> TokenStep<U> {
    TokenStep::Answered(Ok(Verdict::NotApplicable))
}

impl<P: AuthProfile, V: TokenValidator> ApiTokenAuthenticator<P, V> {
    /// Whether `step` and `after` are the step and the cache that follow when a key that matches no
    /// static token is looked up under `cache_key`.
    pub open spec fn looks_up(
        self,
        cache_key: KeyView,
        scope: Option<Seq<char>>,
        key: Seq<char>,
        now: nat,
        after: CacheView<P::User>,
        step: TokenStep<P::User>,
    ) -> bool {
        &&& after == self.cached().touched(cache_key, now)
        &&& if self.cached().hits(cache_key, now) {
            step matches TokenStep::Answered(Ok(Verdict::Authenticated(user))) && cloned::<P::User>(
                self.cached().entries[cache_key].value,
                user,
            )
        } else {
            step matches TokenStep::Validate(pending) && pending.key() == key
                && pending.discriminator() == scope && pending.cached_under() == cache_key
        }
    }

    /// Whether `step` and `after` are the step and the cache that follow when `key` is presented to
    /// the scope: a static token answers at once, any other key is the validator's business, and
    /// without a validator it is invalid.
    pub open spec fn examines(
        self,
        scope: Option<Seq<char>>,
        key: Seq<char>,
        now: nat,
        after: CacheView<P::User>,
        step: TokenStep<P::User>,
    ) -> bool {
        let at = first_match(self.loaded(), scope, key);
        if 0 <= at < self.loaded().len() {
            &&& after == self.cached()
            &&& step matches TokenStep::Answered(answer)
            &&& claims::identifies(
                self.loaded()[at].claims,
                "static token principal could not be converted"@,
                answer,
            )
        } else {
            match self.validator() {
                None => {
                    &&& after == self.cached()
                    &&& step matches TokenStep::Answered(Err(error))
                    &&& error@ == (AuthErrorView::InvalidCredential {
                        detail: "no static token matches the presented api key for this scope"@,
                    })
                },
                Some(validator) => exists|name: &'static str| #[trigger]
                    call_ensures(V::name, (&validator,), name) && self.looks_up(
                        validation_key(scope, name@, key),
                        scope,
                        key,
                        now,
                        after,
                        step,
                    ),
            }
        }
    }

    /// Whether `step` and `after` are the step and the cache that follow when `credential` is
    /// presented to `scope`.
    pub open spec fn starts(
        self,
        credential: CredentialView,
        scope: P::Scope,
        now: nat,
        after: CacheView<P::User>,
        step: TokenStep<P::User>,
    ) -> bool {
        match self.api_key(credential) {
            Some(key) => exists|discriminator: Option<Seq<char>>| #[trigger]
                scope::says_discriminator(scope, discriminator) && self.examines(
                    discriminator,
                    key,
                    now,
                    after,
                    step,
                ),
            None => after == self.cached() && step == declined::<P::User>(),
        }
    }

    /// The API key in a credential: what follows the prefix of a bearer token.
    pub open spec fn api_key(self, credential: CredentialView) -> Option<Seq<char>> {
        match credential {
            CredentialView::Bearer(token) => text::after_prefix(token, self.marker()),
            _ => None,
        }
    }

    /// Whether `answer` and `after` are the answer and the cache that follow the validator's reply
    /// on a key that is cached under `cache_key`.
    pub open spec fn concludes(
        self,
        cache_key: KeyView,
        reply: Result<IdentityClaims, AuthError>,
        wall: nat,
        now: nat,
        after: CacheView<P::User>,
        answer: Result<Verdict<P::User>, AuthError>,
    ) -> bool {
        match reply {
            Err(error) => after == self.cached() && answer == Err::<Verdict<P::User>, AuthError>(
                error,
            ),
            Ok(claims) => exists|result: Result<P::User, AuthError>|
                {
                    &&& #[trigger] claims::converts(
                        claims@,
                        "api token principal could not be converted"@,
                        result,
                    )
                    &&& match result {
                        Err(error) => after == self.cached() && answer == Err::<
                            Verdict<P::User>,
                            AuthError,
                        >(error),
                        Ok(user) => answer == Ok::<Verdict<P::User>, AuthError>(
                            Verdict::Authenticated(user),
                        ) && exists|stored: P::User| #[trigger]
                            cloned(user, stored) && self.cached().stores(
                                cache_key,
                                stored,
                                cache_span(
                                    claims@.expires_at,
                                    wall,
                                    self.cache_cap(),
                                    self.cached().config.fallback_ttl@,
                                ),
                                now,
                                after,
                            ),
                    }
                },
        }
    }

    fn find(&self, scope: Option<&str>, key: &str) -> (at: usize)
        ensures
            at == first_match(self.loaded(), text::optional_str(scope), key@),
            at <= self.tokens.len(),
    {
        let mut at: usize = 0;
        while at < self.tokens.len()
            invariant
                at <= self.tokens.len(),
                forall|i: int|
                    0 <= i < at ==> !(#[trigger] self.loaded()[i]).accepts(
                        text::optional_str(scope),
                        key@,
                    ),
            decreases self.tokens.len() - at,
        {
            let token = &self.tokens[at];
            assert(self.loaded()[at as int] == token.view());
            if token.permits(scope) && token.matches(key) {
                proof {
                    lemma_first_match(
                        self.loaded(),
                        text::optional_str(scope),
                        key@,
                        at as int,
                    );
                }
                return at;
            }
            at += 1;
        }
        proof {
            lemma_first_match(self.loaded(), text::optional_str(scope), key@, at as int);
        }
        at
    }

    /// Examines a request at the reading `now` of the caller's monotonic clock.
    ///
    /// A bearer token without the prefix belongs to another mechanism and is declined. With the
    /// prefix it is an API token, so an unknown one is a bad API token, and no later authenticator
    /// is to try to parse it as a JWT.
    pub fn begin(&mut self, ctx: &AuthContext<P>, now: Duration) -> (step: TokenStep<P::User>)
        ensures
            old(self).starts(ctx.credential@, *ctx.scope, now@, final(self).cached(), step),
            final(self).differs_in_cache(*old(self)),
    {
        let token = match ctx.credential {
            Credential::Bearer(token) => token.expose_secret(),
            _ => {
                return TokenStep::Answered(Ok(Verdict::NotApplicable));
            },
        };
        let key = match text::strip_prefix(token, self.prefix.as_str()) {
            Some(key) => key,
            None => {
                return TokenStep::Answered(Ok(Verdict::NotApplicable));
            },
        };
        let scope = ctx.scope.cache_discriminator();
        assert(scope::says_discriminator(*ctx.scope, text::optional_str(scope)));
        let at = self.find(scope, key);
        if at < self.tokens.len() {
            // A static hit needs no cache: the comparison is already local.
            let ghost known = self.tokens@[at as int].view();
            assert(self.loaded()[at as int] == known);
            let claims = self.tokens[at].claims.clone();
            return TokenStep::Answered(
                claims::identify(claims, "static token principal could not be converted"),
            );
        }
        let name = match &self.fallback {
            Some(validator) => validator.name(),
            None => {
                return TokenStep::Answered(
                    Err(
                        AuthError::invalid_credential(
                            "no static token matches the presented api key for this scope",
                        ),
                    ),
                );
            },
        };
        let cache_key = CredentialCache::<P::User>::key(scope, name, "", key);
        proof {
            reveal_strlit("");
            assert(""@ =~= Seq::<char>::empty());
            assert(cache_key@ == validation_key(text::optional_str(scope), name@, key@));
        }
        match self.cache.get(&cache_key, now) {
            Some(user) => TokenStep::Answered(Ok(Verdict::Authenticated(user))),
            None => {
                let scope = match scope {
                    Some(scope) => Some(String::from_str(scope)),
                    None => None,
                };
                TokenStep::Validate(
                    PendingValidation {
                        api_key: SecretString::from(String::from_str(key)),
                        scope,
                        cache_key,
                    },
                )
            },
        }
    }

    /// Answers with the validator's reply, at the moment `wall` and the reading `now` of the
    /// caller's monotonic clock.
    pub fn finish(
        &mut self,
        pending: PendingValidation,
        reply: Result<IdentityClaims, AuthError>,
        wall: SystemTime,
        now: Duration,
    ) -> (answer: Result<Verdict<P::User>, AuthError>)
        ensures
            old(self).concludes(
                pending.cached_under(),
                reply,
                wall@,
                now@,
                final(self).cached(),
                answer,
            ),
            final(self).differs_in_cache(*old(self)),
    {
        let claims = match reply {
            Ok(claims) => claims,
            Err(error) => {
                return Err(error);
            },
        };
        let ttl = self.cache_ttl(claims.expires_at, &wall);
        let ghost said = claims@;
        let result = claims::convert::<P::User>(
            claims,
            "api token principal could not be converted",
        );
        assert(claims::converts(said, "api token principal could not be converted"@, result));
        match result {
            Ok(user) => {
                let stored = user.clone();
                assert(cloned(user, stored));
                self.cache.insert(pending.cache_key, stored, ttl, now);
                Ok(Verdict::Authenticated(user))
            },
            Err(error) => Err(error),
        }
    }
}

impl<P: AuthProfile, V: TokenValidator> Authenticator<P> for ApiTokenAuthenticator<P, V> {
    fn name(&self) -> (name: &'static str)
        ensures
            name@ == "static-token"@,
    {
        "static-token"
    }
}

proof fn lemma_first_match_bounds(tokens: Seq<TokenView>, scope: Option<Seq<char>>, key: Seq<char>)
    ensures
        0 <= first_match(tokens, scope, key) <= tokens.len(),
        first_match(tokens, scope, key) < tokens.len() ==> tokens[first_match(
            tokens,
            scope,
            key,
        )].accepts(scope, key),
        forall|i: int|
            0 <= i < first_match(tokens, scope, key) ==> !(#[trigger] tokens[i]).accepts(scope, key),
    decreases tokens.len(),
{
    if tokens.len() > 0 && !tokens[0].accepts(scope, key) {
        let rest = tokens.drop_first();
        lemma_first_match_bounds(rest, scope, key);
        assert forall|i: int| 0 <= i < first_match(tokens, scope, key) implies !(
        #[trigger] tokens[i]).accepts(scope, key) by {
            if i > 0 {
                assert(rest[i - 1] == tokens[i]);
            }
        }
    }
}

/// A static token answers only for its own secret and only in the scopes it is valid for; a key
/// that no token answers for matches none.
pub proof fn static_token_is_confined_to_its_scopes(
    tokens: Seq<TokenView>,
    scope: Option<Seq<char>>,
    key: Seq<char>,
)
    ensures
        0 <= first_match(tokens, scope, key) <= tokens.len(),
        first_match(tokens, scope, key) < tokens.len() ==> {
            let found = tokens[first_match(tokens, scope, key)];
            found.secret == key && (found.scopes matches Some(allowed) ==> scope is Some
                && allowed.contains(scope->Some_0))
        },
        (exists|i: int| 0 <= i < tokens.len() && (#[trigger] tokens[i]).accepts(scope, key)) == (
        first_match(tokens, scope, key) < tokens.len()),
{
    lemma_first_match_bounds(tokens, scope, key);
}

/// The prefix tells API tokens from other bearer tokens: a credential without it is declined, and
/// one with it never is.
pub proof fn prefix_decides_who_answers<P: AuthProfile, V: TokenValidator>(
    authenticator: ApiTokenAuthenticator<P, V>,
    credential: CredentialView,
    scope: P::Scope,
    now: nat,
    after: CacheView<P::User>,
    step: TokenStep<P::User>,
)
    requires
        authenticator.starts(credential, scope, now, after, step),
    ensures
        (step == declined::<P::User>()) == (authenticator.api_key(credential) is None),
{
}

/// A static token short-circuits the validator and the cache.
pub proof fn static_token_needs_no_validator<P: AuthProfile, V: TokenValidator>(
    authenticator: ApiTokenAuthenticator<P, V>,
    scope: Option<Seq<char>>,
    key: Seq<char>,
    now: nat,
    after: CacheView<P::User>,
    step: TokenStep<P::User>,
    at: int,
)
    requires
        authenticator.examines(scope, key, now, after, step),
        0 <= at < authenticator.loaded().len(),
        authenticator.loaded()[at].accepts(scope, key),
    ensures
        step is Answered,
        after == authenticator.cached(),
{
    lemma_first_match_bounds(authenticator.loaded(), scope, key);
}

/// A validated key is never served from the cache for longer than the cap, whatever expiry the
/// validator reported: once the cap has passed, a key that had to be validated at `asked` and was
/// answered for at `now` is a miss again.
pub proof fn caching_is_capped<P: AuthProfile, V: TokenValidator>(
    authenticator: ApiTokenAuthenticator<P, V>,
    cache_key: KeyView,
    reply: Result<IdentityClaims, AuthError>,
    asked: nat,
    wall: nat,
    now: nat,
    after: CacheView<P::User>,
    answer: Result<Verdict<P::User>, AuthError>,
    later: nat,
)
    requires
        !authenticator.cached().hits(cache_key, asked),
        asked <= now,
        authenticator.concludes(cache_key, reply, wall, now, after, answer),
        now + authenticator.cache_cap() <= later,
    ensures
        !after.hits(cache_key, later),
{
}

/// A key that the validator rejects, or could not answer for, is not cached.
pub proof fn rejection_is_not_cached<P: AuthProfile, V: TokenValidator>(
    authenticator: ApiTokenAuthenticator<P, V>,
    cache_key: KeyView,
    error: AuthError,
    wall: nat,
    now: nat,
    after: CacheView<P::User>,
    answer: Result<Verdict<P::User>, AuthError>,
)
    requires
        authenticator.concludes(cache_key, Err(error), wall, now, after, answer),
    ensures
        after == authenticator.cached(),
        answer == Err::<Verdict<P::User>, AuthError>(error),
{
}

/// A key validated for one tenant is never served from the cache for another: the scope is part of
/// what it is cached under.
pub proof fn tenants_are_cached_apart(
    one: Option<Seq<char>>,
    other: Option<Seq<char>>,
    name: Seq<char>,
    key: Seq<char>,
)
    requires
        one != other,
    ensures
        validation_key(one, name, key) != validation_key(other, name, key),
{
}

/// A validated key is never served from the cache at or after the expiry that the validator
/// reported, where that lies ahead, nor once the cap has passed: a key that had to be validated at
/// `asked` and was answered for at `now` is a miss again by then.
pub proof fn expired_key_is_never_served<P: AuthProfile, V: TokenValidator>(
    authenticator: &mut ApiTokenAuthenticator<P, V>,
    pending: PendingValidation,
    claims: IdentityClaims,
    asked: nat,
    wall: SystemTime,
    now: Duration,
    answer: Result<Verdict<P::User>, AuthError>,
    later: nat,
)
    requires
        call_ensures(
            ApiTokenAuthenticator::<P, V>::finish,
            (authenticator, pending, Ok(claims), wall, now),
            answer,
        ),
        !old(authenticator).cached().hits(pending.cached_under(), asked),
        asked <= now@,
        ({
            ||| claims@.expires_at matches Some(expiry) && wall@ <= expiry && now@ + (expiry
                - wall@) <= later
            ||| now@ + old(authenticator).cache_cap() <= later
        }),
    ensures
        !final(authenticator).cached().hits(pending.cached_under(), later),
{
}

/// A validated key is served from the cache, as the principal it was answered with, until the
/// margin before its expiry or before the cap, whichever comes first, and no longer. One that is
/// left no time at all by the margin is not cached.
pub proof fn validated_key_is_served_until_the_margin<P: AuthProfile, V: TokenValidator>(
    authenticator: &mut ApiTokenAuthenticator<P, V>,
    pending: PendingValidation,
    claims: IdentityClaims,
    wall: SystemTime,
    now: Duration,
    user: P::User,
    span: nat,
    later: nat,
)
    requires
        call_ensures(
            ApiTokenAuthenticator::<P, V>::finish,
            (authenticator, pending, Ok(claims), wall, now),
            Ok(Verdict::Authenticated(user)),
        ),
        claims@.expires_at matches Some(expiry) && wall@ + span <= expiry && (wall@ + span
            == expiry || span == old(authenticator).cache_cap()),
        span <= old(authenticator).cache_cap(),
        old(authenticator).cached().config.max_entries > 0,
        now@ + span < time::duration_bound(),
    ensures
        old(authenticator).cached().config.refresh_margin@ < span ==> {
            &&& final(authenticator).cached().hits(pending.cached_under(), later)
                == (later + old(authenticator).cached().config.refresh_margin@ < now@ + span)
            &&& cloned(user, final(authenticator).cached().entries[pending.cached_under()].value)
        },
        old(authenticator).cached().config.refresh_margin@ >= span
            ==> final(authenticator).cached() == old(authenticator).cached(),
{
}

/// What the validator says of a key is the answer: its failure as it is, and otherwise the
/// principal that its claims describe. A failure leaves the cache alone.
pub proof fn validator_decides_the_answer<P: AuthProfile, V: TokenValidator>(
    authenticator: &mut ApiTokenAuthenticator<P, V>,
    pending: PendingValidation,
    reply: Result<IdentityClaims, AuthError>,
    wall: SystemTime,
    now: Duration,
    answer: Result<Verdict<P::User>, AuthError>,
)
    requires
        call_ensures(
            ApiTokenAuthenticator::<P, V>::finish,
            (authenticator, pending, reply, wall, now),
            answer,
        ),
    ensures
        match reply {
            Err(error) => answer == Err::<Verdict<P::User>, AuthError>(error),
            Ok(claims) => claims::identifies(
                claims@,
                "api token principal could not be converted"@,
                answer,
            ),
        },
        answer is Err ==> final(authenticator).cached() == old(authenticator).cached(),
        final(authenticator).loaded() == old(authenticator).loaded(),
        final(authenticator).marker() == old(authenticator).marker(),
        final(authenticator).cache_cap() == old(authenticator).cache_cap(),
        forall|other: KeyView| #[trigger]
            final(authenticator).cached().entries.contains_key(other) && other
                != pending.cached_under() ==> old(authenticator).cached().entries.contains_key(other)
                && old(authenticator).cached().entries[other] == final(authenticator).cached().entries[other],
{
    if let Ok(claims) = reply {
        let result = match answer {
            Ok(Verdict::Authenticated(user)) => Ok::<P::User, AuthError>(user),
            Ok(Verdict::NotApplicable) => arbitrary(),
            Err(error) => Err(error),
        };
        assert(claims::converts(claims@, "api token principal could not be converted"@, result));
    }
}

/// What a list of static tokens loads: each token answers for its own secret, as its principal,
/// with its email or else the principal's name, and in the scopes that are listed for it.
pub proof fn static_tokens_load_as_listed<P: AuthProfile, V: TokenValidator>(
    prefix: &str,
    specs: Vec<StaticTokenSpec>,
    built: Result<ApiTokenAuthenticator<P, V>, StaticTokenError>,
    at: int,
)
    requires
        call_ensures(ApiTokenAuthenticator::<P, V>::new, (prefix, specs), built),
        built is Ok,
        0 <= at < specs.len(),
    ensures
        built->Ok_0.marker() == prefix@,
        built->Ok_0.loaded().len() == specs.len(),
        ({
            let token = built->Ok_0.loaded()[at];
            &&& token.secret == specs@[at].token@
            &&& token.claims.subject == Some(specs@[at].principal@)
            &&& token.claims.preferred_username == Some(specs@[at].principal@)
            &&& token.claims.best_effort_username() == Some(specs@[at].principal@)
            &&& specs@[at].email is Some ==> token.claims.email == Some(specs@[at].email->Some_0@)
            &&& specs@[at].email is None ==> token.claims.email == Some(specs@[at].principal@)
            &&& token.claims.source == ClaimSource::StaticToken
            &&& token.claims.expires_at is None && token.claims.scope is None
            &&& specs@[at].scopes is None ==> token.scopes is None
            &&& specs@[at].scopes matches Some(scopes) ==> token.scopes is Some && forall|
                scope: Seq<char>,
            |
                #![trigger token.scopes->Some_0.contains(scope)]
                token.scopes->Some_0.contains(scope) == exists|i: int|
                    0 <= i < scopes.len() && (#[trigger] scopes@[i])@ == scope
        }),
{
    let token = built->Ok_0.loaded()[at];
    if let Some(scopes) = specs@[at].scopes {
        assert(token.scopes == Some(text::texts(scopes@)));
        assert forall|scope: Seq<char>|
            #![trigger token.scopes->Some_0.contains(scope)]
            token.scopes->Some_0.contains(scope) == exists|i: int|
                0 <= i < scopes.len() && (#[trigger] scopes@[i])@ == scope by {
            if exists|i: int| 0 <= i < scopes.len() && (#[trigger] scopes@[i])@ == scope {
                let i = choose|i: int| 0 <= i < scopes.len() && (#[trigger] scopes@[i])@ == scope;
                assert(text::texts(scopes@)[i] == scope);
            }
            if text::texts(scopes@).contains(scope) {
                let i = choose|i: int|
                    0 <= i < text::texts(scopes@).len() && text::texts(scopes@)[i] == scope;
                assert(scopes@[i]@ == scope);
            }
        }
    }
}

/// Whether a scope has one cache discriminator, and always gives it.
pub open spec fn is_discriminated<S: AuthScope>(scope: S, discriminator: Option<Seq<char>>) -> bool {
    forall|said: Option<Seq<char>>|
        #[trigger] scope::says_discriminator(scope, said) ==> said == discriminator
}

/// A bearer token that starts with the prefix is an API token: the rest of it is the key. The first
/// static token with that very secret, among those valid for the scope, answers as its principal;
/// without one the key is refused, unless there is a validator, who is asked about that very key in
/// that very scope unless its answer is cached.
pub proof fn api_token_is_answered_for<P: AuthProfile, V: TokenValidator>(
    authenticator: &mut ApiTokenAuthenticator<P, V>,
    ctx: AuthContext<P>,
    now: Duration,
    step: TokenStep<P::User>,
    key: Seq<char>,
    scope: Option<Seq<char>>,
    at: int,
)
    requires
        call_ensures(ApiTokenAuthenticator::<P, V>::begin, (authenticator, &ctx, now), step),
        ctx.credential@ == CredentialView::Bearer(old(authenticator).marker() + key),
        is_discriminated(*ctx.scope, scope),
        0 <= at <= old(authenticator).loaded().len(),
        forall|i: int|
            0 <= i < at ==> (#[trigger] old(authenticator).loaded()[i]).secret != key || (
            old(authenticator).loaded()[i].scopes matches Some(allowed) && (scope is None
                || !allowed.contains(scope->Some_0))),
        at < old(authenticator).loaded().len() ==> {
            &&& old(authenticator).loaded()[at].secret == key
            &&& old(authenticator).loaded()[at].scopes matches Some(allowed) ==> scope is Some
                && allowed.contains(scope->Some_0)
        },
    ensures
        at < old(authenticator).loaded().len() ==> {
            &&& final(authenticator).cached() == old(authenticator).cached()
            &&& step matches TokenStep::Answered(answer) && claims::identifies(
                old(authenticator).loaded()[at].claims,
                "static token principal could not be converted"@,
                answer,
            )
        },
        at == old(authenticator).loaded().len() && old(authenticator).validator() is None ==> {
            step matches TokenStep::Answered(Err(error)) && error@.status() == 401
        },
        at == old(authenticator).loaded().len() && old(authenticator).validator() is Some ==> exists|
            name: &'static str,
        |
            #![trigger call_ensures(V::name, (&old(authenticator).validator()->Some_0,), name)]
            call_ensures(V::name, (&old(authenticator).validator()->Some_0,), name) && {
                let under = KeyView {
                    scope,
                    mechanism: name@,
                    principal: Seq::empty(),
                    digest: cache::blake3_digest(vstd::utf8::encode_utf8(key)),
                };
                if old(authenticator).cached().hits(under, now@) {
                    step matches TokenStep::Answered(Ok(Verdict::Authenticated(user))) && cloned(
                        old(authenticator).cached().entries[under].value,
                        user,
                    )
                } else {
                    step matches TokenStep::Validate(pending) && pending.key() == key
                        && pending.discriminator() == scope && pending.cached_under() == under
                }
            },
{
    let token = old(authenticator).marker() + key;
    assert(token.subrange(0, old(authenticator).marker().len() as int) =~= old(authenticator).marker());
    assert(token.subrange(old(authenticator).marker().len() as int, token.len() as int) =~= key);
    lemma_first_match_bounds(old(authenticator).loaded(), scope, key);
    let found = first_match(old(authenticator).loaded(), scope, key);
    assert forall|i: int| 0 <= i < at implies !(#[trigger] old(authenticator).loaded()[i]).accepts(
        scope,
        key,
    ) by {}
    lemma_first_match(old(authenticator).loaded(), scope, key, at);
}

/// Whatever is no bearer token with the prefix is somebody else's, and leaves no trace.
pub proof fn other_credentials_are_declined<P: AuthProfile, V: TokenValidator>(
    authenticator: &mut ApiTokenAuthenticator<P, V>,
    ctx: AuthContext<P>,
    now: Duration,
    step: TokenStep<P::User>,
)
    requires
        call_ensures(ApiTokenAuthenticator::<P, V>::begin, (authenticator, &ctx, now), step),
        forall|key: Seq<char>|
            ctx.credential@ != CredentialView::Bearer(#[trigger] (old(authenticator).marker() + key)),
    ensures
        step == TokenStep::Answered(Ok::<Verdict<P::User>, AuthError>(Verdict::NotApplicable)),
        final(authenticator).cached() == old(authenticator).cached(),
{
    if let CredentialView::Bearer(token) = ctx.credential@ {
        let marker = old(authenticator).marker();
        if text::has_prefix(token, marker) {
            let key = token.subrange(marker.len() as int, token.len() as int);
            assert(marker + key =~= token);
        }
    }
}

/// A validated key for which no expiry lies ahead is served for the cache's fallback lifetime, or,
/// where the cap is shorter, until the margin before the cap.
pub proof fn key_without_expiry_is_served_for_the_fallback<P: AuthProfile, V: TokenValidator>(
    authenticator: &mut ApiTokenAuthenticator<P, V>,
    pending: PendingValidation,
    claims: IdentityClaims,
    wall: SystemTime,
    now: Duration,
    user: P::User,
    later: nat,
)
    requires
        call_ensures(
            ApiTokenAuthenticator::<P, V>::finish,
            (authenticator, pending, Ok(claims), wall, now),
            Ok(Verdict::Authenticated(user)),
        ),
        claims@.expires_at is None || claims@.expires_at->Some_0 < wall@,
        old(authenticator).cached().config.max_entries > 0,
        old(authenticator).cached().config.fallback_ttl@ > 0,
        now@ + old(authenticator).cached().config.fallback_ttl@ < time::duration_bound(),
    ensures
        old(authenticator).cached().config.fallback_ttl@ <= old(authenticator).cache_cap()
            ==> final(authenticator).cached().hits(pending.cached_under(), later) == (later < now@
            + old(authenticator).cached().config.fallback_ttl@),
        old(authenticator).cached().config.fallback_ttl@ > old(authenticator).cache_cap()
            && old(authenticator).cached().config.refresh_margin@
                < old(authenticator).cache_cap() ==> final(authenticator).cached().hits(
            pending.cached_under(),
            later,
        ) == (later + old(authenticator).cached().config.refresh_margin@ < now@ + old(authenticator).cache_cap()),
{
}

/// A list of static tokens is loaded exactly when there is a prefix and every token has a value.
pub proof fn token_list_is_loaded_when_complete<P: AuthProfile, V: TokenValidator>(
    prefix: &str,
    specs: Vec<StaticTokenSpec>,
    built: Result<ApiTokenAuthenticator<P, V>, StaticTokenError>,
)
    requires
        call_ensures(ApiTokenAuthenticator::<P, V>::new, (prefix, specs), built),
    ensures
        (built is Ok) == (prefix@.len() > 0 && forall|i: int|
            0 <= i < specs.len() ==> (#[trigger] specs@[i]).token@.len() > 0),
        prefix@.len() == 0 ==> built matches Err(StaticTokenError::EmptyPrefix),
        prefix@.len() > 0 && built is Err ==> exists|i: int|
            0 <= i < specs.len() && (#[trigger] specs@[i]).token@.len() == 0 && (built matches Err(
                StaticTokenError::EmptyToken(principal),
            ) && principal@ == specs@[i].principal@),
        built is Ok ==> built->Ok_0.marker() == prefix@,
        built is Ok ==> built->Ok_0.cache_cap() == 300 * 1_000_000_000,
        built is Ok ==> built->Ok_0.validator() is None,
        built is Ok ==> built->Ok_0.cached().entries == Map::<
            KeyView,
            cache::EntryView<P::User>,
        >::empty(),
{
}

/// Each choice changes itself alone: who is asked about unknown keys, how long their answers are
/// kept at most, and within which limits.
pub proof fn authenticator_is_configured_as_chosen<P: AuthProfile, V: TokenValidator>(
    authenticator: ApiTokenAuthenticator<P, V>,
    validator: V,
    with_validator: ApiTokenAuthenticator<P, V>,
    config: CacheConfig,
    with_config: ApiTokenAuthenticator<P, V>,
    cap: Duration,
    with_cap: ApiTokenAuthenticator<P, V>,
    prefix: &str,
    count: usize,
)
    requires
        call_ensures(
            ApiTokenAuthenticator::<P, V>::with_fallback,
            (authenticator, validator),
            with_validator,
        ),
        call_ensures(
            ApiTokenAuthenticator::<P, V>::with_cache_config,
            (authenticator, config),
            with_config,
        ),
        call_ensures(
            ApiTokenAuthenticator::<P, V>::with_max_cache_ttl,
            (authenticator, cap),
            with_cap,
        ),
        call_ensures(ApiTokenAuthenticator::<P, V>::prefix, (&authenticator,), prefix),
        call_ensures(ApiTokenAuthenticator::<P, V>::token_count, (&authenticator,), count),
    ensures
        prefix@ == authenticator.marker() && count == authenticator.loaded().len(),
        with_validator.validator() == Some(validator),
        with_config.cached().config == config,
        with_config.cached().entries == Map::<KeyView, cache::EntryView<P::User>>::empty(),
        with_cap.cache_cap() == cap@,
        with_validator.marker() == authenticator.marker(),
        with_validator.loaded() == authenticator.loaded(),
        with_validator.cached() == authenticator.cached(),
        with_validator.cache_cap() == authenticator.cache_cap(),
        with_config.marker() == authenticator.marker(),
        with_config.loaded() == authenticator.loaded(),
        with_config.validator() == authenticator.validator(),
        with_config.cache_cap() == authenticator.cache_cap(),
        with_cap.marker() == authenticator.marker(),
        with_cap.loaded() == authenticator.loaded(),
        with_cap.validator() == authenticator.validator(),
        with_cap.cached() == authenticator.cached(),
{
}

/// A text of tokens is read by the parser, without the white space around it: what the parser makes
/// of it is what is loaded, and what it cannot read is refused. A blank text has no tokens, and is
/// not put to the parser.
pub proof fn token_text_is_read_by_the_parser<
    P: AuthProfile,
    V: TokenValidator,
    F: FnOnce(&str) -> Result<Vec<StaticTokenSpec>, String>,
>(
    prefix: &str,
    json: &str,
    parse: F,
    built: Result<ApiTokenAuthenticator<P, V>, StaticTokenError>,
    lead: Seq<char>,
    core: Seq<char>,
    trail: Seq<char>,
)
    requires
        call_ensures(ApiTokenAuthenticator::<P, V>::from_json::<F>, (prefix, json, parse), built),
        json@ == lead + core + trail,
        text::is_blank(lead) && text::is_blank(trail) && text::is_bare(core),
    ensures
        core.len() == 0 ==> {
            &&& (built is Ok) == (prefix@.len() > 0)
            &&& built is Ok ==> built->Ok_0.loaded().len() == 0
        },
        core.len() > 0 ==> exists|list: &str, specs: Result<Vec<StaticTokenSpec>, String>|
            list@ == core && #[trigger] parse.ensures((list,), specs) && match specs {
                Ok(found) => call_ensures(
                    ApiTokenAuthenticator::<P, V>::new,
                    (prefix, found),
                    built,
                ),
                Err(report) => built is Err && built->Err_0@ == StaticTokenErrorView::Malformed(
                    report@,
                ),
            },
{
    text::lemma_trimmed(lead, core, trail);
}

/// Examining a request costs no cached principal its place, its identity or its lifetime, and adds
/// none.
pub proof fn examination_keeps_the_cached_principals<P: AuthProfile, V: TokenValidator>(
    authenticator: &mut ApiTokenAuthenticator<P, V>,
    ctx: AuthContext<P>,
    now: Duration,
    step: TokenStep<P::User>,
    key: KeyView,
)
    requires
        call_ensures(ApiTokenAuthenticator::<P, V>::begin, (authenticator, &ctx, now), step),
    ensures
        final(authenticator).cached().entries.contains_key(key)
            == old(authenticator).cached().entries.contains_key(key),
        old(authenticator).cached().entries.contains_key(key) ==> {
            &&& final(authenticator).cached().entries[key].value == old(authenticator).cached().entries[key].value
            &&& final(authenticator).cached().entries[key].expires_at
                == old(authenticator).cached().entries[key].expires_at
        },
        final(authenticator).cached().config == old(authenticator).cached().config,
{
}

/// The operator is told whose token is empty, and what is wrong with a list that cannot be read.
/// The authenticator is known as `static-token`.
pub proof fn operator_is_told_what_is_wrong<P: AuthProfile, V: TokenValidator>(
    error: StaticTokenError,
    message: String,
    authenticator: ApiTokenAuthenticator<P, V>,
    name: &'static str,
)
    requires
        call_ensures(StaticTokenError::to_string, (&error,), message),
        call_ensures(
            <ApiTokenAuthenticator<P, V> as Authenticator<P>>::name,
            (&authenticator,),
            name,
        ),
    ensures
        name@ == "static-token"@,
        match error@ {
            StaticTokenErrorView::Malformed(report) => text::ends_with(message@, report),
            StaticTokenErrorView::EmptyPrefix => message@
                == "static token prefix must not be empty"@,
            StaticTokenErrorView::EmptyToken(principal) => message@ == "static token for principal "@
                + encoding::quoted(principal) + " has an empty token value"@,
        },
{
    assert forall|s: Seq<char>, tail: Seq<char>| text::ends_with(#[trigger] (s + tail), tail) by {
        text::lemma_ends_with(s, tail);
    }
}

} // verus!
