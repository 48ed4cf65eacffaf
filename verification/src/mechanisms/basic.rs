//! `Authorization: Basic` exchanged with the provider's token endpoint.
//!
//! Two grants sit behind the same header, selected by `X-Grant-Type`: absent means
//! `client_credentials`, `password` means the resource-owner password grant, anything else is a
//! `400`.
use std::marker::PhantomData;
use vstd::prelude::*;

use crate::authenticator::{AuthContext, AuthProfile, Authenticator};
use crate::cache::{self, CacheConfig, CacheKey, CacheView, CredentialCache, KeyView};
use crate::claims::{self, ClaimSource, ClaimsView, IdentityClaims};
use crate::credential::{Credential, CredentialView};
use crate::error::{AuthError, AuthErrorView};
use crate::mechanisms::api_token;
use crate::oidc::error::{self, TokenExchangeError};
use crate::oidc::provider::NonceCheck;
use crate::outcome::Verdict;
use crate::request::RequestView;
use crate::scope::{self, AuthScope};
use crate::secret::SecretString;
use crate::text;
use crate::time::{self, Duration};

verus! {

/// The header selecting which grant a `Basic` pair is validated under.
pub const GRANT_TYPE_HEADER: &'static str = "x-grant-type";

/// The grant a `Basic` pair is validated under.
#[derive(Clone, Copy, Debug, PartialEq, Eq, Structural)]
pub enum Grant {
    ClientCredentials,
    Password,
}

impl Grant {
    /// What the grant's principals are cached under.
    pub open spec fn mechanism(self) -> Seq<char> {
        match self {
            Grant::ClientCredentials => "basic-client-credentials"@,
            Grant::Password => "basic-password"@,
        }
    }

    fn cache_name(&self) -> (name: &'static str)
        ensures
            name@ == self.mechanism(),
    {
        match self {
            Grant::ClientCredentials => "basic-client-credentials",
            Grant::Password => "basic-password",
        }
    }
}

/// The grant that a request asks for, as far as it is enabled.
pub open spec fn requested_grant(header: Option<Seq<char>>, allow_password: bool) -> Result<
    Grant,
    AuthErrorView,
> {
    match header {
        None => Ok(Grant::ClientCredentials),
        Some(kind) => if kind == "password"@ {
            if allow_password {
                Ok(Grant::Password)
            } else {
                Err(
                    AuthErrorView::Unsupported {
                        detail: "the resource-owner password grant is not enabled"@,
                    },
                )
            }
        } else {
            Err(AuthErrorView::MalformedCredential { detail: "unsupported x-grant-type: "@ + kind })
        },
    }
}

/// Validates a `Basic` credential by exchanging it at the token endpoint.
pub struct BasicAuthenticator<P: AuthProfile> {
    cache: CredentialCache<P::User>,
    allow_password_grant: bool,
    profile: PhantomData<P>,
}

/// A `Basic` pair that is to be exchanged at the token endpoint.
pub struct PendingGrant {
    id: String,
    secret: SecretString,
    cache_key: CacheKey,
}

impl PendingGrant {
    /// The user or client id of the pair.
    pub closed spec fn presented_id(self) -> Seq<char> {
        self.id@
    }

    /// The password or client secret of the pair.
    pub closed spec fn presented_secret(self) -> Seq<char> {
        self.secret@
    }

    /// What the resolved principal is cached under.
    pub closed spec fn cached_under(self) -> KeyView {
        self.cache_key@
    }

    pub fn id(&self) -> (id: &str)
        ensures
            id@ == self.presented_id(),
    {
        self.id.as_str()
    }

    pub fn secret(&self) -> (secret: &str)
        ensures
            secret@ == self.presented_secret(),
    {
        self.secret.expose_secret()
    }
}

/// A password grant that waits for the verification of its ID token. The token was minted outside
/// an authorization request, so there is no nonce for it to carry.
pub struct PendingIdentity {
    id_token: String,
    expires_in: Option<Duration>,
    cache_key: CacheKey,
}

impl PendingIdentity {
    /// The token to verify.
    pub closed spec fn token(self) -> Seq<char> {
        self.id_token@
    }

    /// The lifetime the token endpoint reported.
    pub closed spec fn lifetime(self) -> Option<nat> {
        time::optional_span(self.expires_in)
    }

    /// What the resolved principal is cached under.
    pub closed spec fn cached_under(self) -> KeyView {
        self.cache_key@
    }

    /// The ID token to verify.
    pub fn id_token(&self) -> (token: &str)
        ensures
            token@ == self.token(),
    {
        self.id_token.as_str()
    }

    /// How to check its nonce: not at all, since there is none for it to carry.
    pub fn nonce_check(&self) -> (check: NonceCheck)
        ensures
            check is Skip,
    {
        NonceCheck::Skip
    }
}

/// What comes next for a request.
pub enum BasicStep<U> {
    /// The authenticator answers.
    Answered(Result<Verdict<U>, AuthError>),
    /// Exchange the pair under this grant. A machine's pair is exchanged as its own client, which
    /// is what proves it, and without scopes; a password is exchanged as this service's client
    /// with the configured scopes.
    Exchange(Grant, PendingGrant),
}

/// The cache key of a `Basic` pair under a grant.
pub open spec fn grant_key(
    scope: Option<Seq<char>>,
    grant: Grant,
    id: Seq<char>,
    secret: Seq<char>,
) -> KeyView {
    KeyView {
        scope,
        mechanism: grant.mechanism(),
        principal: id,
        digest: cache::blake3_digest(vstd::utf8::encode_utf8(secret)),
    }
}

/// The claims of a machine: there is no user identity in a machine grant, so the validated client
/// id is the principal.
pub open spec fn machine_claims(id: Seq<char>) -> ClaimsView {
    ClaimsView {
        subject: Some(id),
        client_id: Some(id),
        preferred_username: Some(id),
        ..ClaimsView::blank(ClaimSource::ClientCredentials)
    }
}

impl<P: AuthProfile> BasicAuthenticator<P> {
    /// The principals that were resolved before.
    pub closed spec fn cached(self) -> CacheView<P::User> {
        self.cache@
    }

    /// Whether the password grant is enabled.
    pub closed spec fn allows_password(self) -> bool {
        self.allow_password_grant
    }

    /// Enables the `client_credentials` grant only.
    ///
    /// The resource-owner password grant is off by default. OAuth 2.1 removes it: it requires the
    /// client to handle the user's password directly, which defeats federated login and blocks
    /// MFA, and many providers reject it outright.
    pub fn new() -> (authenticator: BasicAuthenticator<P>)
        ensures
            !authenticator.allows_password(),
            authenticator.cached().is_default(),
    {
        BasicAuthenticator {
            cache: CredentialCache::default(),
            allow_password_grant: false,
            profile: PhantomData,
        }
    }

    pub fn with_password_grant(self, allow: bool) -> (authenticator: BasicAuthenticator<P>)
        ensures
            authenticator.allows_password() == allow,
            authenticator.cached() == self.cached(),
    {
        BasicAuthenticator { allow_password_grant: allow, ..self }
    }

    /// Starts a new cache with the given limits.
    pub fn with_cache_config(self, config: CacheConfig) -> (authenticator: BasicAuthenticator<P>)
        ensures
            authenticator.allows_password() == self.allows_password(),
            authenticator.cached() == (CacheView {
                config,
                entries: Map::<KeyView, cache::EntryView<P::User>>::empty(),
                clock: 0,
            }),
    {
        BasicAuthenticator { cache: CredentialCache::new(config), ..self }
    }

    /// Whether `step` and `after` are the step and the cache that follow when a pair is looked up
    /// for a grant: a cached principal answers, any other pair is exchanged.
    pub open spec fn looks_up(
        self,
        grant: Grant,
        scope: Option<Seq<char>>,
        id: Seq<char>,
        secret: Seq<char>,
        now: nat,
        after: CacheView<P::User>,
        step: BasicStep<P::User>,
    ) -> bool {
        let key = grant_key(scope, grant, id, secret);
        &&& after == self.cached().touched(key, now)
        &&& if self.cached().hits(key, now) {
            step matches BasicStep::Answered(Ok(Verdict::Authenticated(user))) && cloned::<P::User>(
                self.cached().entries[key].value,
                user,
            )
        } else {
            step matches BasicStep::Exchange(asked, pending) && asked == grant
                && pending.presented_id() == id && pending.presented_secret() == secret
                && pending.cached_under() == key
        }
    }

    /// Whether `step` and `after` are the step and the cache that follow a request.
    pub open spec fn starts(
        self,
        request: RequestView,
        credential: CredentialView,
        scope: P::Scope,
        now: nat,
        after: CacheView<P::User>,
        step: BasicStep<P::User>,
    ) -> bool {
        match credential {
            CredentialView::Basic { id, secret } => match requested_grant(
                request.header(GRANT_TYPE_HEADER@),
                self.allows_password(),
            ) {
                Ok(grant) => exists|discriminator: Option<Seq<char>>| #[trigger]
                    scope::says_discriminator(scope, discriminator) && self.looks_up(
                        grant,
                        discriminator,
                        id,
                        secret,
                        now,
                        after,
                        step,
                    ),
                Err(refusal) => after == self.cached() && (step matches BasicStep::Answered(
                    Err(error),
                ) && error@ == refusal),
            },
            _ => after == self.cached() && step == BasicStep::Answered(
                Ok::<Verdict<P::User>, AuthError>(Verdict::NotApplicable),
            ),
        }
    }

    /// Whether `answer` and `after` are the answer and the cache once the caller is known by
    /// `claims`: the principal is cached for the reported lifetime.
    pub open spec fn concludes(
        self,
        claims: ClaimsView,
        conversion: Seq<char>,
        key: KeyView,
        expires_in: Option<nat>,
        now: nat,
        after: CacheView<P::User>,
        answer: Result<Verdict<P::User>, AuthError>,
    ) -> bool {
        exists|result: Result<P::User, AuthError>|
            {
                &&& #[trigger] claims::converts(claims, conversion, result)
                &&& match result {
                    Err(error) => after == self.cached() && answer == Err::<
                        Verdict<P::User>,
                        AuthError,
                    >(error),
                    Ok(user) => answer == Ok::<Verdict<P::User>, AuthError>(
                        Verdict::Authenticated(user),
                    ) && exists|stored: P::User| #[trigger]
                        cloned(user, stored) && self.cached().stores(
                            key,
                            stored,
                            expires_in,
                            now,
                            after,
                        ),
                }
            }
    }

    /// Examines a request at the reading `now` of the caller's monotonic clock.
    pub fn begin(&mut self, ctx: &AuthContext<P>, now: Duration) -> (step: BasicStep<P::User>)
        ensures
            old(self).starts(
                ctx.request@,
                ctx.credential@,
                *ctx.scope,
                now@,
                final(self).cached(),
                step,
            ),
            final(self).allows_password() == old(self).allows_password(),
    {
        let (id, secret) = match ctx.credential {
            Credential::Basic { id, secret } => (id, secret),
            _ => {
                return BasicStep::Answered(Ok(Verdict::NotApplicable));
            },
        };
        let secret = secret.expose_secret();
        let grant = match ctx.request.header(GRANT_TYPE_HEADER) {
            None => Grant::ClientCredentials,
            Some(kind) => {
                if text::equal(kind, "password") {
                    if self.allow_password_grant {
                        Grant::Password
                    } else {
                        return BasicStep::Answered(
                            Err(
                                AuthError::unsupported(
                                    "the resource-owner password grant is not enabled",
                                ),
                            ),
                        );
                    }
                } else {
                    return BasicStep::Answered(
                        Err(
                            AuthError::malformed_credential(
                                text::join("unsupported x-grant-type: ", kind).as_str(),
                            ),
                        ),
                    );
                }
            },
        };
        let scope = ctx.scope.cache_discriminator();
        assert(scope::says_discriminator(*ctx.scope, text::optional_str(scope)));
        let cache_key = CredentialCache::<P::User>::key(
            scope,
            grant.cache_name(),
            id.as_str(),
            secret,
        );
        match self.cache.get(&cache_key, now) {
            Some(user) => BasicStep::Answered(Ok(Verdict::Authenticated(user))),
            None => BasicStep::Exchange(
                grant,
                PendingGrant {
                    id: id.clone(),
                    secret: SecretString::from(String::from_str(secret)),
                    cache_key,
                },
            ),
        }
    }

    fn conclude(
        &mut self,
        claims: IdentityClaims,
        conversion: &str,
        key: CacheKey,
        expires_in: Option<Duration>,
        now: Duration,
    ) -> (answer: Result<Verdict<P::User>, AuthError>)
        ensures
            old(self).concludes(
                claims@,
                conversion@,
                key@,
                time::optional_span(expires_in),
                now@,
                final(self).cached(),
                answer,
            ),
            final(self).allows_password() == old(self).allows_password(),
    {
        let ghost said = claims@;
        let result = claims::convert::<P::User>(claims, conversion);
        assert(claims::converts(said, conversion@, result));
        match result {
            Ok(user) => {
                let stored = user.clone();
                assert(cloned(user, stored));
                self.cache.insert(key, stored, expires_in, now);
                Ok(Verdict::Authenticated(user))
            },
            Err(error) => Err(error),
        }
    }

    /// Answers with the token endpoint's reply to a machine's pair: the lifetime it reported, if
    /// any.
    pub fn finish_client_credentials(
        &mut self,
        pending: PendingGrant,
        reply: Result<Option<Duration>, TokenExchangeError>,
        now: Duration,
    ) -> (answer: Result<Verdict<P::User>, AuthError>)
        ensures
            match reply {
                Ok(expires_in) => old(self).concludes(
                    machine_claims(pending.presented_id()),
                    "client-credentials identity conversion"@,
                    pending.cached_under(),
                    time::optional_span(expires_in),
                    now@,
                    final(self).cached(),
                    answer,
                ),
                Err(fault) => final(self).cached() == old(self).cached() && answer is Err
                    && answer->Err_0@ == error::failed_exchange(fault),
            },
            final(self).allows_password() == old(self).allows_password(),
    {
        match reply {
            Ok(expires_in) => {
                let id = pending.id.as_str();
                let claims = IdentityClaims::new(ClaimSource::ClientCredentials);
                let claims = claims.with_subject(id);
                let claims = claims.with_client_id(id);
                let claims = claims.with_preferred_username(id);
                self.conclude(
                    claims,
                    "client-credentials identity conversion",
                    pending.cache_key,
                    expires_in,
                    now,
                )
            },
            Err(fault) => Err(AuthError::from(fault)),
        }
    }

    /// Goes on with the token endpoint's reply to a password: the ID token it sent, if any, and
    /// the lifetime it reported, if any.
    pub fn exchanged_password(
        &self,
        pending: PendingGrant,
        reply: Result<(Option<String>, Option<Duration>), TokenExchangeError>,
    ) -> (result: Result<PendingIdentity, AuthError>)
        ensures
            match reply {
                Ok((Some(id_token), expires_in)) => result matches Ok(identity) && identity.token()
                    == id_token@ && identity.lifetime() == time::optional_span(expires_in)
                    && identity.cached_under() == pending.cached_under(),
                Ok((None, _)) => result matches Err(refusal) && refusal@
                    == (AuthErrorView::Upstream { detail: "token response carried no id_token"@ }),
                Err(fault) => result matches Err(refusal) && refusal@ == error::failed_exchange(
                    fault,
                ),
            },
    {
        match reply {
            Ok((Some(id_token), expires_in)) => Ok(
                PendingIdentity { id_token, expires_in, cache_key: pending.cache_key },
            ),
            Ok((None, _)) => Err(AuthError::upstream("token response carried no id_token")),
            Err(fault) => Err(AuthError::from(fault)),
        }
    }

    /// Answers with the verdict on a password grant's ID token.
    pub fn finish_password(
        &mut self,
        pending: PendingIdentity,
        verified: Result<IdentityClaims, AuthError>,
        now: Duration,
    ) -> (answer: Result<Verdict<P::User>, AuthError>)
        ensures
            match verified {
                Ok(found) => old(self).concludes(
                    found@,
                    "password-grant identity conversion"@,
                    pending.cached_under(),
                    pending.lifetime(),
                    now@,
                    final(self).cached(),
                    answer,
                ),
                Err(rejected) => final(self).cached() == old(self).cached() && answer == Err::<
                    Verdict<P::User>,
                    AuthError,
                >(rejected),
            },
            final(self).allows_password() == old(self).allows_password(),
    {
        match verified {
            Ok(found) => self.conclude(
                found,
                "password-grant identity conversion",
                pending.cache_key,
                pending.expires_in,
                now,
            ),
            Err(rejected) => Err(rejected),
        }
    }
}

impl<P: AuthProfile> Authenticator<P> for BasicAuthenticator<P> {
    fn name(&self) -> (name: &'static str)
        ensures
            name@ == "basic"@,
    {
        "basic"
    }
}

/// The password grant is used only where it is enabled.
pub proof fn password_grant_must_be_enabled(header: Option<Seq<char>>, allow_password: bool)
    ensures
        requested_grant(header, allow_password) == Ok::<Grant, AuthErrorView>(Grant::Password)
            ==> allow_password,
{
}

/// The header is absent or says `password`: anything else is refused as malformed.
pub proof fn other_grant_types_are_refused(kind: Seq<char>, allow_password: bool)
    requires
        kind != "password"@,
    ensures
        requested_grant(Some(kind), allow_password) matches Err(error) && error.status() == 400,
{
}

/// A principal cached under one grant is never served for the other, and one cached for a tenant
/// never for another, even for the same pair.
pub proof fn grants_and_tenants_are_cached_apart(
    scope: Option<Seq<char>>,
    other: Option<Seq<char>>,
    grant: Grant,
    id: Seq<char>,
    secret: Seq<char>,
)
    requires
        scope != other,
    ensures
        grant_key(scope, Grant::Password, id, secret) != grant_key(
            scope,
            Grant::ClientCredentials,
            id,
            secret,
        ),
        grant_key(scope, grant, id, secret) != grant_key(other, grant, id, secret),
{
    reveal_strlit("basic-password");
    reveal_strlit("basic-client-credentials");
    assert("basic-password"@.len() == 14);
    assert("basic-client-credentials"@.len() == 24);
}

/// Which grant a `Basic` pair is exchanged under: the machine grant without the header, the
/// password grant where the header says so and it is enabled. The pair that is exchanged is the one
/// that was presented, unless its principal is cached under that grant and that scope.
pub proof fn presented_pair_is_exchanged<P: AuthProfile>(
    authenticator: &mut BasicAuthenticator<P>,
    ctx: AuthContext<P>,
    now: Duration,
    step: BasicStep<P::User>,
    id: Seq<char>,
    secret: Seq<char>,
    scope: Option<Seq<char>>,
)
    requires
        call_ensures(BasicAuthenticator::<P>::begin, (authenticator, &ctx, now), step),
        ctx.credential@ == (CredentialView::Basic { id, secret }),
        api_token::is_discriminated(*ctx.scope, scope),
    ensures
        ({
            let header = ctx.request@.header("x-grant-type"@);
            let machine = header is None;
            let password = header == Some("password"@) && old(authenticator).allows_password();
            let under = KeyView {
                scope,
                mechanism: if machine {
                    "basic-client-credentials"@
                } else {
                    "basic-password"@
                },
                principal: id,
                digest: cache::blake3_digest(vstd::utf8::encode_utf8(secret)),
            };
            if machine || password {
                if old(authenticator).cached().hits(under, now@) {
                    step matches BasicStep::Answered(Ok(Verdict::Authenticated(user))) && cloned(
                        old(authenticator).cached().entries[under].value,
                        user,
                    )
                } else {
                    step matches BasicStep::Exchange(grant, pending) && (grant
                        is ClientCredentials) == machine && pending.presented_id() == id
                        && pending.presented_secret() == secret && pending.cached_under() == under
                }
            } else {
                &&& final(authenticator).cached() == old(authenticator).cached()
                &&& step matches BasicStep::Answered(Err(error)) && error@.status() == if header
                    == Some("password"@) {
                    501u16
                } else {
                    400u16
                }
            }
        }),
        final(authenticator).allows_password() == old(authenticator).allows_password(),
{
    assert(GRANT_TYPE_HEADER@ == "x-grant-type"@);
}

/// Whatever is no `Basic` pair is somebody else's, and leaves no trace.
pub proof fn other_credentials_are_declined<P: AuthProfile>(
    authenticator: &mut BasicAuthenticator<P>,
    ctx: AuthContext<P>,
    now: Duration,
    step: BasicStep<P::User>,
)
    requires
        call_ensures(BasicAuthenticator::<P>::begin, (authenticator, &ctx, now), step),
        !(ctx.credential@ is Basic),
    ensures
        step == BasicStep::Answered(Ok::<Verdict<P::User>, AuthError>(Verdict::NotApplicable)),
        final(authenticator).cached() == old(authenticator).cached(),
{
}

/// A machine whose pair the token endpoint accepted is the client it authenticated as; one whose
/// pair was not accepted is nobody, and is not cached.
pub proof fn machine_is_the_client_it_authenticated_as<P: AuthProfile>(
    authenticator: &mut BasicAuthenticator<P>,
    pending: PendingGrant,
    reply: Result<Option<Duration>, TokenExchangeError>,
    now: Duration,
    answer: Result<Verdict<P::User>, AuthError>,
)
    requires
        call_ensures(
            BasicAuthenticator::<P>::finish_client_credentials,
            (authenticator, pending, reply, now),
            answer,
        ),
    ensures
        reply is Ok ==> exists|claims: ClaimsView| #[trigger]
            claims::identifies(claims, "client-credentials identity conversion"@, answer) && {
                &&& claims.subject == Some(pending.presented_id())
                &&& claims.client_id == Some(pending.presented_id())
                &&& claims.preferred_username == Some(pending.presented_id())
                &&& claims.best_effort_username() == Some(pending.presented_id())
                &&& claims.email is None && claims.name is None && claims.scope is None
                &&& claims.source == ClaimSource::ClientCredentials
            },
        reply is Err ==> answer is Err && error::is_attributed(reply->Err_0, answer->Err_0@),
        answer is Err ==> final(authenticator).cached() == old(authenticator).cached(),
{
    if reply is Ok {
        let claims = machine_claims(pending.presented_id());
        let result = match answer {
            Ok(Verdict::Authenticated(user)) => Ok::<P::User, AuthError>(user),
            Ok(Verdict::NotApplicable) => arbitrary(),
            Err(error) => Err(error),
        };
        assert(claims::converts(claims, "client-credentials identity conversion"@, result));
        assert(claims::identifies(claims, "client-credentials identity conversion"@, answer));
    }
}

/// A machine's principal is served from the cache until the margin before the token that was minted
/// for it expires, and never at or after that expiry.
pub proof fn machine_is_served_until_the_margin<P: AuthProfile>(
    authenticator: &mut BasicAuthenticator<P>,
    pending: PendingGrant,
    span: Duration,
    now: Duration,
    user: P::User,
    later: nat,
)
    requires
        call_ensures(
            BasicAuthenticator::<P>::finish_client_credentials,
            (authenticator, pending, Ok(Some(span)), now),
            Ok(Verdict::Authenticated(user)),
        ),
        old(authenticator).cached().config.max_entries > 0,
        now@ + span@ < time::duration_bound(),
    ensures
        old(authenticator).cached().config.refresh_margin@ < span@ ==> {
            &&& final(authenticator).cached().hits(pending.cached_under(), later)
                == (later + old(authenticator).cached().config.refresh_margin@ < now@ + span@)
            &&& cloned(user, final(authenticator).cached().entries[pending.cached_under()].value)
        },
        old(authenticator).cached().config.refresh_margin@ >= span@
            ==> final(authenticator).cached() == old(authenticator).cached(),
{
}

/// A token endpoint's reply to a password is good for its ID token alone, which is the one that is
/// verified, and without a nonce; a reply without one is the endpoint's fault.
pub proof fn password_rests_on_its_id_token<P: AuthProfile>(
    authenticator: BasicAuthenticator<P>,
    pending: PendingGrant,
    reply: Result<(Option<String>, Option<Duration>), TokenExchangeError>,
    result: Result<PendingIdentity, AuthError>,
    token: &str,
    check: NonceCheck,
)
    requires
        call_ensures(
            BasicAuthenticator::<P>::exchanged_password,
            (&authenticator, pending, reply),
            result,
        ),
        result is Ok ==> call_ensures(PendingIdentity::id_token, (&result->Ok_0,), token),
        result is Ok ==> call_ensures(PendingIdentity::nonce_check, (&result->Ok_0,), check),
    ensures
        (result is Ok) == (reply is Ok && reply->Ok_0.0 is Some),
        result is Ok ==> {
            &&& token@ == reply->Ok_0.0->Some_0@
            &&& check is Skip
            &&& result->Ok_0.lifetime() == time::optional_span(reply->Ok_0.1)
            &&& result->Ok_0.cached_under() == pending.cached_under()
        },
        reply is Ok && result is Err ==> result->Err_0@.status() == 503,
        reply is Err ==> error::is_attributed(reply->Err_0, result->Err_0@),
{
}

/// A user whose password was exchanged is whoever the ID token says, once it is verified, and is
/// served from the cache until the margin before the reported expiry. A token that is not verified
/// is nobody's, and its user is not cached.
pub proof fn user_is_served_until_the_margin<P: AuthProfile>(
    authenticator: &mut BasicAuthenticator<P>,
    pending: PendingIdentity,
    verified: Result<IdentityClaims, AuthError>,
    now: Duration,
    answer: Result<Verdict<P::User>, AuthError>,
    span: nat,
    later: nat,
)
    requires
        call_ensures(
            BasicAuthenticator::<P>::finish_password,
            (authenticator, pending, verified, now),
            answer,
        ),
    ensures
        match verified {
            Err(error) => answer == Err::<Verdict<P::User>, AuthError>(error),
            Ok(claims) => claims::identifies(
                claims@,
                "password-grant identity conversion"@,
                answer,
            ),
        },
        answer is Err ==> final(authenticator).cached() == old(authenticator).cached(),
        answer is Ok && pending.lifetime() == Some(span)
            && old(authenticator).cached().config.refresh_margin@ < span
            && old(authenticator).cached().config.max_entries
            > 0 && now@ + span < time::duration_bound() ==> final(authenticator).cached().hits(
            pending.cached_under(),
            later,
        ) == (later + old(authenticator).cached().config.refresh_margin@ < now@ + span),
{
    if let Ok(claims) = verified {
        let result = match answer {
            Ok(Verdict::Authenticated(user)) => Ok::<P::User, AuthError>(user),
            Ok(Verdict::NotApplicable) => arbitrary(),
            Err(error) => Err(error),
        };
        assert(claims::converts(claims@, "password-grant identity conversion"@, result));
    }
}

/// The password grant is off unless it is switched on, and nothing else of the authenticator
/// depends on the switch.
pub proof fn password_grant_is_off_by_default<P: AuthProfile>(
    fresh: BasicAuthenticator<P>,
    allow: bool,
    switched: BasicAuthenticator<P>,
)
    requires
        call_ensures(BasicAuthenticator::<P>::new, (), fresh),
        call_ensures(BasicAuthenticator::<P>::with_password_grant, (fresh, allow), switched),
    ensures
        !fresh.allows_password(),
        switched.allows_password() == allow,
        switched.cached() == fresh.cached(),
{
}

/// A machine for which no expiry was reported is served for the fallback lifetime.
pub proof fn machine_without_expiry_is_served_for_the_fallback<P: AuthProfile>(
    authenticator: &mut BasicAuthenticator<P>,
    pending: PendingGrant,
    now: Duration,
    user: P::User,
    later: nat,
)
    requires
        call_ensures(
            BasicAuthenticator::<P>::finish_client_credentials,
            (authenticator, pending, Ok(None), now),
            Ok(Verdict::Authenticated(user)),
        ),
        old(authenticator).cached().config.max_entries > 0,
        old(authenticator).cached().config.fallback_ttl@ > 0,
        now@ + old(authenticator).cached().config.fallback_ttl@ < time::duration_bound(),
    ensures
        final(authenticator).cached().hits(pending.cached_under(), later) == (later < now@
            + old(authenticator).cached().config.fallback_ttl@),
        cloned(user, final(authenticator).cached().entries[pending.cached_under()].value),
{
}

/// What is to be exchanged is handed out as it was presented.
pub proof fn pair_is_handed_out_as_presented(pending: PendingGrant, id: &str, secret: &str)
    requires
        call_ensures(PendingGrant::id, (&pending,), id),
        call_ensures(PendingGrant::secret, (&pending,), secret),
    ensures
        id@ == pending.presented_id() && secret@ == pending.presented_secret(),
{
}

/// Examining a request costs no cached principal its place, its identity or its lifetime, and adds
/// none.
pub proof fn examination_keeps_the_cached_principals<P: AuthProfile>(
    authenticator: &mut BasicAuthenticator<P>,
    ctx: AuthContext<P>,
    now: Duration,
    step: BasicStep<P::User>,
    key: KeyView,
)
    requires
        call_ensures(BasicAuthenticator::<P>::begin, (authenticator, &ctx, now), step),
    ensures
        final(authenticator).cached().entries.contains_key(key)
            == old(authenticator).cached().entries.contains_key(key),
        old(authenticator).cached().entries.contains_key(key) ==> {
            &&& final(authenticator).cached().entries[key].value == old(authenticator).cached().entries[key].value
            &&& final(authenticator).cached().entries[key].expires_at
                == old(authenticator).cached().entries[key].expires_at
        },
        final(authenticator).cached().config == old(authenticator).cached().config,
{
}

/// A user for whom no expiry was reported is served for the fallback lifetime.
pub proof fn user_without_expiry_is_served_for_the_fallback<P: AuthProfile>(
    authenticator: &mut BasicAuthenticator<P>,
    pending: PendingIdentity,
    claims: IdentityClaims,
    now: Duration,
    user: P::User,
    later: nat,
)
    requires
        call_ensures(
            BasicAuthenticator::<P>::finish_password,
            (authenticator, pending, Ok(claims), now),
            Ok(Verdict::Authenticated(user)),
        ),
        pending.lifetime() is None,
        old(authenticator).cached().config.max_entries > 0,
        old(authenticator).cached().config.fallback_ttl@ > 0,
        now@ + old(authenticator).cached().config.fallback_ttl@ < time::duration_bound(),
    ensures
        final(authenticator).cached().hits(pending.cached_under(), later) == (later < now@
            + old(authenticator).cached().config.fallback_ttl@),
        cloned(user, final(authenticator).cached().entries[pending.cached_under()].value),
{
}

/// The authenticator is known as `basic`.
pub proof fn authenticator_is_known_by_its_name<P: AuthProfile>(it: BasicAuthenticator<P>, name: &'static str)
    requires
        call_ensures(<BasicAuthenticator<P> as Authenticator<P>>::name, (&it,), name),
    ensures
        name@ == "basic"@,
{
}

} // verus!
