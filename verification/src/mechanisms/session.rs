//! Browser-session authentication from a cookie.
use std::marker::PhantomData;
use std::sync::Arc;
use vstd::prelude::*;

use crate::authenticator::{AuthContext, AuthProfile, Authenticator};
use crate::claims::{self, IdentityClaims};
use crate::cookie::{self, CookieId, CookieView};
use crate::error::{AuthError, AuthErrorView};
use crate::oidc::login::{self, AuthUrl, FlowView, LoginFlow};
use crate::oidc::protection::ProtectionView;
use crate::oidc::provider::NonceCheck;
use crate::oidc::session::{IdTokenCodec, Session, SessionCodec};
use crate::outcome::Verdict;
use crate::request::{AuthRequest, RequestView};
use crate::scope::{self, AuthScope};
use crate::text;

verus! {

/// Authenticates a request from its session cookie, whose name the scope gives.
///
/// This belongs last in a chain. When configured to challenge, it is the only authenticator that
/// turns an absent credential into a response.
pub struct SessionAuthenticator<P: AuthProfile, C: SessionCodec = IdTokenCodec> {
    codec: C,
    /// When present, an unauthenticated browser navigation is redirected into the login flow at
    /// this authorization endpoint. When absent, it is refused, which is right for a service with
    /// no interactive login.
    login: Option<Arc<LoginFlow<C>>>,
    profile: PhantomData<P>,
}

/// What comes next for a request.
pub enum SessionStep<U> {
    /// The authenticator answers.
    Answered(Result<Verdict<U>, AuthError>),
    /// Verify this ID token under this nonce check, and finish with the outcome.
    Verify { token: String, nonce: NonceCheck },
}

/// Where the user is, to be returned there after a login.
pub open spec fn location_of(request: RequestView) -> Seq<char> {
    if request.query.len() > 0 {
        request.path.push('?') + request.query
    } else {
        request.path
    }
}

/// Whether `error` is what a redirect into the login flow comes to: one that its callback takes
/// up, unless the destination is refused.
pub open spec fn redirects(
    flow: FlowView,
    endpoint: Seq<char>,
    destination: Seq<char>,
    error: AuthErrorView,
) -> bool {
    exists|data: ProtectionView| #[trigger]
        flow.mints(data) && data.destination == destination && error == (match flow.authorizes(
            endpoint,
            data,
        ) {
            Ok(redirect) => AuthErrorView::Redirect {
                location: redirect.location,
                cookies: redirect.cookies,
            },
            Err(refusal) => refusal,
        }) && (flow.authorizes(endpoint, data) matches Ok(redirect) ==> login::is_taken_up(
            data,
            redirect.cookies[0].value,
        ))
}

/// Whether `error` is how an unauthenticated request is answered: by a redirect into the login
/// flow when there is one and the request is a navigation, else by `fallback`.
///
/// Only `GET` is redirected. The browser returns from the provider with a `GET`, so redirecting any
/// other method would silently discard the request body.
pub open spec fn challenges(
    flow: Option<FlowView>,
    endpoint: Seq<char>,
    request: RequestView,
    fallback: AuthError,
    error: AuthError,
) -> bool {
    match flow {
        Some(flow) => if request.method == "GET"@ {
            redirects(flow, endpoint, location_of(request), error@)
        } else {
            error == fallback
        },
        None => error == fallback,
    }
}

/// The configuration of an optional login flow.
pub open spec fn flow_view<C: SessionCodec>(login: Option<Arc<LoginFlow<C>>>) -> Option<FlowView> {
    match login {
        Some(flow) => Some(flow@),
        None => None,
    }
}

impl<P: AuthProfile> SessionAuthenticator<P, IdTokenCodec> {
    pub fn new() -> (authenticator: SessionAuthenticator<P, IdTokenCodec>)
        ensures
            authenticator.flow() is None,
    {
        SessionAuthenticator::with_codec(IdTokenCodec)
    }
}

impl<P: AuthProfile, C: SessionCodec> SessionAuthenticator<P, C> {
    /// What sessions are read with.
    pub closed spec fn reads_with(self) -> C {
        self.codec
    }

    /// The login flow that navigations are redirected into, if any.
    pub closed spec fn flow(self) -> Option<FlowView> {
        flow_view(self.login)
    }

    pub fn with_codec(codec: C) -> (authenticator: SessionAuthenticator<P, C>)
        ensures
            authenticator.reads_with() == codec,
            authenticator.flow() is None,
    {
        SessionAuthenticator { codec, login: None, profile: PhantomData }
    }

    /// Redirects unauthenticated browser navigations into `login`.
    pub fn with_login_redirect(self, login: Arc<LoginFlow<C>>) -> (authenticator:
        SessionAuthenticator<P, C>)
        ensures
            authenticator.reads_with() == self.reads_with(),
            authenticator.flow() == Some(login@),
    {
        SessionAuthenticator { login: Some(login), ..self }
    }

    /// Builds a redirect into the login flow, returning the user to where they were.
    fn challenge(&self, request: &AuthRequest, endpoint: &AuthUrl, fallback: AuthError) -> (error:
        AuthError)
        ensures
            challenges(self.flow(), endpoint@, request@, fallback, error),
    {
        let login = match &self.login {
            Some(login) => login,
            None => {
                return fallback;
            },
        };
        if !text::equal(request.method(), "GET") {
            return fallback;
        }
        let mut destination = String::from_str(request.path());
        if request.query().unicode_len() > 0 {
            destination.push('?');
            destination.append(request.query());
        }
        assert(destination@ =~= location_of(request@));
        match login.authorize(endpoint, destination.as_str()) {
            Ok(redirect) => AuthError::redirect(redirect.location.as_str(), redirect.cookies),
            Err(error) => error,
        }
    }

    /// Whether `step` is the first one for a request that presents the credential.
    pub open spec fn starts(
        self,
        request: RequestView,
        absent: bool,
        cookie_name: Seq<char>,
        endpoint: Seq<char>,
        step: SessionStep<P::User>,
    ) -> bool {
        match request.cookie(cookie_name) {
            None => if !absent {
                step == SessionStep::Answered(
                    Ok::<Verdict<P::User>, AuthError>(Verdict::NotApplicable),
                )
            } else {
                step matches SessionStep::Answered(Err(error)) && exists|fallback: AuthError|
                    fallback@ == (AuthErrorView::Unauthenticated {
                        detail: "no session cookie"@,
                    }) && #[trigger] challenges(self.flow(), endpoint, request, fallback, error)
            },
            Some(raw) => exists|value: &str, decoded: Result<Session, AuthError>|
                {
                    &&& value@ == raw
                    &&& #[trigger] call_ensures(C::decode, (&self.reads_with(), value), decoded)
                    &&& match decoded {
                        Ok(session) => step matches SessionStep::Verify { token, nonce } && token@
                            == session@.id_token && nonce is Present,
                        Err(fallback) => step matches SessionStep::Answered(Err(error))
                            && challenges(self.flow(), endpoint, request, fallback, error),
                    }
                },
        }
    }

    /// Examines a request, with `endpoint` the provider's authorization endpoint.
    ///
    /// Without a session cookie, a client presenting some other credential is doing API
    /// authentication; it is not this authenticator's request to answer, and must never be
    /// redirected into an interactive login.
    pub fn begin(&self, ctx: &AuthContext<P>, endpoint: &AuthUrl) -> (step: SessionStep<P::User>)
        ensures
            exists|name: Seq<char>| #[trigger]
                scope::says_cookie_name(*ctx.scope, name) && self.starts(
                    ctx.request@,
                    ctx.credential@ is Absent,
                    name,
                    endpoint@,
                    step,
                ),
    {
        let cookie_name = ctx.scope.session_cookie_name();
        assert(scope::says_cookie_name(*ctx.scope, cookie_name@));
        let raw = match ctx.request.cookie(cookie_name.as_str()) {
            Some(raw) => raw,
            None => {
                if !ctx.credential.is_none() {
                    return SessionStep::Answered(Ok(Verdict::NotApplicable));
                }
                let fallback = AuthError::unauthenticated("no session cookie");
                let ghost given = fallback;
                let error = self.challenge(ctx.request, endpoint, fallback);
                assert(challenges(self.flow(), endpoint@, ctx.request@, given, error));
                return SessionStep::Answered(Err(error));
            },
        };
        let decoded = self.codec.decode(raw);
        assert(call_ensures(C::decode, (&self.reads_with(), raw), decoded));
        match decoded {
            Ok(session) => SessionStep::Verify {
                token: session.id_token,
                nonce: NonceCheck::Present,
            },
            Err(error) => SessionStep::Answered(
                Err(self.challenge(ctx.request, endpoint, error)),
            ),
        }
    }

    /// Answers with the verdict on the ID token. An expired or otherwise unusable session is a
    /// new login and no dead end, but only for a navigation, and only if a login flow exists.
    pub fn finish(
        &self,
        ctx: &AuthContext<P>,
        endpoint: &AuthUrl,
        verified: Result<IdentityClaims, AuthError>,
    ) -> (answer: Result<Verdict<P::User>, AuthError>)
        ensures
            match verified {
                Ok(found) => claims::identifies(found@, "session identity conversion"@, answer),
                Err(rejected) => if rejected@.status() == 401 {
                    answer is Err && challenges(
                        self.flow(),
                        endpoint@,
                        ctx.request@,
                        rejected,
                        answer->Err_0,
                    )
                } else {
                    answer == Err::<Verdict<P::User>, AuthError>(rejected)
                },
            },
    {
        match verified {
            Ok(found) => claims::identify(found, "session identity conversion"),
            Err(error) => {
                if error.status() == 401 {
                    Err(self.challenge(ctx.request, endpoint, error))
                } else {
                    Err(error)
                }
            },
        }
    }
}

impl<P: AuthProfile, C: SessionCodec> Authenticator<P> for SessionAuthenticator<P, C> {
    fn name(&self) -> (name: &'static str)
        ensures
            name@ == "session"@,
    {
        "session"
    }
}

/// A mutation is never redirected into a login: any method but `GET` is answered with the failure
/// at hand.
pub proof fn mutation_is_never_redirected(
    flow: Option<FlowView>,
    endpoint: Seq<char>,
    request: RequestView,
    fallback: AuthError,
    error: AuthError,
)
    requires
        challenges(flow, endpoint, request, fallback, error),
        request.method != "GET"@,
    ensures
        error == fallback,
{
}

/// A client that presents some other credential, and no session cookie, is never redirected into
/// an interactive login.
pub proof fn other_credentials_are_never_redirected<P: AuthProfile, C: SessionCodec>(
    authenticator: SessionAuthenticator<P, C>,
    request: RequestView,
    cookie_name: Seq<char>,
    endpoint: Seq<char>,
    step: SessionStep<P::User>,
)
    requires
        authenticator.starts(request, false, cookie_name, endpoint, step),
        request.cookie(cookie_name) is None,
    ensures
        step == SessionStep::Answered(Ok::<Verdict<P::User>, AuthError>(Verdict::NotApplicable)),
{
}

/// A session cookie is read by the codec, and its ID token is verified again, with any nonce. The
/// cookie is the one that the scope names. One that cannot be read is answered like a session that
/// is no longer good.
pub proof fn session_cookie_is_verified_again<P: AuthProfile, C: SessionCodec>(
    authenticator: SessionAuthenticator<P, C>,
    ctx: AuthContext<P>,
    endpoint: AuthUrl,
    step: SessionStep<P::User>,
    name: Seq<char>,
    raw: Seq<char>,
    jar: Map<CookieId, CookieView>,
)
    requires
        authenticator.flow() matches Some(flow) ==> flow.session.name != flow.protection.name
            && flow.protection.max_age >= 1_000_000_000,
        call_ensures(
            SessionAuthenticator::<P, C>::begin,
            (&authenticator, &ctx, &endpoint),
            step,
        ),
        forall|said: Seq<char>| #[trigger] scope::says_cookie_name(*ctx.scope, said) ==> said == name,
        ctx.request@.cookies.contains_key(name) && ctx.request@.cookies[name] == raw,
    ensures
        exists|value: &str, decoded: Result<Session, AuthError>|
            {
                &&& value@ == raw
                &&& #[trigger] call_ensures(
                    C::decode,
                    (&authenticator.reads_with(), value),
                    decoded,
                )
                &&& match decoded {
                    Ok(session) => step matches SessionStep::Verify { token, nonce } && token@
                        == session@.id_token && nonce is Present,
                    Err(unreadable) => step matches SessionStep::Answered(Err(error)) && {
                        if authenticator.flow() is Some && ctx.request@.method == "GET"@ {
                            leads_to_login(
                                authenticator.flow()->Some_0,
                                endpoint@,
                                ctx.request@,
                                error@,
                                jar,
                            )
                        } else {
                            error == unreadable
                        }
                    },
                }
            },
{
    let (value, decoded) = choose|value: &str, decoded: Result<Session, AuthError>|
        {
            &&& value@ == raw
            &&& #[trigger] call_ensures(C::decode, (&authenticator.reads_with(), value), decoded)
            &&& match decoded {
                Ok(session) => step matches SessionStep::Verify { token, nonce } && token@
                    == session@.id_token && nonce is Present,
                Err(fallback) => step matches SessionStep::Answered(Err(error)) && challenges(
                    authenticator.flow(),
                    endpoint@,
                    ctx.request@,
                    fallback,
                    error,
                ),
            }
        };
    if decoded is Err && authenticator.flow() is Some && ctx.request@.method == "GET"@ {
        if let SessionStep::Answered(Err(error)) = step {
            lemma_redirects(
                authenticator.flow()->Some_0,
                endpoint@,
                ctx.request@,
                error@,
                jar,
            );
        }
    }
    assert(call_ensures(C::decode, (&authenticator.reads_with(), value), decoded));
}

/// A session cookie that is the ID token itself is verified as it is.
pub proof fn id_token_cookie_is_verified_as_it_is<P: AuthProfile>(
    authenticator: SessionAuthenticator<P, IdTokenCodec>,
    ctx: AuthContext<P>,
    endpoint: AuthUrl,
    step: SessionStep<P::User>,
    name: Seq<char>,
    raw: Seq<char>,
)
    requires
        call_ensures(
            SessionAuthenticator::<P, IdTokenCodec>::begin,
            (&authenticator, &ctx, &endpoint),
            step,
        ),
        forall|said: Seq<char>| #[trigger] scope::says_cookie_name(*ctx.scope, said) ==> said == name,
        ctx.request@.cookies.contains_key(name) && ctx.request@.cookies[name] == raw,
        raw.len() > 0,
    ensures
        step matches SessionStep::Verify { token, nonce } && token@ == raw && nonce is Present,
{
}

/// Where an unauthenticated navigation is sent: to the provider, with a protection cookie in the
/// browser that holds where the user was, query included, and without the stale session.
pub open spec fn leads_to_login(
    flow: FlowView,
    endpoint: Seq<char>,
    request: RequestView,
    error: AuthErrorView,
    jar: Map<CookieId, CookieView>,
) -> bool {
    exists|data: ProtectionView| #[trigger]
        flow.mints(data) && {
            &&& request.query.len() == 0 ==> data.destination == request.path
            &&& request.query.len() > 0 ==> data.destination == request.path.push('?')
                + request.query
            &&& if flow.redirect_policy.objection(data.destination) is Some {
                error.status() == 400
            } else {
                error matches AuthErrorView::Redirect { location, cookies } && {
                    let held = cookie::held_after(jar, cookies);
                    &&& location == login::authorization_url(
                        endpoint,
                        flow.config.client_id,
                        flow.config.redirect_url,
                        flow.config.scopes,
                        data.csrf,
                        data.nonce,
                        data.pkce_verifier,
                    )
                    &&& held.contains_key(flow.protection.address())
                    &&& login::is_taken_up(data, held[flow.protection.address()].value)
                    &&& !held.contains_key(flow.session.address())
                }
            }
        }
}

proof fn lemma_redirects(
    flow: FlowView,
    endpoint: Seq<char>,
    request: RequestView,
    error: AuthErrorView,
    jar: Map<CookieId, CookieView>,
)
    requires
        redirects(flow, endpoint, location_of(request), error),
        flow.session.name != flow.protection.name,
        flow.protection.max_age >= 1_000_000_000,
    ensures
        leads_to_login(flow, endpoint, request, error, jar),
{
    let data = choose|data: ProtectionView| #[trigger]
        flow.mints(data) && data.destination == location_of(request) && error == (
        match flow.authorizes(endpoint, data) {
            Ok(redirect) => AuthErrorView::Redirect {
                location: redirect.location,
                cookies: redirect.cookies,
            },
            Err(refusal) => refusal,
        }) && (flow.authorizes(endpoint, data) matches Ok(redirect) ==> login::is_taken_up(
            data,
            redirect.cookies[0].value,
        ));
    if let Ok(redirect) = flow.authorizes(endpoint, data) {
        cookie::lemma_held_after_two(jar, redirect.cookies);
    }
    assert(flow.mints(data));
}

/// A request without a session and without any other credential is refused as unauthenticated, or,
/// where it is a navigation and there is a login flow, led into the login. A request with some
/// other credential is left to others.
pub proof fn missing_session_is_challenged<P: AuthProfile, C: SessionCodec>(
    authenticator: SessionAuthenticator<P, C>,
    ctx: AuthContext<P>,
    endpoint: AuthUrl,
    step: SessionStep<P::User>,
    name: Seq<char>,
    jar: Map<CookieId, CookieView>,
)
    requires
        call_ensures(
            SessionAuthenticator::<P, C>::begin,
            (&authenticator, &ctx, &endpoint),
            step,
        ),
        forall|said: Seq<char>| #[trigger] scope::says_cookie_name(*ctx.scope, said) ==> said == name,
        !ctx.request@.cookies.contains_key(name),
        authenticator.flow() matches Some(flow) ==> flow.session.name != flow.protection.name
            && flow.protection.max_age >= 1_000_000_000,
    ensures
        !(ctx.credential@ is Absent) ==> step == SessionStep::Answered(
            Ok::<Verdict<P::User>, AuthError>(Verdict::NotApplicable),
        ),
        ctx.credential@ is Absent ==> (step matches SessionStep::Answered(Err(error)) && {
            if authenticator.flow() is Some && ctx.request@.method == "GET"@ {
                leads_to_login(
                    authenticator.flow()->Some_0,
                    endpoint@,
                    ctx.request@,
                    error@,
                    jar,
                )
            } else {
                error@.status() == 401
            }
        }),
{
    if ctx.credential@ is Absent && authenticator.flow() is Some && ctx.request@.method == "GET"@ {
        if let SessionStep::Answered(Err(error)) = step {
            lemma_redirects(
                authenticator.flow()->Some_0,
                endpoint@,
                ctx.request@,
                error@,
                jar,
            );
        }
    }
}

/// The verdict on the ID token is the answer. A session that is no longer good leads a navigation
/// into the login where there is one; a failure of the service does not, and stays what it is.
pub proof fn stale_session_leads_to_login<P: AuthProfile, C: SessionCodec>(
    authenticator: SessionAuthenticator<P, C>,
    ctx: AuthContext<P>,
    endpoint: AuthUrl,
    verified: Result<IdentityClaims, AuthError>,
    answer: Result<Verdict<P::User>, AuthError>,
    jar: Map<CookieId, CookieView>,
)
    requires
        call_ensures(
            SessionAuthenticator::<P, C>::finish,
            (&authenticator, &ctx, &endpoint, verified),
            answer,
        ),
        authenticator.flow() matches Some(flow) ==> flow.session.name != flow.protection.name
            && flow.protection.max_age >= 1_000_000_000,
    ensures
        match verified {
            Ok(found) => claims::identifies(found@, "session identity conversion"@, answer),
            Err(error) => if error@.status() == 401 && authenticator.flow() is Some
                && ctx.request@.method == "GET"@ {
                answer is Err && leads_to_login(
                    authenticator.flow()->Some_0,
                    endpoint@,
                    ctx.request@,
                    answer->Err_0@,
                    jar,
                )
            } else {
                answer == Err::<Verdict<P::User>, AuthError>(error)
            },
        },
{
    if let Err(error) = verified {
        if error@.status() == 401 && authenticator.flow() is Some && ctx.request@.method
            == "GET"@ {
            lemma_redirects(
                authenticator.flow()->Some_0,
                endpoint@,
                ctx.request@,
                answer->Err_0@,
                jar,
            );
        }
    }
}

/// Nobody is sent to a login unless a flow was given, and then it is that one.
pub proof fn login_flow_is_the_one_given<P: AuthProfile, C: SessionCodec>(
    codec: C,
    bare: SessionAuthenticator<P, C>,
    flow: Arc<LoginFlow<C>>,
    challenging: SessionAuthenticator<P, C>,
)
    requires
        call_ensures(SessionAuthenticator::<P, C>::with_codec, (codec,), bare),
        call_ensures(SessionAuthenticator::<P, C>::with_login_redirect, (bare, flow), challenging),
    ensures
        bare.flow() is None,
        bare.reads_with() == codec && challenging.reads_with() == codec,
        challenging.flow() == Some(flow@),
{
}

/// The authenticator is known as `session`.
pub proof fn authenticator_is_known_by_its_name<P: AuthProfile, C: SessionCodec>(
    it: SessionAuthenticator<P, C>,
    name: &'static str,
)
    requires
        call_ensures(<SessionAuthenticator<P, C> as Authenticator<P>>::name, (&it,), name),
    ensures
        name@ == "session"@,
{
}

} // verus!
