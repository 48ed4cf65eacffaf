//! The framework-agnostic middleware core.
//!
//! What a web framework's middleware must do, namely resolve the request's scope, extract the
//! credential, run the chain and decide what an unclaimed request means, happens here on owned
//! data. A framework adapter is then only a translation layer: native request in, `AuthRequest`
//! out; `AuthError` in, native response out.
use vstd::prelude::*;

use crate::authenticator::{
    self, AuthChain, AuthProfile, Authenticator, ChainStep, Consultation, PublicScopePolicy,
};
use crate::credential::{self, Credential, CredentialView};
use crate::error::{AuthError, AuthErrorView};
use crate::outcome::{Outcome, Verdict};
use crate::request::AuthRequest;
use crate::scope::{self, AuthScope, ScopeResolver};
use crate::text;

verus! {

/// Ties a [`ScopeResolver`] to an [`AuthChain`] and answers the one question a middleware asks:
/// who, if anyone, is making this request?
pub struct AuthGateway<P: AuthProfile, R: ScopeResolver<Scope = P::Scope>, A: Authenticator<P>> {
    scopes: R,
    chain: AuthChain<P, A>,
}

/// A request that waits for the answer of one authenticator.
pub struct PendingRequest<P: AuthProfile> {
    credential: Credential,
    scope: P::Scope,
    consultation: Consultation,
}

impl<P: AuthProfile> PendingRequest<P> {
    /// What the request presents.
    pub closed spec fn presents(self) -> CredentialView {
        self.credential@
    }

    /// The scope the request targets.
    pub closed spec fn targets(self) -> P::Scope {
        self.scope
    }

    /// Which authenticator is asked.
    pub closed spec fn asks(self) -> Consultation {
        self.consultation
    }

    pub fn credential(&self) -> (credential: &Credential)
        ensures
            credential@ == self.presents(),
    {
        &self.credential
    }

    pub fn scope(&self) -> (scope: &P::Scope)
        ensures
            *scope == self.targets(),
    {
        &self.scope
    }

    pub fn consultation(&self) -> (consultation: Consultation)
        ensures
            consultation == self.asks(),
    {
        self.consultation
    }
}

/// What comes next for a request.
///
/// * `Decided(Ok(Some(user)))`: authenticated.
/// * `Decided(Ok(None))`: a public scope with no identity; the handler runs anonymously.
/// * `Decided(Err(_))`: rejected, or an unclaimed request on a protected scope.
pub enum GatewayStep<P: AuthProfile> {
    /// Consult this authenticator and resume with its answer.
    Consult(PendingRequest<P>),
    Decided(Result<Option<P::User>, AuthError>),
}

/// The detail of the failure when nobody claims a request.
pub open spec fn unclaimed_detail(scheme: Option<Seq<char>>, label: Seq<char>) -> Seq<char> {
    let scheme = match scheme {
        Some(scheme) => scheme,
        None => "none"@,
    };
    "no authenticator claimed the request (scheme: "@ + scheme + ", scope: "@ + label + ")"@
}

/// Whether `result` is what a decided chain means for the middleware.
pub open spec fn settles<S: AuthScope, U>(
    decision: Result<Outcome<U>, AuthError>,
    credential: CredentialView,
    scope: S,
    result: Result<Option<U>, AuthError>,
) -> bool {
    match decision {
        Ok(Outcome::Authenticated(user)) => result == Ok::<Option<U>, AuthError>(Some(user)),
        Ok(Outcome::Anonymous) => result == Ok::<Option<U>, AuthError>(None),
        Ok(Outcome::NotApplicable) => exists|label: Seq<char>| #[trigger]
            scope::says_label(scope, label) && result is Err && result->Err_0@
                == (AuthErrorView::Unauthenticated {
                detail: unclaimed_detail(credential.scheme(), label),
            }),
        Err(error) => result == Err::<Option<U>, AuthError>(error),
    }
}

/// Whether `after` is what the gateway makes of a step of its chain.
pub open spec fn carries<P: AuthProfile>(
    step: ChainStep<P::User>,
    credential: CredentialView,
    scope: P::Scope,
    after: GatewayStep<P>,
) -> bool {
    match step {
        ChainStep::Consult(consultation) => after matches GatewayStep::Consult(pending)
            && pending.presents() == credential && pending.targets() == scope && pending.asks()
            == consultation,
        ChainStep::Decided(decision) => after matches GatewayStep::Decided(result) && settles(
            decision,
            credential,
            scope,
            result,
        ),
    }
}

/// Whether `step` is the first one for a request that presents `credential`.
pub open spec fn starts<P: AuthProfile, R: ScopeResolver<Scope = P::Scope>>(
    scopes: R,
    policy: PublicScopePolicy,
    count: nat,
    request: AuthRequest,
    credential: CredentialView,
    step: GatewayStep<P>,
) -> bool {
    exists|scope: P::Scope, public: bool, first: ChainStep<P::User>|
        {
            &&& call_ensures(R::resolve, (&scopes, &request), scope)
            &&& #[trigger] scope::says_public(scope, public)
            &&& authenticator::begins(first, policy, count, public, !(credential is Absent))
            &&& #[trigger] carries(first, credential, scope, step)
        }
}

/// Whether `step` is the one that follows the answer of the authenticator that was consulted.
pub open spec fn follows<P: AuthProfile>(
    pending: PendingRequest<P>,
    count: nat,
    answer: Result<Verdict<P::User>, AuthError>,
    step: GatewayStep<P>,
) -> bool {
    exists|next: ChainStep<P::User>|
        {
            &&& authenticator::resumes(next, pending.asks(), count, answer)
            &&& #[trigger] carries(next, pending.presents(), pending.targets(), step)
        }
}

impl<P: AuthProfile, R: ScopeResolver<Scope = P::Scope>, A: Authenticator<P>> AuthGateway<P, R, A> {
    /// The rule that derives a request's scope.
    pub closed spec fn resolver(self) -> R {
        self.scopes
    }

    /// The authenticators, in order.
    pub closed spec fn members(self) -> Seq<A> {
        self.chain.members()
    }

    /// How public scopes are treated.
    pub closed spec fn policy(self) -> PublicScopePolicy {
        self.chain.policy()
    }

    pub fn new(scopes: R, chain: AuthChain<P, A>) -> (gateway: AuthGateway<P, R, A>)
        ensures
            gateway.resolver() == scopes,
            gateway.members() == chain.members(),
            gateway.policy() == chain.policy(),
    {
        AuthGateway { scopes, chain }
    }

    /// The registered authenticators, in order, by name. Useful for a startup-time log line.
    pub fn authenticator_names(&self) -> (names: Vec<&'static str>)
        ensures
            names.len() == self.members().len(),
            forall|i: int|
                0 <= i < names.len() ==> call_ensures(
                    A::name,
                    (&self.members()[i],),
                    #[trigger] names@[i],
                ),
    {
        self.chain.names()
    }

    /// Resolves the request's scope without authenticating it.
    pub fn scope_of(&self, request: &AuthRequest) -> (scope: P::Scope)
        ensures
            call_ensures(R::resolve, (&self.resolver(), request), scope),
    {
        self.scopes.resolve(request)
    }

    /// The authenticator that a pending request waits for.
    pub fn authenticator(&self, pending: &PendingRequest<P>) -> (authenticator: Option<&A>)
        ensures
            match authenticator {
                Some(found) => pending.asks().position() < self.members().len() && *found
                    == self.members()[pending.asks().position() as int],
                None => pending.asks().position() >= self.members().len(),
            },
    {
        self.chain.authenticator(&pending.consultation)
    }

    /// Starts to authenticate `request`, with the credential of its `Authorization` header.
    pub fn authenticate(&self, request: &AuthRequest) -> (step: GatewayStep<P>)
        ensures
            starts::<P, R>(
                self.resolver(),
                self.policy(),
                self.members().len(),
                *request,
                credential::request_credential(request@),
                step,
            ),
    {
        self.authenticate_with(request, Credential::from_request(request))
    }

    /// As [`Self::authenticate`], with a credential the caller supplies. Lets an adapter source a
    /// credential from somewhere other than the `Authorization` header, such as a client
    /// certificate.
    pub fn authenticate_with(&self, request: &AuthRequest, credential: Credential) -> (step:
        GatewayStep<P>)
        ensures
            starts::<P, R>(
                self.resolver(),
                self.policy(),
                self.members().len(),
                *request,
                credential@,
                step,
            ),
    {
        let scope = self.scopes.resolve(request);
        let first = self.chain.begin(&credential, &scope);
        let ghost public = choose|public: bool| #[trigger]
            scope::says_public(scope, public) && authenticator::begins(
                first,
                self.policy(),
                self.members().len(),
                public,
                !(credential@ is Absent),
            );
        let step = self.carry(first, credential, scope);
        assert(scope::says_public(scope, public) && carries(first, credential@, scope, step));
        step
    }

    /// Goes on with the answer of the authenticator that was consulted.
    pub fn resume(
        &self,
        pending: PendingRequest<P>,
        answer: Result<Verdict<P::User>, AuthError>,
    ) -> (step: GatewayStep<P>)
        ensures
            follows(pending, self.members().len(), answer, step),
    {
        let next = self.chain.resume(pending.consultation, answer);
        let ghost waiting = pending;
        let step = self.carry(next, pending.credential, pending.scope);
        assert(carries(next, waiting.presents(), waiting.targets(), step));
        step
    }

    fn carry(&self, step: ChainStep<P::User>, credential: Credential, scope: P::Scope) -> (after:
        GatewayStep<P>)
        ensures
            carries(step, credential@, scope, after),
    {
        match step {
            ChainStep::Consult(consultation) => GatewayStep::Consult(
                PendingRequest { credential, scope, consultation },
            ),
            ChainStep::Decided(decision) => GatewayStep::Decided(
                AuthGateway::<P, R, A>::settle(decision, &credential, &scope),
            ),
        }
    }

    /// What a decided chain means. Nobody claiming the request is only reported for a scope that
    /// requires authentication, so it is always a challenge and never an anonymous visit.
    fn settle(
        decision: Result<Outcome<P::User>, AuthError>,
        credential: &Credential,
        scope: &P::Scope,
    ) -> (result: Result<Option<P::User>, AuthError>)
        ensures
            settles(decision, credential@, *scope, result),
    {
        match decision {
            Ok(Outcome::Authenticated(user)) => Ok(Some(user)),
            Ok(Outcome::Anonymous) => Ok(None),
            Ok(Outcome::NotApplicable) => {
                let scheme = match credential.scheme() {
                    Some(scheme) => scheme,
                    None => "none",
                };
                let label = scope.label();
                assert(scope::says_label(*scope, label@));
                let detail = text::join("no authenticator claimed the request (scheme: ", scheme);
                let detail = text::join(detail.as_str(), ", scope: ");
                let detail = text::join(detail.as_str(), label.as_str());
                let detail = text::join(detail.as_str(), ")");
                Err(AuthError::unauthenticated(detail.as_str()))
            },
            Err(error) => Err(error),
        }
    }
}

/// Whether the steps are those of one request, for a scope that is public or not: they start where
/// the gateway starts, and each follows the answer given at the one before.
pub open spec fn is_run<P: AuthProfile>(
    policy: PublicScopePolicy,
    count: nat,
    credential: CredentialView,
    scope: P::Scope,
    public: bool,
    steps: Seq<GatewayStep<P>>,
    answers: Seq<Result<Verdict<P::User>, AuthError>>,
) -> bool {
    &&& steps.len() == answers.len() + 1
    &&& exists|first: ChainStep<P::User>|
        {
            &&& authenticator::begins(first, policy, count, public, !(credential is Absent))
            &&& #[trigger] carries(first, credential, scope, steps[0])
        }
    &&& forall|i: int|
        0 <= i < answers.len() ==> (#[trigger] steps[i]) is Consult && follows(
            steps[i]->Consult_0,
            count,
            answers[i],
            steps[i + 1],
        )
}

/// A run of the gateway is a run of its chain: behind the steps stand those of the chain.
proof fn lemma_chain_run<P: AuthProfile>(
    policy: PublicScopePolicy,
    count: nat,
    credential: CredentialView,
    scope: P::Scope,
    public: bool,
    steps: Seq<GatewayStep<P>>,
    answers: Seq<Result<Verdict<P::User>, AuthError>>,
) -> (chain: Seq<ChainStep<P::User>>)
    requires
        is_run(policy, count, credential, scope, public, steps, answers),
    ensures
        authenticator::is_run(policy, count, public, !(credential is Absent), chain, answers),
        forall|i: int|
            0 <= i < steps.len() ==> carries(#[trigger] chain[i], credential, scope, steps[i]),
    decreases answers.len(),
{
    let first = choose|first: ChainStep<P::User>|
        {
            &&& authenticator::begins(first, policy, count, public, !(credential is Absent))
            &&& #[trigger] carries(first, credential, scope, steps[0])
        };
    if answers.len() == 0 {
        seq![first]
    } else {
        let last = answers.len() - 1;
        assert forall|i: int| 0 <= i < last implies (#[trigger] steps.drop_last()[i]) is Consult
            && follows(
            steps.drop_last()[i]->Consult_0,
            count,
            answers.drop_last()[i],
            steps.drop_last()[i + 1],
        ) by {
            assert(steps[i] is Consult);
        }
        assert(carries(first, credential, scope, steps.drop_last()[0]));
        let front = lemma_chain_run(
            policy,
            count,
            credential,
            scope,
            public,
            steps.drop_last(),
            answers.drop_last(),
        );
        assert(carries(front[last], credential, scope, steps.drop_last()[last]));
        assert(steps[last] is Consult);
        let pending = steps[last]->Consult_0;
        let next = choose|next: ChainStep<P::User>|
            {
                &&& authenticator::resumes(next, pending.asks(), count, answers[last])
                &&& #[trigger] carries(next, pending.presents(), pending.targets(), steps[last + 1])
            };
        let chain = front.push(next);
        assert(chain[0] == front[0]);
        assert forall|i: int| 0 <= i < answers.len() implies (#[trigger] chain[i]) is Consult
            && authenticator::resumes(
            chain[i + 1],
            chain[i]->Consult_0,
            count,
            answers[i],
        ) by {
            assert(chain[i] == front[i]);
            if i < last {
                assert(answers.drop_last()[i] == answers[i]);
                assert(chain[i + 1] == front[i + 1]);
            }
        }
        assert forall|i: int| 0 <= i < steps.len() implies carries(
            #[trigger] chain[i],
            credential,
            scope,
            steps[i],
        ) by {
            if i <= last {
                assert(chain[i] == front[i]);
                assert(steps.drop_last()[i] == steps[i]);
            }
        }
        chain
    }
}

/// What a decided request comes to: it is anonymous at once and nobody is consulted, or everyone
/// before the last declines and the last answer decides, or everyone declines, which is an
/// anonymous visit on a public scope and a challenge elsewhere.
pub proof fn gateway_decides_by_the_answers<P: AuthProfile>(
    policy: PublicScopePolicy,
    count: nat,
    credential: CredentialView,
    scope: P::Scope,
    public: bool,
    steps: Seq<GatewayStep<P>>,
    answers: Seq<Result<Verdict<P::User>, AuthError>>,
    result: Result<Option<P::User>, AuthError>,
)
    requires
        is_run(policy, count, credential, scope, public, steps, answers),
        steps.last() == GatewayStep::<P>::Decided(result),
    ensures
        if authenticator::anonymous_at_once(policy, public, !(credential is Absent)) {
            answers.len() == 0 && result == Ok::<Option<P::User>, AuthError>(None)
        } else if answers.len() > 0 && !authenticator::declines(answers.last()) {
            result == (match answers.last() {
                Ok(Verdict::Authenticated(user)) => Ok::<Option<P::User>, AuthError>(Some(user)),
                Ok(Verdict::NotApplicable) => Ok(None),
                Err(error) => Err(error),
            })
        } else {
            answers.len() == count && settles(
                Ok(authenticator::unclaimed::<P::User>(public)),
                credential,
                scope,
                result,
            )
        },
        forall|i: int|
            0 <= i < answers.len() - 1 ==> authenticator::declines(#[trigger] answers[i]),
{
    let presented = !(credential is Absent);
    let chain = lemma_chain_run(policy, count, credential, scope, public, steps, answers);
    let last = answers.len() as int;
    assert(carries(chain[last], credential, scope, steps[last]));
    assert(chain.last() is Decided);
    authenticator::decision_follows_the_answers(
        policy,
        count,
        public,
        presented,
        chain,
        answers,
        chain.last()->Decided_0,
    );
}

/// An anonymous pass is given only on a public scope.
pub proof fn anonymous_pass_needs_a_public_scope<P: AuthProfile>(
    policy: PublicScopePolicy,
    count: nat,
    credential: CredentialView,
    scope: P::Scope,
    public: bool,
    steps: Seq<GatewayStep<P>>,
    answers: Seq<Result<Verdict<P::User>, AuthError>>,
)
    requires
        is_run(policy, count, credential, scope, public, steps, answers),
        steps.last() == GatewayStep::<P>::Decided(Ok(None)),
    ensures
        public,
{
    gateway_decides_by_the_answers(
        policy,
        count,
        credential,
        scope,
        public,
        steps,
        answers,
        Ok::<Option<P::User>, AuthError>(None),
    );
}

/// Whether a resolver gives a request one scope, and always that.
pub open spec fn is_resolved<R: ScopeResolver>(
    resolver: R,
    request: AuthRequest,
    scope: R::Scope,
) -> bool {
    forall|said: R::Scope|
        #[trigger] call_ensures(R::resolve, (&resolver, &request), said) ==> said == scope
}

/// How a request is let in or put to the authenticators, by what its `Authorization` header
/// presents and by the scope it targets. A request to a protected scope is never let in without an
/// authenticator's answer.
pub proof fn request_is_put_to_the_authenticators<
    P: AuthProfile,
    R: ScopeResolver<Scope = P::Scope>,
    A: Authenticator<P>,
>(
    gateway: AuthGateway<P, R, A>,
    request: AuthRequest,
    step: GatewayStep<P>,
    presented: Credential,
    scope: P::Scope,
    public: bool,
)
    requires
        call_ensures(AuthGateway::<P, R, A>::authenticate, (&gateway, &request), step),
        call_ensures(Credential::from_request, (&request,), presented),
        is_resolved(gateway.resolver(), request, scope),
        authenticator::is_decided(scope, public),
    ensures
        is_let_in_or_asked_about(
            gateway.policy(),
            gateway.members().len(),
            presented@,
            scope,
            public,
            step,
        ),
{
}

/// The same holds of a credential that the caller supplies.
pub proof fn supplied_credential_is_put_to_the_authenticators<
    P: AuthProfile,
    R: ScopeResolver<Scope = P::Scope>,
    A: Authenticator<P>,
>(
    gateway: AuthGateway<P, R, A>,
    request: AuthRequest,
    credential: Credential,
    step: GatewayStep<P>,
    scope: P::Scope,
    public: bool,
)
    requires
        call_ensures(
            AuthGateway::<P, R, A>::authenticate_with,
            (&gateway, &request, credential),
            step,
        ),
        is_resolved(gateway.resolver(), request, scope),
        authenticator::is_decided(scope, public),
    ensures
        is_let_in_or_asked_about(
            gateway.policy(),
            gateway.members().len(),
            credential@,
            scope,
            public,
            step,
        ),
{
}

/// Whether `step` is how a request begins: let in without an identity on a public scope that asks
/// for none, refused where nobody could answer for it, and otherwise put to the first
/// authenticator with what it presents.
pub open spec fn is_let_in_or_asked_about<P: AuthProfile>(
    policy: PublicScopePolicy,
    count: nat,
    presented: CredentialView,
    scope: P::Scope,
    public: bool,
    step: GatewayStep<P>,
) -> bool {
    if public && (policy is AlwaysAnonymous || presented is Absent || count == 0) {
        step == GatewayStep::<P>::Decided(Ok(None))
    } else if count == 0 {
        step matches GatewayStep::Decided(Err(error)) && error@.status() == 401
    } else {
        step matches GatewayStep::Consult(pending) && pending.presents() == presented
            && pending.targets() == scope && pending.asks().position() == 0
            && pending.asks().is_public() == public
    }
}

/// How an authenticator's answer is taken: a principal is let in as that principal, a failure is
/// the answer, and a request that is declined goes to the next, unchanged. When nobody is left, it
/// is let in without an identity on a public scope, and refused as unauthenticated elsewhere.
pub proof fn answer_lets_in_or_passes_on<
    P: AuthProfile,
    R: ScopeResolver<Scope = P::Scope>,
    A: Authenticator<P>,
>(
    gateway: AuthGateway<P, R, A>,
    pending: PendingRequest<P>,
    answer: Result<Verdict<P::User>, AuthError>,
    step: GatewayStep<P>,
    asked: Option<&A>,
)
    requires
        call_ensures(AuthGateway::<P, R, A>::resume, (&gateway, pending, answer), step),
        call_ensures(AuthGateway::<P, R, A>::authenticator, (&gateway, &pending), asked),
    ensures
        match answer {
            Err(error) => step == GatewayStep::<P>::Decided(Err(error)),
            Ok(Verdict::Authenticated(user)) => step == GatewayStep::<P>::Decided(Ok(Some(user))),
            Ok(Verdict::NotApplicable) => if pending.asks().position() + 1
                < gateway.members().len() {
                step matches GatewayStep::Consult(next) && next.presents() == pending.presents()
                    && next.targets() == pending.targets() && next.asks().position()
                    == pending.asks().position() + 1 && next.asks().is_public()
                    == pending.asks().is_public()
            } else if pending.asks().is_public() {
                step == GatewayStep::<P>::Decided(Ok(None))
            } else {
                step matches GatewayStep::Decided(Err(error)) && error@.status() == 401
            },
        },
        pending.asks().position() < gateway.members().len() ==> asked is Some && *asked->Some_0
            == gateway.members()[pending.asks().position() as int],
{
}

} // verus!
