//! The authenticator trait and the chain that composes several of them.
//!
//! An authenticator may have to wait for an identity provider, so the chain does not call it.
//! [`AuthChain::begin`] and [`AuthChain::resume`] say which authenticator to consult next and take
//! its answer, until the request is decided; whoever runs the chain does the consulting.
use std::marker::PhantomData;
use vstd::prelude::*;

use crate::claims::Principal;
use crate::credential::Credential;
use crate::error::AuthError;
use crate::outcome::{Outcome, Verdict};
use crate::request::AuthRequest;
use crate::scope::{self, AuthScope};

verus! {

/// Binds an application's user type and scope type together, so every other generic in this crate
/// takes a single parameter for both.
pub trait AuthProfile: Send + Sync + 'static {
    /// The application's authenticated user type.
    type User: Principal;

    /// The application's request-scope type.
    type Scope: AuthScope;
}

/// Everything an authenticator gets to decide with.
pub struct AuthContext<'a, P: AuthProfile> {
    /// The request, minus its body.
    pub request: &'a AuthRequest,
    /// The credential presented on the `Authorization` header, if any. Session cookies are reached
    /// through `request`.
    pub credential: &'a Credential,
    /// The scope this request targets.
    pub scope: &'a P::Scope,
}

impl<'a, P: AuthProfile> AuthContext<'a, P> {
    pub fn new(request: &'a AuthRequest, credential: &'a Credential, scope: &'a P::Scope) -> (ctx:
        AuthContext<'a, P>)
        ensures
            ctx.request == request,
            ctx.credential == credential,
            ctx.scope == scope,
    {
        AuthContext { request, credential, scope }
    }
}

/// One authentication mechanism, as far as the chain knows it.
///
/// Consulted on a request, it answers with a `Result<Verdict<P::User>, AuthError>`: it can resolve
/// a principal, decline, or fail, but it cannot declare a request anonymous. That judgement belongs
/// to the scope, and so to [`AuthChain`], which keeps a single authenticator from waving requests
/// past a protected route.
pub trait Authenticator<P: AuthProfile>: Send + Sync + 'static {
    /// A stable identifier used in logs and diagnostics.
    fn name(&self) -> (name: &'static str);
}

/// How a chain treats a request whose scope is public.
#[derive(Clone, Copy, Debug, PartialEq, Eq, Structural)]
pub enum PublicScopePolicy {
    /// Attempt authentication anyway. A request with no credential is anonymous; one carrying a
    /// valid credential is authenticated, so handlers on public routes can personalise their
    /// response; one carrying an invalid credential still fails, so a bad token is never silently
    /// downgraded to anonymous.
    Optional,
    /// Every request is anonymous, and no authenticator is consulted.
    AlwaysAnonymous,
}

impl Default for PublicScopePolicy {
    fn default() -> (policy: PublicScopePolicy)
        ensures
            policy == PublicScopePolicy::Optional,
    {
        PublicScopePolicy::Optional
    }
}

/// A chain that waits for the answer of one of its authenticators.
#[derive(Clone, Copy, Debug)]
pub struct Consultation {
    index: usize,
    public: bool,
}

impl Consultation {
    /// Which authenticator is consulted, in registration order.
    pub closed spec fn position(self) -> usize {
        self.index
    }

    /// Whether the request targets a public scope.
    pub closed spec fn is_public(self) -> bool {
        self.public
    }

    /// The index of the authenticator to consult, in registration order.
    pub fn index(&self) -> (index: usize)
        ensures
            index == self.position(),
    {
        self.index
    }
}

/// What comes next for a request.
pub enum ChainStep<U> {
    /// Consult this authenticator and resume with its answer.
    Consult(Consultation),
    /// The request is decided.
    Decided(Result<Outcome<U>, AuthError>),
}

/// What an unclaimed request is: on a public scope simply an anonymous visitor, elsewhere not
/// applicable to this chain.
pub open spec fn unclaimed<U>(public: bool) -> Outcome<U> {
    if public {
        Outcome::Anonymous
    } else {
        Outcome::NotApplicable
    }
}

/// Whether `step` goes on with the authenticator at `index` of `count`, or decides when there is
/// none.
pub open spec fn consults<U>(step: ChainStep<U>, index: int, count: nat, public: bool) -> bool {
    if index < count {
        step matches ChainStep::Consult(next) && next.position() == index && next.is_public()
            == public
    } else {
        step == ChainStep::Decided(Ok::<Outcome<U>, AuthError>(unclaimed(public)))
    }
}

/// Whether a request is anonymous before any authenticator is asked: its scope is public, and the
/// policy says so or nothing was presented.
pub open spec fn anonymous_at_once(
    policy: PublicScopePolicy,
    public: bool,
    presented: bool,
) -> bool {
    public && (policy == PublicScopePolicy::AlwaysAnonymous || !presented)
}

/// Whether `step` is the first one for a request.
pub open spec fn begins<U>(
    step: ChainStep<U>,
    policy: PublicScopePolicy,
    count: nat,
    public: bool,
    presented: bool,
) -> bool {
    if anonymous_at_once(policy, public, presented) {
        step == ChainStep::Decided(Ok::<Outcome<U>, AuthError>(Outcome::Anonymous))
    } else {
        consults(step, 0, count, public)
    }
}

/// Whether `step` is the one that follows the answer of the authenticator that was consulted.
pub open spec fn resumes<U>(
    step: ChainStep<U>,
    consultation: Consultation,
    count: nat,
    answer: Result<Verdict<U>, AuthError>,
) -> bool {
    match answer {
        Err(error) => step == ChainStep::Decided(Err::<Outcome<U>, AuthError>(error)),
        Ok(Verdict::Authenticated(user)) => step == ChainStep::Decided(
            Ok::<Outcome<U>, AuthError>(Outcome::Authenticated(user)),
        ),
        Ok(Verdict::NotApplicable) => consults(
            step,
            consultation.position() + 1,
            count,
            consultation.is_public(),
        ),
    }
}

/// An ordered list of authenticators, consulted until one claims the request.
///
/// Authenticators are consulted in registration order. The first to authenticate decides the
/// request. A failure of any authenticator ends the chain at once and is returned as it is: the
/// chain fails closed, so a rejected `Bearer` token can never fall through to a weaker mechanism.
pub struct AuthChain<P: AuthProfile, A: Authenticator<P>> {
    authenticators: Vec<A>,
    public_scope_policy: PublicScopePolicy,
    profile: PhantomData<P>,
}

impl<P: AuthProfile, A: Authenticator<P>> AuthChain<P, A> {
    /// The authenticators, in registration order.
    pub closed spec fn members(self) -> Seq<A> {
        self.authenticators@
    }

    /// How public scopes are treated.
    pub closed spec fn policy(self) -> PublicScopePolicy {
        self.public_scope_policy
    }

    pub fn new() -> (chain: AuthChain<P, A>)
        ensures
            chain.members() == Seq::<A>::empty(),
            chain.policy() == PublicScopePolicy::Optional,
    {
        AuthChain {
            authenticators: Vec::new(),
            public_scope_policy: PublicScopePolicy::default(),
            profile: PhantomData,
        }
    }

    /// Appends an authenticator. Order is significant.
    pub fn with(self, authenticator: A) -> (chain: AuthChain<P, A>)
        ensures
            chain.members() == self.members().push(authenticator),
            chain.policy() == self.policy(),
    {
        let mut authenticators = self.authenticators;
        authenticators.push(authenticator);
        AuthChain { authenticators, ..self }
    }

    pub fn public_scope_policy(self, policy: PublicScopePolicy) -> (chain: AuthChain<P, A>)
        ensures
            chain.members() == self.members(),
            chain.policy() == policy,
    {
        AuthChain { public_scope_policy: policy, ..self }
    }

    /// The registered authenticators, in order, by name.
    pub fn names(&self) -> (names: Vec<&'static str>)
        ensures
            names.len() == self.members().len(),
            forall|i: int|
                0 <= i < names.len() ==> call_ensures(
                    A::name,
                    (&self.members()[i],),
                    #[trigger] names@[i],
                ),
    {
        let mut names: Vec<&'static str> = Vec::new();
        let mut at: usize = 0;
        while at < self.authenticators.len()
            invariant
                at <= self.authenticators.len(),
                names.len() == at,
                forall|i: int|
                    0 <= i < at ==> call_ensures(
                        A::name,
                        (&self.authenticators@[i],),
                        #[trigger] names@[i],
                    ),
            decreases self.authenticators.len() - at,
        {
            names.push(self.authenticators[at].name());
            at += 1;
        }
        names
    }

    pub fn is_empty(&self) -> (empty: bool)
        ensures
            empty == (self.members().len() == 0),
    {
        self.authenticators.len() == 0
    }

    /// The authenticator to consult.
    pub fn authenticator(&self, consultation: &Consultation) -> (authenticator: Option<&A>)
        ensures
            match authenticator {
                Some(found) => consultation.position() < self.members().len() && *found
                    == self.members()[consultation.position() as int],
                None => consultation.position() >= self.members().len(),
            },
    {
        if consultation.index < self.authenticators.len() {
            Some(&self.authenticators[consultation.index])
        } else {
            None
        }
    }

    fn consult(&self, index: usize, public: bool) -> (step: ChainStep<P::User>)
        ensures
            consults(step, index as int, self.members().len(), public),
    {
        if index < self.authenticators.len() {
            ChainStep::Consult(Consultation { index, public })
        } else if public {
            ChainStep::Decided(Ok(Outcome::Anonymous))
        } else {
            ChainStep::Decided(Ok(Outcome::NotApplicable))
        }
    }

    /// Starts on a request that presents `credential` to `scope`.
    ///
    /// A request that no authenticator claims is [`Outcome::NotApplicable`] in the end; callers
    /// decide whether that is a `401` or an anonymous request.
    pub fn begin(&self, credential: &Credential, scope: &P::Scope) -> (step: ChainStep<P::User>)
        ensures
            exists|public: bool| #[trigger]
                scope::says_public(*scope, public) && begins(
                    step,
                    self.policy(),
                    self.members().len(),
                    public,
                    !(credential@ is Absent),
                ),
    {
        let public = scope.is_public();
        assert(scope::says_public(*scope, public));
        if public {
            match self.public_scope_policy {
                PublicScopePolicy::AlwaysAnonymous => {
                    return ChainStep::Decided(Ok(Outcome::Anonymous));
                },
                PublicScopePolicy::Optional => {
                    if credential.is_none() {
                        return ChainStep::Decided(Ok(Outcome::Anonymous));
                    }
                },
            }
        }
        self.consult(0, public)
    }

    /// Goes on with the answer of the authenticator that was consulted.
    pub fn resume(
        &self,
        consultation: Consultation,
        answer: Result<Verdict<P::User>, AuthError>,
    ) -> (step: ChainStep<P::User>)
        ensures
            resumes(step, consultation, self.members().len(), answer),
    {
        match answer {
            Err(error) => ChainStep::Decided(Err(error)),
            Ok(Verdict::Authenticated(user)) => ChainStep::Decided(
                Ok(Outcome::Authenticated(user)),
            ),
            Ok(Verdict::NotApplicable) => {
                if consultation.index < self.authenticators.len() {
                    self.consult(consultation.index + 1, consultation.public)
                } else if consultation.public {
                    ChainStep::Decided(Ok(Outcome::Anonymous))
                } else {
                    ChainStep::Decided(Ok(Outcome::NotApplicable))
                }
            },
        }
    }
}

impl<P: AuthProfile, A: Authenticator<P>> Default for AuthChain<P, A> {
    fn default() -> (chain: AuthChain<P, A>)
        ensures
            chain.members() == Seq::<A>::empty(),
            chain.policy() == PublicScopePolicy::Optional,
    {
        AuthChain::new()
    }
}

/// Whether the steps are those of one request: they start where the chain starts, and each
/// follows the answer given at the one before.
pub open spec fn is_run<U>(
    policy: PublicScopePolicy,
    count: nat,
    public: bool,
    presented: bool,
    steps: Seq<ChainStep<U>>,
    answers: Seq<Result<Verdict<U>, AuthError>>,
) -> bool {
    &&& steps.len() == answers.len() + 1
    &&& begins(steps[0], policy, count, public, presented)
    &&& forall|i: int|
        0 <= i < answers.len() ==> (#[trigger] steps[i]) is Consult && resumes(
            steps[i + 1],
            steps[i]->Consult_0,
            count,
            answers[i],
        )
}

/// Whether the authenticator answered that the request is not its own.
pub open spec fn declines<U>(answer: Result<Verdict<U>, AuthError>) -> bool {
    answer matches Ok(verdict) && verdict is NotApplicable
}

/// Authenticators are consulted in registration order, each once, and the chain goes on only past
/// those that decline.
pub proof fn consulted_in_order<U>(
    policy: PublicScopePolicy,
    count: nat,
    public: bool,
    presented: bool,
    steps: Seq<ChainStep<U>>,
    answers: Seq<Result<Verdict<U>, AuthError>>,
    at: int,
)
    requires
        is_run(policy, count, public, presented, steps, answers),
        0 <= at < steps.len(),
        steps[at] is Consult,
    ensures
        steps[at]->Consult_0.position() == at,
        steps[at]->Consult_0.is_public() == public,
        at < count,
        !anonymous_at_once(policy, public, presented),
        forall|i: int| 0 <= i < at ==> declines(#[trigger] answers[i]),
    decreases at,
{
    if at > 0 {
        assert(steps[at - 1] is Consult);
        consulted_in_order(policy, count, public, presented, steps, answers, at - 1);
        assert(resumes(steps[at - 1 + 1], steps[at - 1]->Consult_0, count, answers[at - 1]));
        assert(declines(answers[at - 1]));
    }
}

/// What a decided run means: either the request was anonymous at once and nobody was consulted, or
/// everyone before the last declined and the last answer decides, or everyone declined.
pub proof fn decision_follows_the_answers<U>(
    policy: PublicScopePolicy,
    count: nat,
    public: bool,
    presented: bool,
    steps: Seq<ChainStep<U>>,
    answers: Seq<Result<Verdict<U>, AuthError>>,
    decision: Result<Outcome<U>, AuthError>,
)
    requires
        is_run(policy, count, public, presented, steps, answers),
        steps.last() == ChainStep::Decided(decision),
    ensures
        anonymous_at_once(policy, public, presented) ==> answers.len() == 0 && decision == Ok::<
            Outcome<U>,
            AuthError,
        >(Outcome::Anonymous),
        !anonymous_at_once(policy, public, presented) ==> {
            ||| answers.len() == count && decision == Ok::<Outcome<U>, AuthError>(
                unclaimed(public),
            ) && forall|i: int| 0 <= i < answers.len() ==> declines(#[trigger] answers[i])
            ||| answers.len() > 0 && !declines(answers.last()) && (forall|i: int|
                0 <= i < answers.len() - 1 ==> declines(#[trigger] answers[i])) && decision == (
            match answers.last() {
                Ok(Verdict::Authenticated(user)) => Ok::<Outcome<U>, AuthError>(
                    Outcome::Authenticated(user),
                ),
                Ok(Verdict::NotApplicable) => Ok(unclaimed(public)),
                Err(error) => Err(error),
            })
        },
{
    if answers.len() > 0 {
        let last = answers.len() - 1;
        assert(steps[last] is Consult);
        consulted_in_order(policy, count, public, presented, steps, answers, last);
        assert(resumes(steps[last + 1], steps[last]->Consult_0, count, answers[last]));
        assert(steps.last() == steps[last + 1]);
    } else {
        assert(steps.last() == steps[0]);
    }
}

/// The chain never invents an identity: a request is authenticated only as the principal that the
/// authenticator consulted last resolved.
pub proof fn chain_never_fabricates_a_principal<U>(
    policy: PublicScopePolicy,
    count: nat,
    public: bool,
    presented: bool,
    steps: Seq<ChainStep<U>>,
    answers: Seq<Result<Verdict<U>, AuthError>>,
    user: U,
)
    requires
        is_run(policy, count, public, presented, steps, answers),
        steps.last() == ChainStep::Decided(Ok::<Outcome<U>, AuthError>(Outcome::Authenticated(user))),
    ensures
        answers.len() > 0,
        answers.last() == Ok::<Verdict<U>, AuthError>(Verdict::Authenticated(user)),
{
    decision_follows_the_answers(
        policy,
        count,
        public,
        presented,
        steps,
        answers,
        Ok::<Outcome<U>, AuthError>(Outcome::Authenticated(user)),
    );
}

/// A failing authenticator is terminal, whatever follows it in the chain: the request fails with
/// that failure, and nobody is consulted after it.
pub proof fn failure_is_terminal<U>(
    policy: PublicScopePolicy,
    count: nat,
    public: bool,
    presented: bool,
    steps: Seq<ChainStep<U>>,
    answers: Seq<Result<Verdict<U>, AuthError>>,
    at: int,
    error: AuthError,
)
    requires
        is_run(policy, count, public, presented, steps, answers),
        0 <= at < answers.len(),
        answers[at] == Err::<Verdict<U>, AuthError>(error),
    ensures
        answers.len() == at + 1,
        steps.last() == ChainStep::Decided(Err::<Outcome<U>, AuthError>(error)),
{
    assert(steps[at] is Consult);
    assert(resumes(steps[at + 1], steps[at]->Consult_0, count, answers[at]));
    if at + 1 < answers.len() {
        assert(steps[at + 1] is Consult);
    }
    assert(steps.last() == steps[at + 1]);
}

/// Nothing after the deciding authenticator is consulted.
pub proof fn nobody_is_consulted_after_a_decision<U>(
    policy: PublicScopePolicy,
    count: nat,
    public: bool,
    presented: bool,
    steps: Seq<ChainStep<U>>,
    answers: Seq<Result<Verdict<U>, AuthError>>,
    at: int,
)
    requires
        is_run(policy, count, public, presented, steps, answers),
        0 <= at < answers.len(),
        !declines(answers[at]),
    ensures
        answers.len() == at + 1,
        steps.last() is Decided,
{
    assert(steps[at] is Consult);
    assert(resumes(steps[at + 1], steps[at]->Consult_0, count, answers[at]));
    if at + 1 < answers.len() {
        assert(steps[at + 1] is Consult);
    }
    assert(steps.last() == steps[at + 1]);
}

/// A protected scope never resolves to an anonymous request.
pub proof fn protected_scope_is_never_anonymous<U>(
    policy: PublicScopePolicy,
    count: nat,
    presented: bool,
    steps: Seq<ChainStep<U>>,
    answers: Seq<Result<Verdict<U>, AuthError>>,
)
    requires
        is_run(policy, count, false, presented, steps, answers),
    ensures
        steps.last() != ChainStep::Decided(Ok::<Outcome<U>, AuthError>(Outcome::Anonymous)),
{
    if steps.last() == ChainStep::Decided(Ok::<Outcome<U>, AuthError>(Outcome::Anonymous)) {
        decision_follows_the_answers(
            policy,
            count,
            false,
            presented,
            steps,
            answers,
            Ok::<Outcome<U>, AuthError>(Outcome::Anonymous),
        );
    }
}

/// On a public scope an invalid credential is never downgraded to anonymous: once an authenticator
/// has failed, the request fails.
pub proof fn invalid_credential_is_never_downgraded<U>(
    count: nat,
    steps: Seq<ChainStep<U>>,
    answers: Seq<Result<Verdict<U>, AuthError>>,
)
    requires
        is_run(PublicScopePolicy::Optional, count, true, true, steps, answers),
        answers.len() > 0,
        answers.last() is Err,
    ensures
        steps.last() == ChainStep::Decided(Err::<Outcome<U>, AuthError>(answers.last()->Err_0)),
{
    failure_is_terminal(
        PublicScopePolicy::Optional,
        count,
        true,
        true,
        steps,
        answers,
        answers.len() - 1,
        answers.last()->Err_0,
    );
}

/// What an answer that does not decline decides.
pub open spec fn decided_by<U>(answer: Result<Verdict<U>, AuthError>) -> Result<
    Outcome<U>,
    AuthError,
>
    recommends
        !declines(answer),
{
    match answer {
        Ok(Verdict::Authenticated(user)) => Ok(Outcome::Authenticated(user)),
        Ok(Verdict::NotApplicable) => Ok(Outcome::NotApplicable),
        Err(error) => Err(error),
    }
}

/// Registration order is irrelevant where each authenticator declines what is not its own: when
/// one authenticator alone would not decline a request, its answer decides the request wherever in
/// the chain it stands.
pub proof fn sole_claimant_decides_wherever_it_stands<U>(
    policy: PublicScopePolicy,
    public: bool,
    presented: bool,
    steps: Seq<ChainStep<U>>,
    answers: Seq<Result<Verdict<U>, AuthError>>,
    members: Seq<Result<Verdict<U>, AuthError>>,
    claimant: int,
)
    requires
        is_run(policy, members.len(), public, presented, steps, answers),
        !anonymous_at_once(policy, public, presented),
        steps.last() is Decided,
        0 <= claimant < members.len(),
        !declines(members[claimant]),
        forall|i: int|
            0 <= i < members.len() && i != claimant ==> declines(#[trigger] members[i]),
        answers.len() <= members.len(),
        forall|i: int| 0 <= i < answers.len() ==> #[trigger] answers[i] == members[i],
    ensures
        steps.last() == ChainStep::Decided(decided_by(members[claimant])),
        answers.len() == claimant + 1,
{
    decision_follows_the_answers(
        policy,
        members.len(),
        public,
        presented,
        steps,
        answers,
        steps.last()->Decided_0,
    );
    if answers.len() == members.len() && forall|i: int|
        0 <= i < answers.len() ==> declines(#[trigger] answers[i]) {
        assert(declines(answers[claimant]));
    } else {
        let last = answers.len() - 1;
        assert(answers[last] == members[last]);
        if claimant < last {
            assert(declines(answers[claimant]));
        }
    }
}

/// Whether a scope is public or is not, and always says so.
pub open spec fn is_decided<S: AuthScope>(scope: S, public: bool) -> bool {
    forall|said: bool| #[trigger] scope::says_public(scope, said) ==> said == public
}

/// How a request begins. On a protected scope it is put to the first authenticator, whatever it
/// presents; on a public one it is too when it presents something, unless every request there is
/// anonymous. A chain without authenticators claims nothing.
pub proof fn request_is_put_to_the_first<P: AuthProfile, A: Authenticator<P>>(
    chain: AuthChain<P, A>,
    credential: Credential,
    scope: P::Scope,
    public: bool,
    step: ChainStep<P::User>,
)
    requires
        call_ensures(AuthChain::<P, A>::begin, (&chain, &credential, &scope), step),
        is_decided(scope, public),
    ensures
        public && (chain.policy() is AlwaysAnonymous || credential@ is Absent) ==> step
            == ChainStep::Decided(Ok::<Outcome<P::User>, AuthError>(Outcome::Anonymous)),
        !public || (chain.policy() is Optional && !(credential@ is Absent)) ==> {
            if chain.members().len() > 0 {
                step matches ChainStep::Consult(next) && next.position() == 0 && next.is_public()
                    == public
            } else {
                step == ChainStep::Decided(
                    Ok::<Outcome<P::User>, AuthError>(
                        if public {
                            Outcome::Anonymous
                        } else {
                            Outcome::NotApplicable
                        },
                    ),
                )
            }
        },
{
}

/// How an answer is taken: a principal or a failure decides the request as it is, and one that
/// declines passes it on to the next in order. When nobody is left, a request to a public scope is
/// anonymous and any other is nobody's.
pub proof fn answer_decides_or_passes_on<P: AuthProfile, A: Authenticator<P>>(
    chain: AuthChain<P, A>,
    consultation: Consultation,
    answer: Result<Verdict<P::User>, AuthError>,
    step: ChainStep<P::User>,
    asked: Option<&A>,
)
    requires
        call_ensures(AuthChain::<P, A>::resume, (&chain, consultation, answer), step),
        call_ensures(AuthChain::<P, A>::authenticator, (&chain, &consultation), asked),
    ensures
        match answer {
            Err(error) => step == ChainStep::Decided(Err::<Outcome<P::User>, AuthError>(error)),
            Ok(Verdict::Authenticated(user)) => step == ChainStep::Decided(
                Ok::<Outcome<P::User>, AuthError>(Outcome::Authenticated(user)),
            ),
            Ok(Verdict::NotApplicable) => if consultation.position() + 1 < chain.members().len() {
                step matches ChainStep::Consult(next) && next.position() == consultation.position()
                    + 1 && next.is_public() == consultation.is_public()
            } else if consultation.is_public() {
                step == ChainStep::Decided(Ok::<Outcome<P::User>, AuthError>(Outcome::Anonymous))
            } else {
                step == ChainStep::Decided(
                    Ok::<Outcome<P::User>, AuthError>(Outcome::NotApplicable),
                )
            },
        },
        consultation.position() < chain.members().len() ==> asked is Some && *asked->Some_0
            == chain.members()[consultation.position() as int],
        consultation.position() >= chain.members().len() ==> asked is None,
{
}

/// Authenticators are registered one behind the other, and public scopes are treated as chosen last,
/// leniently unless something else was chosen.
pub proof fn chain_is_assembled_in_order<P: AuthProfile, A: Authenticator<P>>(
    fresh: AuthChain<P, A>,
    chain: AuthChain<P, A>,
    authenticator: A,
    longer: AuthChain<P, A>,
    policy: PublicScopePolicy,
    chosen: AuthChain<P, A>,
)
    requires
        call_ensures(AuthChain::<P, A>::new, (), fresh),
        call_ensures(AuthChain::<P, A>::with, (chain, authenticator), longer),
        call_ensures(AuthChain::<P, A>::public_scope_policy, (chain, policy), chosen),
    ensures
        fresh.members().len() == 0 && fresh.policy() is Optional,
        longer.members().len() == chain.members().len() + 1,
        longer.members().last() == authenticator,
        forall|i: int|
            0 <= i < chain.members().len() ==> #[trigger] longer.members()[i] == chain.members()[i],
        longer.policy() == chain.policy(),
        chosen.members() == chain.members() && chosen.policy() == policy,
{
}

/// The names of a chain are those of its authenticators, in order.
pub proof fn names_are_listed_in_order<P: AuthProfile, A: Authenticator<P>>(
    chain: AuthChain<P, A>,
    names: Vec<&'static str>,
    empty: bool,
    at: int,
)
    requires
        call_ensures(AuthChain::<P, A>::names, (&chain,), names),
        call_ensures(AuthChain::<P, A>::is_empty, (&chain,), empty),
        0 <= at < chain.members().len(),
    ensures
        names.len() == chain.members().len(),
        call_ensures(A::name, (&chain.members()[at],), names@[at]),
        !empty,
{
}

/// Unless it is told otherwise, a chain is empty and authentication is optional in public scopes.
pub proof fn public_scopes_are_optional_by_default<P: AuthProfile, A: Authenticator<P>>(
    policy: PublicScopePolicy,
    chain: AuthChain<P, A>,
)
    requires
        call_ensures(<PublicScopePolicy as Default>::default, (), policy),
        call_ensures(<AuthChain<P, A> as Default>::default, (), chain),
    ensures
        policy is Optional && chain.policy() is Optional,
        chain.members().len() == 0,
{
}

} // verus!
