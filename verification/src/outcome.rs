//! What an authenticator concluded, and what the chain concluded.
//!
//! These are two types. One authenticator can say who the credential identifies, or that the
//! credential is not its own; anything else is a failure, reported as an
//! [`AuthError`](crate::error::AuthError). That a request may proceed without an identity is a
//! judgement about the scope, and only the chain can make it.
use vstd::prelude::*;

verus! {

/// What one authenticator concluded about one request.
#[derive(Debug, PartialEq, Eq)]
pub enum Verdict<U> {
    /// The credential was valid and identifies this principal.
    Authenticated(U),
    /// This authenticator does not handle the credential presented: consult the next one.
    NotApplicable,
}

impl<U> Verdict<U> {
    /// Whether the authenticator claimed the request.
    pub fn is_applicable(&self) -> (applicable: bool)
        ensures
            applicable == (self is Authenticated),
    {
        match self {
            Verdict::Authenticated(_) => true,
            Verdict::NotApplicable => false,
        }
    }

    /// The principal, when one was resolved.
    pub fn principal(self) -> (user: Option<U>)
        ensures
            user == (match self {
                Verdict::Authenticated(user) => Some(user),
                Verdict::NotApplicable => None::<U>,
            }),
    {
        match self {
            Verdict::Authenticated(user) => Some(user),
            Verdict::NotApplicable => None,
        }
    }

    /// The same verdict over what `f` makes of the principal.
    pub fn map<V, F: FnOnce(U) -> V>(self, f: F) -> (mapped: Verdict<V>)
        requires
            self matches Verdict::Authenticated(user) ==> f.requires((user,)),
        ensures
            match self {
                Verdict::Authenticated(user) => {
                    &&& mapped is Authenticated
                    &&& f.ensures((user,), mapped->Authenticated_0)
                },
                Verdict::NotApplicable => mapped is NotApplicable,
            },
    {
        match self {
            Verdict::Authenticated(user) => Verdict::Authenticated(f(user)),
            Verdict::NotApplicable => Verdict::NotApplicable,
        }
    }
}

impl<U: Clone> Clone for Verdict<U> {
    fn clone(&self) -> (copy: Verdict<U>)
        ensures
            match *self {
                Verdict::Authenticated(user) => copy is Authenticated && cloned(
                    user,
                    copy->Authenticated_0,
                ),
                Verdict::NotApplicable => copy is NotApplicable,
            },
    {
        match self {
            Verdict::Authenticated(user) => Verdict::Authenticated(user.clone()),
            Verdict::NotApplicable => Verdict::NotApplicable,
        }
    }
}

/// What the chain concluded about one request.
#[derive(Debug, PartialEq, Eq)]
pub enum Outcome<U> {
    /// An authenticator resolved this principal.
    Authenticated(U),
    /// The request targets a public scope and carries no identity. Not a failure, and distinct
    /// from any default user.
    Anonymous,
    /// No authenticator claimed the request. The caller turns this into a challenge.
    NotApplicable,
}

impl<U> Outcome<U> {
    /// Whether the request was settled, with a principal or anonymously.
    pub fn is_applicable(&self) -> (applicable: bool)
        ensures
            applicable == !(self is NotApplicable),
    {
        match self {
            Outcome::NotApplicable => false,
            _ => true,
        }
    }

    /// The principal, when one was resolved.
    pub fn principal(self) -> (user: Option<U>)
        ensures
            user == (match self {
                Outcome::Authenticated(user) => Some(user),
                _ => None::<U>,
            }),
    {
        match self {
            Outcome::Authenticated(user) => Some(user),
            Outcome::Anonymous => None,
            Outcome::NotApplicable => None,
        }
    }

    /// The same outcome over what `f` makes of the principal.
    pub fn map<V, F: FnOnce(U) -> V>(self, f: F) -> (mapped: Outcome<V>)
        requires
            self matches Outcome::Authenticated(user) ==> f.requires((user,)),
        ensures
            match self {
                Outcome::Authenticated(user) => {
                    &&& mapped is Authenticated
                    &&& f.ensures((user,), mapped->Authenticated_0)
                },
                Outcome::Anonymous => mapped is Anonymous,
                Outcome::NotApplicable => mapped is NotApplicable,
            },
    {
        match self {
            Outcome::Authenticated(user) => Outcome::Authenticated(f(user)),
            Outcome::Anonymous => Outcome::Anonymous,
            Outcome::NotApplicable => Outcome::NotApplicable,
        }
    }
}

impl<U: Clone> Clone for Outcome<U> {
    fn clone(&self) -> (copy: Outcome<U>)
        ensures
            match *self {
                Outcome::Authenticated(user) => copy is Authenticated && cloned(
                    user,
                    copy->Authenticated_0,
                ),
                Outcome::Anonymous => copy is Anonymous,
                Outcome::NotApplicable => copy is NotApplicable,
            },
    {
        match self {
            Outcome::Authenticated(user) => Outcome::Authenticated(user.clone()),
            Outcome::Anonymous => Outcome::Anonymous,
            Outcome::NotApplicable => Outcome::NotApplicable,
        }
    }
}

/// What a verdict means as an outcome: never an anonymous one.
pub open spec fn outcome_of<U>(verdict: Verdict<U>) -> Outcome<U> {
    match verdict {
        Verdict::Authenticated(user) => Outcome::Authenticated(user),
        Verdict::NotApplicable => Outcome::NotApplicable,
    }
}

impl<U> vstd::std_specs::convert::FromSpecImpl<Verdict<U>> for Outcome<U> {
    open spec fn obeys_from_spec() -> bool {
        true
    }

    open spec fn from_spec(verdict: Verdict<U>) -> Outcome<U> {
        outcome_of(verdict)
    }
}

impl<U> From<Verdict<U>> for Outcome<U> {
    fn from(verdict: Verdict<U>) -> (outcome: Outcome<U>) {
        match verdict {
            Verdict::Authenticated(user) => Outcome::Authenticated(user),
            Verdict::NotApplicable => Outcome::NotApplicable,
        }
    }
}

/// An authenticator's verdict is never an anonymous pass: it is a request's outcome as the principal
/// it names, or as nobody's request.
pub proof fn verdict_is_never_an_anonymous_pass<U>(
    verdict: Verdict<U>,
    outcome: Outcome<U>,
    named: Option<U>,
    user: Option<U>,
    claimed: bool,
    settled: bool,
)
    requires
        call_ensures(<Outcome<U> as From<Verdict<U>>>::from, (verdict,), outcome),
        call_ensures(Verdict::<U>::principal, (verdict,), named),
        call_ensures(Outcome::<U>::principal, (outcome,), user),
        call_ensures(Verdict::<U>::is_applicable, (&verdict,), claimed),
        call_ensures(Outcome::<U>::is_applicable, (&outcome,), settled),
    ensures
        !(outcome is Anonymous),
        user == named,
        claimed == (user is Some),
        settled == claimed,
        verdict matches Verdict::Authenticated(principal) ==> user == Some(principal),
        verdict is NotApplicable ==> user is None,
{
}

/// A request that was let in without an identity was settled, and names nobody.
pub proof fn anonymous_request_names_nobody<U>(
    outcome: Outcome<U>,
    user: Option<U>,
    settled: bool,
)
    requires
        call_ensures(Outcome::<U>::principal, (outcome,), user),
        call_ensures(Outcome::<U>::is_applicable, (&outcome,), settled),
    ensures
        outcome is Anonymous ==> settled && user is None,
        outcome is NotApplicable ==> !settled && user is None,
        outcome matches Outcome::Authenticated(principal) ==> settled && user == Some(principal),
{
}

/// Mapping a verdict or an outcome changes the principal alone: there is one afterwards exactly when
/// there was one, and it is what was made of that one.
pub proof fn mapping_changes_the_principal_alone<U, V, F: FnOnce(U) -> V>(
    verdict: Verdict<U>,
    outcome: Outcome<U>,
    f: F,
    mapped: Verdict<V>,
    turned: Outcome<V>,
)
    requires
        call_ensures(Verdict::<U>::map::<V, F>, (verdict, f), mapped),
        call_ensures(Outcome::<U>::map::<V, F>, (outcome, f), turned),
    ensures
        (mapped is Authenticated) == (verdict is Authenticated),
        verdict is Authenticated ==> f.ensures(
            (verdict->Authenticated_0,),
            mapped->Authenticated_0,
        ),
        (turned is Authenticated) == (outcome is Authenticated),
        (turned is Anonymous) == (outcome is Anonymous),
        outcome is Authenticated ==> f.ensures(
            (outcome->Authenticated_0,),
            turned->Authenticated_0,
        ),
{
}

} // verus!
