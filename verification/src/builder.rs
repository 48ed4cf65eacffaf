//! Assembling a gateway from a scope resolver and a set of authenticators.
use vstd::prelude::*;

use crate::authenticator::{AuthChain, AuthProfile, Authenticator, PublicScopePolicy};
use crate::error::{AuthError, AuthErrorView};
use crate::gateway::AuthGateway;
use crate::scope::ScopeResolver;

verus! {

/// Builds an [`AuthGateway`].
///
/// The pieces can be assembled directly as well. This flattens the nesting and adds a build-time
/// check that the chain can actually authenticate something.
pub struct AuthnBuilder<P: AuthProfile, R: ScopeResolver<Scope = P::Scope>, A: Authenticator<P>> {
    scopes: R,
    chain: AuthChain<P, A>,
}

/// The detail of the failure to build a gateway without authenticators.
pub open spec fn nothing_registered() -> Seq<char> {
    "no authenticators registered: the gateway would refuse every request on a protected scope"@
}

impl<P: AuthProfile, R: ScopeResolver<Scope = P::Scope>, A: Authenticator<P>> AuthnBuilder<
    P,
    R,
    A,
> {
    /// The rule that derives a request's scope.
    pub closed spec fn resolver(self) -> R {
        self.scopes
    }

    /// The authenticators registered so far, in order.
    pub closed spec fn members(self) -> Seq<A> {
        self.chain.members()
    }

    /// How public scopes are treated.
    pub closed spec fn policy(self) -> PublicScopePolicy {
        self.chain.policy()
    }

    pub fn new(scopes: R) -> (builder: AuthnBuilder<P, R, A>)
        ensures
            builder.resolver() == scopes,
            builder.members() == Seq::<A>::empty(),
            builder.policy() == PublicScopePolicy::Optional,
    {
        AuthnBuilder { scopes, chain: AuthChain::new() }
    }

    /// Appends an authenticator. Registration order is the order they are consulted.
    ///
    /// A session authenticator configured to redirect should be registered last: it is the only
    /// kind that turns an absent credential into a response.
    pub fn with(self, authenticator: A) -> (builder: AuthnBuilder<P, R, A>)
        ensures
            builder.resolver() == self.resolver(),
            builder.members() == self.members().push(authenticator),
            builder.policy() == self.policy(),
    {
        AuthnBuilder { scopes: self.scopes, chain: self.chain.with(authenticator) }
    }

    /// Appends an authenticator only when `condition` holds, for mechanisms that are enabled by
    /// configuration.
    pub fn with_if(self, condition: bool, authenticator: A) -> (builder: AuthnBuilder<P, R, A>)
        ensures
            builder.resolver() == self.resolver(),
            builder.members() == (if condition {
                self.members().push(authenticator)
            } else {
                self.members()
            }),
            builder.policy() == self.policy(),
    {
        if condition {
            self.with(authenticator)
        } else {
            self
        }
    }

    /// How requests to a public scope are treated.
    pub fn public_scope_policy(self, policy: PublicScopePolicy) -> (builder: AuthnBuilder<P, R, A>)
        ensures
            builder.resolver() == self.resolver(),
            builder.members() == self.members(),
            builder.policy() == policy,
    {
        AuthnBuilder { scopes: self.scopes, chain: self.chain.public_scope_policy(policy) }
    }

    /// Finishes the gateway.
    ///
    /// Fails when no authenticator was registered. An empty chain would refuse every request on a
    /// protected scope, which is never what the caller meant and is otherwise only discovered in
    /// production.
    pub fn build(self) -> (built: Result<AuthGateway<P, R, A>, AuthError>)
        ensures
            match built {
                Ok(gateway) => {
                    &&& self.members().len() > 0
                    &&& gateway.resolver() == self.resolver()
                    &&& gateway.members() == self.members()
                    &&& gateway.policy() == self.policy()
                },
                Err(error) => self.members().len() == 0 && error@ == (AuthErrorView::Internal {
                    detail: nothing_registered(),
                }),
            },
    {
        if self.chain.is_empty() {
            return Err(
                AuthError::internal(
                    "no authenticators registered: the gateway would refuse every request on a protected scope",
                ),
            );
        }
        Ok(AuthGateway::new(self.scopes, self.chain))
    }
}

/// A gateway is built of what was registered, in that order, and not at all of nothing: that is the
/// service's own fault.
pub proof fn gateway_is_built_of_what_was_registered<
    P: AuthProfile,
    R: ScopeResolver<Scope = P::Scope>,
    A: Authenticator<P>,
>(
    scopes: R,
    fresh: AuthnBuilder<P, R, A>,
    one: A,
    first: AuthnBuilder<P, R, A>,
    condition: bool,
    other: A,
    second: AuthnBuilder<P, R, A>,
    policy: PublicScopePolicy,
    chosen: AuthnBuilder<P, R, A>,
    built: Result<AuthGateway<P, R, A>, AuthError>,
    nothing: Result<AuthGateway<P, R, A>, AuthError>,
)
    requires
        call_ensures(AuthnBuilder::<P, R, A>::new, (scopes,), fresh),
        call_ensures(AuthnBuilder::<P, R, A>::with, (fresh, one), first),
        call_ensures(AuthnBuilder::<P, R, A>::with_if, (first, condition, other), second),
        call_ensures(AuthnBuilder::<P, R, A>::public_scope_policy, (second, policy), chosen),
        call_ensures(AuthnBuilder::<P, R, A>::build, (chosen,), built),
        call_ensures(AuthnBuilder::<P, R, A>::build, (fresh,), nothing),
    ensures
        built is Ok,
        built->Ok_0.resolver() == scopes,
        built->Ok_0.policy() == policy,
        condition ==> built->Ok_0.members() == seq![one, other],
        !condition ==> built->Ok_0.members() == seq![one],
        fresh.policy() is Optional,
        nothing is Err && nothing->Err_0@.status() == 500,
{
    assert(first.members() =~= seq![one]);
    if condition {
        assert(second.members() =~= seq![one, other]);
    }
}

} // verus!
