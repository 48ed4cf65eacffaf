//! An authenticator that authenticates everything, for local development.
use std::marker::PhantomData;
use vstd::prelude::*;

use crate::authenticator::{AuthContext, AuthProfile, Authenticator};
use crate::claims::{self, ClaimSource, ClaimValueView, ClaimsView, IdentityClaims};
use crate::error::AuthError;
use crate::outcome::Verdict;

verus! {

/// Resolves every request to a fixed identity, which the caller supplies.
///
/// Register it only behind an explicit configuration switch. It performs no authentication
/// whatsoever.
pub struct DisabledAuthenticator<P: AuthProfile> {
    claims: IdentityClaims,
    profile: PhantomData<P>,
}

/// The claims of the development identity.
pub open spec fn development_claims() -> ClaimsView {
    ClaimsView {
        subject: Some("authn-disabled"@),
        preferred_username: Some("authn-disabled"@),
        email: Some("authn-disabled@invalid"@),
        ..ClaimsView::blank(ClaimSource::StaticToken)
    }
}

impl<P: AuthProfile> DisabledAuthenticator<P> {
    /// The identity every request resolves to.
    pub closed spec fn identity(self) -> ClaimsView {
        self.claims@
    }

    /// Authenticates every request as the identity described by `claims`.
    pub fn new(claims: IdentityClaims) -> (authenticator: DisabledAuthenticator<P>)
        ensures
            authenticator.identity() == claims@,
    {
        DisabledAuthenticator { claims, profile: PhantomData }
    }

    /// A conspicuously named development identity: if it reaches a real environment, it should be
    /// obvious in audit logs.
    pub fn development() -> (authenticator: DisabledAuthenticator<P>)
        ensures
            authenticator.identity() == development_claims(),
    {
        let claims = IdentityClaims::new(ClaimSource::StaticToken);
        let claims = claims.with_subject("authn-disabled");
        let claims = claims.with_preferred_username("authn-disabled");
        DisabledAuthenticator::new(claims.with_email("authn-disabled@invalid"))
    }

    /// Answers every request with the fixed identity.
    pub fn authenticate(&self, _ctx: &AuthContext<P>) -> (answer: Result<
        Verdict<P::User>,
        AuthError,
    >)
        ensures
            claims::identifies(
                self.identity(),
                "disabled-auth identity could not be converted"@,
                answer,
            ),
    {
        claims::identify(self.claims.clone(), "disabled-auth identity could not be converted")
    }
}

impl<P: AuthProfile> Authenticator<P> for DisabledAuthenticator<P> {
    fn name(&self) -> (name: &'static str)
        ensures
            name@ == "disabled"@,
    {
        "disabled"
    }
}

/// Every request is answered for as the identity that was supplied, whatever it presents.
pub proof fn every_request_is_the_supplied_identity<P: AuthProfile>(
    claims: IdentityClaims,
    authenticator: DisabledAuthenticator<P>,
    ctx: AuthContext<P>,
    answer: Result<Verdict<P::User>, AuthError>,
)
    requires
        call_ensures(DisabledAuthenticator::<P>::new, (claims,), authenticator),
        call_ensures(DisabledAuthenticator::<P>::authenticate, (&authenticator, &ctx), answer),
    ensures
        claims::identifies(
            claims@,
            "disabled-auth identity could not be converted"@,
            answer,
        ),
{
}

/// The development identity cannot be taken for anybody's, and says where it comes from.
pub proof fn development_identity_is_conspicuous<P: AuthProfile>(
    authenticator: DisabledAuthenticator<P>,
)
    requires
        call_ensures(DisabledAuthenticator::<P>::development, (), authenticator),
    ensures
        authenticator.identity().subject == Some("authn-disabled"@),
        authenticator.identity().best_effort_username() == Some("authn-disabled"@),
        authenticator.identity().email == Some("authn-disabled@invalid"@),
        authenticator.identity().source == ClaimSource::StaticToken,
        authenticator.identity().expires_at is None,
        authenticator.identity().scope is None && authenticator.identity().client_id is None,
        authenticator.identity().extra == Map::<Seq<char>, ClaimValueView>::empty(),
{
}

/// The authenticator is known as `disabled`.
pub proof fn authenticator_is_known_by_its_name<P: AuthProfile>(it: DisabledAuthenticator<P>, name: &'static str)
    requires
        call_ensures(<DisabledAuthenticator<P> as Authenticator<P>>::name, (&it,), name),
    ensures
        name@ == "disabled"@,
{
}

} // verus!
