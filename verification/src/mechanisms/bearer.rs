//! `Authorization: Bearer <jwt>` validated as an OIDC ID token.
use std::marker::PhantomData;
use vstd::prelude::*;

use crate::authenticator::{AuthContext, AuthProfile, Authenticator};
use crate::claims::{self, IdentityClaims};
use crate::credential::{Credential, CredentialView};
use crate::error::AuthError;
use crate::oidc::provider::NonceCheck;
use crate::outcome::Verdict;
use crate::text::{self, Separator};

verus! {

/// Whether a token has the three non-empty dot-separated segments of a compact JWS.
pub open spec fn compact_jws(token: Seq<char>) -> bool {
    let segments = text::pieces(token, Separator::Char('.'));
    &&& segments.len() == 3
    &&& segments[0].len() > 0
    &&& segments[1].len() > 0
    &&& segments[2].len() > 0
}

/// Whether a compact JWS has the three non-empty dot-separated segments RFC 7515 section 3.1
/// requires.
///
/// This keeps chain order irrelevant. An API key, an opaque session handle or a random string is
/// declined and not rejected, so the authenticator can sit either side of a mechanism that also
/// claims `Bearer` without changing any outcome.
pub fn is_compact_jws(token: &str) -> (compact: bool)
    ensures
        compact == compact_jws(token@),
{
    let segments = text::split(token, Separator::Char('.'));
    proof {
        let views = text::slices(segments@);
        assert(views.len() == segments.len());
        assert forall|i: int| 0 <= i < segments.len() implies #[trigger] views[i]
            == segments@[i]@ by {}
    }
    segments.len() == 3 && segments[0].unicode_len() > 0 && segments[1].unicode_len() > 0
        && segments[2].unicode_len() > 0
}

/// Validates a bearer ID token against the OIDC provider.
#[derive(Debug)]
pub struct BearerAuthenticator<P: AuthProfile> {
    profile: PhantomData<P>,
}

/// What comes next for a request.
pub enum BearerStep<U> {
    /// The authenticator answers.
    Answered(Result<Verdict<U>, AuthError>),
    /// Verify this ID token under this nonce check, and finish with the outcome.
    Verify { token: String, nonce: NonceCheck },
}

/// The token that is to be verified: a bearer token in the shape of a JWS.
pub open spec fn token_in(credential: CredentialView) -> Option<Seq<char>> {
    match credential {
        CredentialView::Bearer(token) => if compact_jws(token) {
            Some(token)
        } else {
            None
        },
        _ => None,
    }
}

impl<P: AuthProfile> BearerAuthenticator<P> {
    pub fn new() -> BearerAuthenticator<P> {
        BearerAuthenticator { profile: PhantomData }
    }

    /// Examines a request. Whatever is no bearer token in the shape of a JWS is declined.
    pub fn begin(&self, ctx: &AuthContext<P>) -> (step: BearerStep<P::User>)
        ensures
            match token_in(ctx.credential@) {
                Some(token) => step matches BearerStep::Verify { token: found, nonce }
                    && found@ == token && nonce is Present,
                None => step == BearerStep::Answered(
                    Ok::<Verdict<P::User>, AuthError>(Verdict::NotApplicable),
                ),
            },
    {
        match ctx.credential {
            Credential::Bearer(token) => {
                let token = token.expose_secret();
                if is_compact_jws(token) {
                    BearerStep::Verify {
                        token: String::from_str(token),
                        nonce: NonceCheck::Present,
                    }
                } else {
                    BearerStep::Answered(Ok(Verdict::NotApplicable))
                }
            },
            _ => BearerStep::Answered(Ok(Verdict::NotApplicable)),
        }
    }

    /// Answers with the verdict on the ID token.
    pub fn finish(&self, verified: Result<IdentityClaims, AuthError>) -> (answer: Result<
        Verdict<P::User>,
        AuthError,
    >)
        ensures
            match verified {
                Ok(found) => claims::identifies(found@, "bearer identity conversion"@, answer),
                Err(error) => answer == Err::<Verdict<P::User>, AuthError>(error),
            },
    {
        match verified {
            Ok(found) => claims::identify(found, "bearer identity conversion"),
            Err(error) => Err(error),
        }
    }
}

impl<P: AuthProfile> Authenticator<P> for BearerAuthenticator<P> {
    fn name(&self) -> (name: &'static str)
        ensures
            name@ == "bearer"@,
    {
        "bearer"
    }
}

/// A bearer token of three non-empty segments is verified as it was sent, and has to carry a nonce.
/// Whatever is no bearer token, or has another number of segments or an empty one, is declined.
pub proof fn bearer_jws_is_verified_as_sent<P: AuthProfile>(
    authenticator: BearerAuthenticator<P>,
    ctx: AuthContext<P>,
    step: BearerStep<P::User>,
    segments: Seq<Seq<char>>,
)
    requires
        call_ensures(BearerAuthenticator::<P>::begin, (&authenticator, &ctx), step),
        segments.len() > 0,
        forall|i: int| 0 <= i < segments.len() ==> !(#[trigger] segments[i]).contains('.'),
    ensures
        ctx.credential@ == CredentialView::Bearer(text::joined(segments, '.')) ==> {
            if segments.len() == 3 && segments[0].len() > 0 && segments[1].len() > 0
                && segments[2].len() > 0 {
                step matches BearerStep::Verify { token, nonce } && token@ == text::joined(
                    segments,
                    '.',
                ) && nonce is Present
            } else {
                step == BearerStep::Answered(
                    Ok::<Verdict<P::User>, AuthError>(Verdict::NotApplicable),
                )
            }
        },
        !(ctx.credential@ is Bearer) ==> step == BearerStep::Answered(
            Ok::<Verdict<P::User>, AuthError>(Verdict::NotApplicable),
        ),
{
    text::lemma_pieces_of_joined(segments, '.');
}

/// The verdict on the token is the answer: its failure as it is, and otherwise the principal that
/// its claims describe.
pub proof fn verdict_is_the_answer<P: AuthProfile>(
    authenticator: BearerAuthenticator<P>,
    verified: Result<IdentityClaims, AuthError>,
    answer: Result<Verdict<P::User>, AuthError>,
)
    requires
        call_ensures(BearerAuthenticator::<P>::finish, (&authenticator, verified), answer),
    ensures
        match verified {
            Err(error) => answer == Err::<Verdict<P::User>, AuthError>(error),
            Ok(found) => claims::identifies(found@, "bearer identity conversion"@, answer),
        },
{
}

/// The authenticator is known as `bearer`.
pub proof fn authenticator_is_known_by_its_name<P: AuthProfile>(it: BearerAuthenticator<P>, name: &'static str)
    requires
        call_ensures(<BearerAuthenticator<P> as Authenticator<P>>::name, (&it,), name),
    ensures
        name@ == "bearer"@,
{
}

} // verus!
