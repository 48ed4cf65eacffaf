//! Classifying the failures of an OpenID Connect exchange into [`AuthError`].
//!
//! The distinction that matters operationally is whose fault a failure is: a rejected token is the
//! client's problem, an unreachable issuer is the service's.
use openidconnect::{ClaimsVerificationError, SignatureVerificationError};
use vstd::prelude::*;

use crate::error::{AuthError, AuthErrorView};
use crate::text;

verus! {

/// Why the signature of an ID token was not verified, with all its variants.
#[verifier::external_type_specification]
pub struct ExSignatureVerificationError(openidconnect::SignatureVerificationError);

/// Why an ID token was not accepted, with all its variants.
#[verifier::external_type_specification]
pub struct ExClaimsVerificationError(openidconnect::ClaimsVerificationError);

/// Why provider metadata could not be discovered, each with a report.
#[derive(Debug)]
pub enum DiscoveryError {
    UrlParse(String),
    Parse(String),
    Request(String),
    Response { status: String, report: String },
    Validation(String),
    Other(String),
}

/// What a token endpoint answered in place of a token.
#[derive(Debug)]
pub enum TokenErrorCode {
    UnsupportedGrantType,
    InvalidGrant,
    InvalidClient,
    UnauthorizedClient,
    /// Any other code, as it is written in logs.
    Other(String),
}

/// Why a token-endpoint exchange failed.
#[derive(Debug)]
pub enum TokenExchangeError {
    /// The provider's metadata has no token endpoint to send the request to.
    NoEndpoint(String),
    ServerResponse(TokenErrorCode),
    Request(String),
    Parse(String),
    Other(String),
}

/// What is reported of a signature that was not verified.
pub open spec fn signature_report(cause: SignatureVerificationError) -> Seq<char> {
    match cause {
        SignatureVerificationError::AmbiguousKeyId(detail) => "Ambiguous key identification: "@
            + detail@,
        SignatureVerificationError::CryptoError(detail) => "Crypto error: "@ + detail@,
        SignatureVerificationError::DisallowedAlg(detail) => "Disallowed signature algorithm: "@
            + detail@,
        SignatureVerificationError::InvalidKey(detail) => "Invalid cryptographic key: "@ + detail@,
        SignatureVerificationError::NoMatchingKey => "No matching key found"@,
        SignatureVerificationError::NoSignature => "No signature found"@,
        SignatureVerificationError::UnsupportedAlg(detail) => "Unsupported signature algorithm: "@
            + detail@,
        SignatureVerificationError::Other(detail) => "Other error: "@ + detail@,
        // The type is open to further variants, of which there are none.
        _ => arbitrary(),
    }
}

/// `Display` of `openidconnect::SignatureVerificationError`: what went wrong, and the detail where
/// there is one.
#[verifier::external_body]
fn describe_signature(cause: &SignatureVerificationError) -> (report: String)
    ensures
        report@ == signature_report(*cause),
{
    cause.to_string()
}

/// What is reported of a token that was not accepted.
pub open spec fn token_report(error: ClaimsVerificationError) -> Seq<char> {
    match error {
        ClaimsVerificationError::Expired(detail) => "Expired: "@ + detail@,
        ClaimsVerificationError::InvalidAudience(detail) => "Invalid audiences: "@ + detail@,
        ClaimsVerificationError::InvalidAuthContext(detail) =>
            "Invalid authorization context class reference: "@ + detail@,
        ClaimsVerificationError::InvalidAuthTime(detail) => "Invalid authentication time: "@
            + detail@,
        ClaimsVerificationError::InvalidIssuer(detail) => "Invalid issuer: "@ + detail@,
        ClaimsVerificationError::InvalidNonce(detail) => "Invalid nonce: "@ + detail@,
        ClaimsVerificationError::InvalidSubject(detail) => "Invalid subject: "@ + detail@,
        ClaimsVerificationError::Other(detail) => detail@,
        ClaimsVerificationError::SignatureVerification(_) => "Signature verification failed"@,
        ClaimsVerificationError::Unsupported(detail) => "Unsupported: "@ + detail@,
        // The type is open to further variants, of which there are none.
        _ => arbitrary(),
    }
}

/// `Display` of `openidconnect::ClaimsVerificationError`: what was objected to, and the detail.
#[verifier::external_body]
fn describe_token_error(error: &ClaimsVerificationError) -> (report: String)
    ensures
        report@ == token_report(*error),
{
    error.to_string()
}

/// What a rejected ID token means for the request. Almost always an invalid credential; only a
/// kind of token that cannot be read at all is reported as unsupported.
pub open spec fn rejected_token(error: ClaimsVerificationError) -> AuthErrorView {
    match error {
        ClaimsVerificationError::Expired(report) => AuthErrorView::InvalidCredential {
            detail: "token expired: "@ + report@,
        },
        ClaimsVerificationError::InvalidAudience(report) => AuthErrorView::InvalidCredential {
            detail: "wrong audience: "@ + report@,
        },
        ClaimsVerificationError::InvalidIssuer(report) => AuthErrorView::InvalidCredential {
            detail: "wrong issuer: "@ + report@,
        },
        ClaimsVerificationError::InvalidNonce(report) => AuthErrorView::InvalidCredential {
            detail: "nonce mismatch: "@ + report@,
        },
        ClaimsVerificationError::InvalidAuthTime(report) => AuthErrorView::InvalidCredential {
            detail: "authentication too old: "@ + report@,
        },
        ClaimsVerificationError::SignatureVerification(cause) => AuthErrorView::InvalidCredential {
            detail: "signature verification: "@ + signature_report(cause),
        },
        ClaimsVerificationError::Unsupported(report) => AuthErrorView::Unsupported {
            detail: "unsupported token: "@ + report@,
        },
        _ => AuthErrorView::InvalidCredential {
            detail: "claims verification: "@ + token_report(error),
        },
    }
}

/// What failed discovery means for the request: almost always a service fault upstream. The one
/// exception is a malformed configured URL, which is the service's own to fix.
pub open spec fn failed_discovery(error: DiscoveryError) -> AuthErrorView {
    match error {
        DiscoveryError::UrlParse(report) => AuthErrorView::Internal {
            detail: "malformed discovery url: "@ + report@,
        },
        DiscoveryError::Parse(report) => AuthErrorView::Upstream {
            detail: "could not parse provider metadata: "@ + report@,
        },
        DiscoveryError::Request(report) => AuthErrorView::Upstream {
            detail: "discovery request failed: "@ + report@,
        },
        DiscoveryError::Response { status, report } => AuthErrorView::Upstream {
            detail: "discovery endpoint returned status "@ + status@ + ": "@ + report@,
        },
        DiscoveryError::Validation(report) => AuthErrorView::Upstream {
            detail: "provider metadata failed validation: "@ + report@,
        },
        DiscoveryError::Other(report) => AuthErrorView::Upstream {
            detail: "discovery failed: "@ + report@,
        },
    }
}

/// What a failed token exchange means for the request. The standard OAuth error codes tell "your
/// credentials are wrong" from "this provider does not offer that grant" from "the token endpoint
/// is down".
pub open spec fn failed_exchange(error: TokenExchangeError) -> AuthErrorView {
    match error {
        TokenExchangeError::NoEndpoint(report) => AuthErrorView::Internal {
            detail: "provider advertises no token endpoint: "@ + report@,
        },
        TokenExchangeError::ServerResponse(TokenErrorCode::UnsupportedGrantType) =>
            AuthErrorView::Unsupported {
            detail: "the identity provider does not support this grant type"@,
        },
        TokenExchangeError::ServerResponse(TokenErrorCode::Other(code)) => AuthErrorView::Upstream {
            detail: "token endpoint error: "@ + code@,
        },
        TokenExchangeError::ServerResponse(_) => AuthErrorView::InvalidCredential {
            detail: "credentials rejected by the provider"@,
        },
        TokenExchangeError::Request(report) => AuthErrorView::Upstream {
            detail: "token request failed: "@ + report@,
        },
        TokenExchangeError::Parse(report) => AuthErrorView::Upstream {
            detail: "could not parse token response: "@ + report@,
        },
        TokenExchangeError::Other(report) => AuthErrorView::Upstream {
            detail: "token exchange failed: "@ + report@,
        },
    }
}

impl From<ClaimsVerificationError> for AuthError {
    fn from(error: ClaimsVerificationError) -> (failure: AuthError)
        ensures
            failure@ == rejected_token(error),
    {
        match error {
            ClaimsVerificationError::Expired(report) => AuthError::invalid_credential(
                text::join("token expired: ", report.as_str()).as_str(),
            ),
            ClaimsVerificationError::InvalidAudience(report) => AuthError::invalid_credential(
                text::join("wrong audience: ", report.as_str()).as_str(),
            ),
            ClaimsVerificationError::InvalidIssuer(report) => AuthError::invalid_credential(
                text::join("wrong issuer: ", report.as_str()).as_str(),
            ),
            ClaimsVerificationError::InvalidNonce(report) => AuthError::invalid_credential(
                text::join("nonce mismatch: ", report.as_str()).as_str(),
            ),
            ClaimsVerificationError::InvalidAuthTime(report) => AuthError::invalid_credential(
                text::join("authentication too old: ", report.as_str()).as_str(),
            ),
            ClaimsVerificationError::SignatureVerification(cause) => AuthError::invalid_credential(
                text::join(
                    "signature verification: ",
                    describe_signature(&cause).as_str(),
                ).as_str(),
            ),
            ClaimsVerificationError::Unsupported(report) => AuthError::unsupported(
                text::join("unsupported token: ", report.as_str()).as_str(),
            ),
            other => AuthError::invalid_credential(
                text::join("claims verification: ", describe_token_error(&other).as_str()).as_str(),
            ),
        }
    }
}

impl vstd::std_specs::convert::FromSpecImpl<ClaimsVerificationError> for AuthError {
    open spec fn obeys_from_spec() -> bool {
        false
    }

    open spec fn from_spec(error: ClaimsVerificationError) -> AuthError {
        arbitrary()
    }
}

impl From<DiscoveryError> for AuthError {
    fn from(error: DiscoveryError) -> (failure: AuthError)
        ensures
            failure@ == failed_discovery(error),
    {
        match error {
            DiscoveryError::UrlParse(report) => AuthError::internal(
                text::join("malformed discovery url: ", report.as_str()).as_str(),
            ),
            DiscoveryError::Parse(report) => AuthError::upstream(
                text::join("could not parse provider metadata: ", report.as_str()).as_str(),
            ),
            DiscoveryError::Request(report) => AuthError::upstream(
                text::join("discovery request failed: ", report.as_str()).as_str(),
            ),
            DiscoveryError::Response { status, report } => {
                let head = text::join("discovery endpoint returned status ", status.as_str());
                let head = text::join(head.as_str(), ": ");
                AuthError::upstream(text::join(head.as_str(), report.as_str()).as_str())
            },
            DiscoveryError::Validation(report) => AuthError::upstream(
                text::join("provider metadata failed validation: ", report.as_str()).as_str(),
            ),
            DiscoveryError::Other(report) => AuthError::upstream(
                text::join("discovery failed: ", report.as_str()).as_str(),
            ),
        }
    }
}

impl vstd::std_specs::convert::FromSpecImpl<DiscoveryError> for AuthError {
    open spec fn obeys_from_spec() -> bool {
        false
    }

    open spec fn from_spec(error: DiscoveryError) -> AuthError {
        arbitrary()
    }
}

impl From<TokenExchangeError> for AuthError {
    fn from(error: TokenExchangeError) -> (failure: AuthError)
        ensures
            failure@ == failed_exchange(error),
    {
        match error {
            TokenExchangeError::NoEndpoint(report) => AuthError::internal(
                text::join("provider advertises no token endpoint: ", report.as_str()).as_str(),
            ),
            TokenExchangeError::ServerResponse(code) => match code {
                TokenErrorCode::UnsupportedGrantType => AuthError::unsupported(
                    "the identity provider does not support this grant type",
                ),
                TokenErrorCode::InvalidGrant => AuthError::invalid_credential(
                    "credentials rejected by the provider",
                ),
                TokenErrorCode::InvalidClient => AuthError::invalid_credential(
                    "credentials rejected by the provider",
                ),
                TokenErrorCode::UnauthorizedClient => AuthError::invalid_credential(
                    "credentials rejected by the provider",
                ),
                TokenErrorCode::Other(code) => AuthError::upstream(
                    text::join("token endpoint error: ", code.as_str()).as_str(),
                ),
            },
            TokenExchangeError::Request(report) => AuthError::upstream(
                text::join("token request failed: ", report.as_str()).as_str(),
            ),
            TokenExchangeError::Parse(report) => AuthError::upstream(
                text::join("could not parse token response: ", report.as_str()).as_str(),
            ),
            TokenExchangeError::Other(report) => AuthError::upstream(
                text::join("token exchange failed: ", report.as_str()).as_str(),
            ),
        }
    }
}

impl vstd::std_specs::convert::FromSpecImpl<TokenExchangeError> for AuthError {
    open spec fn obeys_from_spec() -> bool {
        false
    }

    open spec fn from_spec(error: TokenExchangeError) -> AuthError {
        arbitrary()
    }
}

/// Whether fresh keys could change the verdict on a token.
pub open spec fn stale_keys_explain(error: ClaimsVerificationError) -> bool {
    error matches ClaimsVerificationError::SignatureVerification(cause) && (cause is NoMatchingKey
        || cause is CryptoError || cause is AmbiguousKeyId)
}

/// Whether a verification failure might be explained by stale signing keys, and so is worth one
/// retry after refreshing provider metadata.
///
/// Only the failures fresh keys could change qualify: an absent key, the canonical sign of a
/// rotation that was not picked up; a key that does not verify, which is what a provider that
/// rotates without changing the key id looks like; and an ambiguous key id. Everything else fails
/// alike against fresh keys, so retrying only doubles the load on the issuer.
pub fn is_possibly_stale_keys(error: &ClaimsVerificationError) -> (stale: bool)
    ensures
        stale == stale_keys_explain(*error),
{
    match error {
        ClaimsVerificationError::SignatureVerification(cause) => match cause {
            SignatureVerificationError::NoMatchingKey => true,
            SignatureVerificationError::CryptoError(_) => true,
            SignatureVerificationError::AmbiguousKeyId(_) => true,
            _ => false,
        },
        _ => false,
    }
}

/// A token is never rejected as the service's fault, and failed discovery never as the client's.
pub proof fn failures_are_attributed(rejected: ClaimsVerificationError, discovery: DiscoveryError)
    ensures
        !rejected_token(rejected).is_service_fault(),
        rejected_token(rejected).status() == 401 || rejected is Unsupported,
        failed_discovery(discovery).is_service_fault(),
{
}

/// A token that is not accepted is the caller's problem, whatever is wrong with it; only a kind of
/// token that is not supported is neither's. What was objected to is told to the operator.
pub proof fn refused_token_is_the_callers(refused: ClaimsVerificationError, failure: AuthError)
    requires
        call_ensures(
            <AuthError as From<ClaimsVerificationError>>::from,
            (refused,),
            failure,
        ),
    ensures
        refused is Unsupported ==> failure@ is Unsupported,
        !(refused is Unsupported) ==> failure@ is InvalidCredential,
{
}

/// Discovery that fails is the service's fault: the provider's, but for a URL that was configured
/// wrongly.
pub proof fn failed_discovery_is_the_services(fault: DiscoveryError, failure: AuthError)
    requires
        call_ensures(<AuthError as From<DiscoveryError>>::from, (fault,), failure),
    ensures
        fault is UrlParse ==> failure@ is Internal,
        !(fault is UrlParse) ==> failure@ is Upstream,
{
}

/// Whose fault a failed exchange is: the caller's where the provider rejects the credentials, the
/// service's where it was configured without a token endpoint, and the provider's in every other
/// case but that of a grant it does not offer.
pub proof fn failed_exchange_is_attributed(fault: TokenExchangeError, failure: AuthError)
    requires
        call_ensures(<AuthError as From<TokenExchangeError>>::from, (fault,), failure),
    ensures
        is_attributed(fault, failure@),
{
}

/// Whether a failed exchange is reported as the fault of whoever is at fault.
pub open spec fn is_attributed(fault: TokenExchangeError, failure: AuthErrorView) -> bool {
    match fault {
        TokenExchangeError::NoEndpoint(_) => failure is Internal,
        TokenExchangeError::ServerResponse(code) => match code {
            TokenErrorCode::UnsupportedGrantType => failure is Unsupported,
            TokenErrorCode::InvalidGrant => failure is InvalidCredential,
            TokenErrorCode::InvalidClient => failure is InvalidCredential,
            TokenErrorCode::UnauthorizedClient => failure is InvalidCredential,
            TokenErrorCode::Other(_) => failure is Upstream,
        },
        TokenExchangeError::Request(_) => failure is Upstream,
        TokenExchangeError::Parse(_) => failure is Upstream,
        TokenExchangeError::Other(_) => failure is Upstream,
    }
}

/// Fresh keys are worth fetching exactly where no key matches, several do, or one does not verify.
pub proof fn fresh_keys_help_with_key_trouble_alone(fault: ClaimsVerificationError, stale: bool)
    requires
        call_ensures(is_possibly_stale_keys, (&fault,), stale),
    ensures
        stale == (fault matches ClaimsVerificationError::SignatureVerification(cause) && (cause
            is NoMatchingKey || cause is AmbiguousKeyId || cause is CryptoError)),
{
}

/// The operator is told what was reported: by the verifier of a token, by discovery, and by the
/// token endpoint.
pub proof fn operator_is_told_what_was_reported(
    refused: ClaimsVerificationError,
    refusal: AuthError,
    fault: DiscoveryError,
    failure: AuthError,
    broken: TokenExchangeError,
    breakdown: AuthError,
)
    requires
        call_ensures(<AuthError as From<ClaimsVerificationError>>::from, (refused,), refusal),
        call_ensures(<AuthError as From<DiscoveryError>>::from, (fault,), failure),
        call_ensures(<AuthError as From<TokenExchangeError>>::from, (broken,), breakdown),
    ensures
        match refused {
            ClaimsVerificationError::Expired(report) => text::ends_with(
                refusal@.detail(),
                report@,
            ),
            ClaimsVerificationError::InvalidAudience(report) => text::ends_with(
                refusal@.detail(),
                report@,
            ),
            ClaimsVerificationError::InvalidIssuer(report) => text::ends_with(
                refusal@.detail(),
                report@,
            ),
            ClaimsVerificationError::InvalidNonce(report) => text::ends_with(
                refusal@.detail(),
                report@,
            ),
            ClaimsVerificationError::SignatureVerification(cause) => text::ends_with(
                refusal@.detail(),
                signature_report(cause),
            ),
            ClaimsVerificationError::Unsupported(report) => text::ends_with(
                refusal@.detail(),
                report@,
            ),
            _ => true,
        },
        match fault {
            DiscoveryError::UrlParse(report) => text::ends_with(failure@.detail(), report@),
            DiscoveryError::Parse(report) => text::ends_with(failure@.detail(), report@),
            DiscoveryError::Request(report) => text::ends_with(failure@.detail(), report@),
            DiscoveryError::Response { report, .. } => text::ends_with(failure@.detail(), report@),
            DiscoveryError::Validation(report) => text::ends_with(failure@.detail(), report@),
            DiscoveryError::Other(report) => text::ends_with(failure@.detail(), report@),
        },
        match broken {
            TokenExchangeError::NoEndpoint(report) => text::ends_with(breakdown@.detail(), report@),
            TokenExchangeError::ServerResponse(TokenErrorCode::Other(code)) => text::ends_with(
                breakdown@.detail(),
                code@,
            ),
            TokenExchangeError::ServerResponse(_) => true,
            TokenExchangeError::Request(report) => text::ends_with(breakdown@.detail(), report@),
            TokenExchangeError::Parse(report) => text::ends_with(breakdown@.detail(), report@),
            TokenExchangeError::Other(report) => text::ends_with(breakdown@.detail(), report@),
        },
{
    assert forall|s: Seq<char>, tail: Seq<char>| text::ends_with(#[trigger] (s + tail), tail) by {
        text::lemma_ends_with(s, tail);
    }
}

} // verus!
