//! The rules of ID-token verification and of refreshing the provider's keys.
//!
//! Whoever holds the HTTP client fetches the provider's metadata and keys; this module verifies
//! tokens against them, says when they are to be fetched again, and what the outcome means.
use openidconnect::{
    ClaimsVerificationError, ClientId, ClientSecret, Nonce, SignatureVerificationError,
};
use vstd::prelude::*;

use crate::claims::{self as values, ClaimValue, ClaimValueView, ClaimsView, IdentityClaims};
use crate::error::{AuthError, AuthErrorView};
use crate::json;
use crate::names::NameMap;
use crate::oidc::claims::{self, IdTokenClaims};
use crate::oidc::config::{ConfigView, OidcConfig};
use crate::oidc::error;
use crate::secret::SecretString;
use crate::text::{self, Separator};
use crate::time::Duration;

verus! {

/// How strictly the `nonce` claim is checked.
#[derive(Debug)]
pub enum NonceCheck {
    /// The nonce must equal this value. Used on the authorization-code callback, where the nonce
    /// was minted for the login and stored in the protection cookie. This is the only variant that
    /// binds a token to a login attempt.
    Matches(SecretString),
    /// A nonce must be present, but its value is not checked. Used when validating a session token
    /// again whose originating nonce is long gone.
    Present,
    /// No nonce requirement. Used for tokens minted outside an authorization request, such as the
    /// password grant, which has no nonce to carry.
    Skip,
}

/// Why `openidconnect::core::CoreIdToken` cannot be read from a text, or nothing when it can.
pub uninterp spec fn id_token_fault(token: Seq<char>) -> Option<Seq<char>>;

/// `FromStr` of `openidconnect::core::CoreIdToken`: what it reports of a text that is no ID token.
/// Which texts are ID tokens is left to [`id_token_fault`].
#[verifier::external_body]
fn check_id_token(token: &str) -> (fault: Option<String>)
    ensures
        text::optional(fault) == id_token_fault(token@),
{
    token.parse::<openidconnect::core::CoreIdToken>().err().map(|error| error.to_string())
}

/// The name of the algorithm by which an ID token is signed, as its header spells it, or nothing
/// when the text is no ID token or is not signed.
pub uninterp spec fn algorithm_of(token: Seq<char>) -> Option<Seq<char>>;

/// `openidconnect::IdToken::signing_alg`, with the algorithm in its JSON spelling. Which algorithm
/// a token has is left to [`algorithm_of`].
#[verifier::external_body]
fn signing_algorithm(token: &str) -> (name: Option<String>)
    ensures
        text::optional(name) == algorithm_of(token@),
{
    let token: openidconnect::core::CoreIdToken = token.parse().ok()?;
    let name = serde_json::to_value(token.signing_alg().ok()?).ok()?;
    name.as_str().map(String::from)
}

/// How many characters the MAC of an algorithm takes in unpadded base64, if the algorithm is a MAC.
pub open spec fn mac_length(algorithm: Option<Seq<char>>) -> Option<nat> {
    if algorithm == Some("HS256"@) {
        Some(43)
    } else if algorithm == Some("HS384"@) {
        Some(64)
    } else if algorithm == Some("HS512"@) {
        Some(86)
    } else {
        None
    }
}

/// Whether the signature of a token, which is its last segment, has the length that its algorithm
/// gives. Only the length of a MAC is fixed.
pub open spec fn is_sized(token: Seq<char>, algorithm: Option<Seq<char>>) -> bool {
    mac_length(algorithm) matches Some(length) ==> text::pieces(
        token,
        Separator::Char('.'),
    ).last().len() == length
}

/// Whether a MAC at the end of a token has the length that the token's algorithm gives.
pub fn has_sized_signature(token: &str, algorithm: Option<&str>) -> (sized: bool)
    ensures
        sized == is_sized(token@, text::optional_str(algorithm)),
{
    let name = match algorithm {
        Some(name) => name,
        None => {
            return true;
        },
    };
    let length: usize = if text::equal(name, "HS256") {
        43
    } else if text::equal(name, "HS384") {
        64
    } else if text::equal(name, "HS512") {
        86
    } else {
        return true;
    };
    let segments = text::split(token, Separator::Char('.'));
    proof {
        let views = text::slices(segments@);
        assert(views.len() == segments.len());
        assert(views.len() > 0);
        assert(views.last() == segments@.last()@);
    }
    segments[segments.len() - 1].unicode_len() == length
}

/// What a verifier objects to in an ID token, the clock and the nonce aside.
pub ghost enum Objection {
    Audience,
    Issuer,
    /// More than one key matches.
    AmbiguousKey,
    /// A key matches but the signature does not verify with it.
    BadSignature,
    /// No key matches.
    NoKey,
    /// The token carries a MAC and the client has no secret to check it with.
    NoSecret,
    /// The algorithm is not allowed, the key is not usable, the token is not signed, or the like.
    OtherSignature,
    /// A kind of token that is not supported.
    Unsupported,
    Other,
}

/// The objection that a failure reports. An expired token and one with another nonce are no
/// objections: they depend on the clock and on the nonce check.
pub open spec fn objection_in(fault: ClaimsVerificationError) -> Option<Objection> {
    match fault {
        ClaimsVerificationError::Expired(_) => None,
        ClaimsVerificationError::InvalidNonce(_) => None,
        ClaimsVerificationError::InvalidAudience(_) => Some(Objection::Audience),
        ClaimsVerificationError::InvalidIssuer(_) => Some(Objection::Issuer),
        ClaimsVerificationError::SignatureVerification(cause) => match cause {
            SignatureVerificationError::AmbiguousKeyId(_) => Some(Objection::AmbiguousKey),
            SignatureVerificationError::CryptoError(_) => Some(Objection::BadSignature),
            SignatureVerificationError::NoMatchingKey => Some(Objection::NoKey),
            SignatureVerificationError::DisallowedAlg(report) => if report@
                == "symmetric signatures are disallowed for public clients"@ {
                Some(Objection::NoSecret)
            } else {
                Some(Objection::OtherSignature)
            },
            _ => Some(Objection::OtherSignature),
        },
        ClaimsVerificationError::Unsupported(_) => Some(Objection::Unsupported),
        _ => Some(Objection::Other),
    }
}

/// What the verifier of a client makes of an ID token, the clock and the nonce aside: the members
/// of its claims when issuer, audience and signature are in order, else what it objects to first.
/// The client is described by the provider's discovery document and key set, both as JSON, and its
/// own id and secret; a description or a token that cannot be read is objected to as `Other`.
pub uninterp spec fn vouched_claims(
    token: Seq<char>,
    metadata: Seq<char>,
    keys: Seq<char>,
    client_id: Seq<char>,
    client_secret: Option<Seq<char>>,
) -> Result<Map<Seq<char>, ClaimValueView>, Objection>;

/// The `nonce` claim.
pub open spec fn nonce_in(members: Map<Seq<char>, ClaimValueView>) -> Option<Seq<char>> {
    json::text_member(members, "nonce"@)
}

/// Whether `outcome` is a verifier's answer on a token that stands as `standing`, when its nonce is
/// refused for the reason `refusal`, or not at all. A token that is vouched for may have expired,
/// which depends on the clock. Accepted claims are handed out as JSON and name their subject.
pub open spec fn answers(
    outcome: Result<Vec<u8>, ClaimsVerificationError>,
    standing: Result<Map<Seq<char>, ClaimValueView>, Objection>,
    refusal: Option<Seq<char>>,
) -> bool {
    match standing {
        Err(objection) => outcome matches Err(fault) && objection_in(fault) == Some(objection),
        Ok(members) => match outcome {
            Ok(bytes) => refusal is None && json::reads_as(bytes@, members) && json::text_member(
                members,
                "sub"@,
            ) is Some,
            Err(fault) => fault is Expired || (fault matches ClaimsVerificationError::InvalidNonce(
                report,
            ) && refusal == Some(report@)),
        },
    }
}

/// The refusal of a token that is vouched for and carries no nonce.
pub open spec fn nonce_required(
    standing: Result<Map<Seq<char>, ClaimValueView>, Objection>,
) -> Option<Seq<char>> {
    match standing {
        Ok(members) => if nonce_in(members) is None {
            Some("missing nonce claim"@)
        } else {
            None
        },
        Err(_) => None,
    }
}

/// Whether `outcome` is a verifier's answer on a token whose nonce is compared with `expected` by
/// digest: a nonce that is `expected` is accepted, and whether another one has the same digest is
/// left open.
pub open spec fn answers_by_digest(
    outcome: Result<Vec<u8>, ClaimsVerificationError>,
    standing: Result<Map<Seq<char>, ClaimValueView>, Objection>,
    expected: Seq<char>,
) -> bool {
    if standing matches Ok(members) && nonce_in(members) is Some && nonce_in(members) != Some(
        expected,
    ) {
        answers(outcome, standing, Some("nonce mismatch"@)) || answers(outcome, standing, None)
    } else {
        answers(outcome, standing, nonce_required(standing))
    }
}

/// `openidconnect::IdToken::claims` with a nonce to match, under the verifier of
/// `openidconnect::Client::from_provider_metadata`. Issuer, audience and signature come first, then
/// the expiry, which depends on the system's clock, then the nonce, which is compared by its
/// SHA-256 digest. What is objected to is left to [`vouched_claims`]; the texts of the objections
/// are not stated, but for the one on a missing secret, since another lists the allowed algorithms
/// in the order of a hash set. A MAC of another length than its algorithm gives is left out where
/// there is a secret to check it with: the call panics on it.
#[verifier::external_body]
fn claims_for_nonce(
    token: &str,
    metadata: &str,
    keys: &str,
    client_id: String,
    client_secret: Option<String>,
    expected: String,
) -> (outcome: Result<Vec<u8>, ClaimsVerificationError>)
    requires
        client_secret is None || is_sized(token@, algorithm_of(token@)),
    ensures
        answers_by_digest(
            outcome,
            vouched_claims(token@, metadata@, keys@, client_id@, text::optional(client_secret)),
            expected@,
        ),
{
    let other = |error: serde_json::Error| ClaimsVerificationError::Other(error.to_string());
    let metadata: openidconnect::core::CoreProviderMetadata =
        serde_json::from_str(metadata).map_err(other)?;
    let metadata = metadata.set_jwks(serde_json::from_str(keys).map_err(other)?);
    let secret = client_secret.map(ClientSecret::new);
    let id = ClientId::new(client_id);
    let client = openidconnect::core::CoreClient::from_provider_metadata(metadata, id, secret);
    let token: openidconnect::core::CoreIdToken = token.parse().map_err(other)?;
    let claims = token.claims(&client.id_token_verifier(), &Nonce::new(expected))?;
    Ok(serde_json::to_vec(claims).unwrap_or_default())
}

/// `openidconnect::IdToken::claims` as in [`claims_for_nonce`], with a nonce that has to be there.
#[verifier::external_body]
fn claims_with_nonce(
    token: &str,
    metadata: &str,
    keys: &str,
    client_id: String,
    client_secret: Option<String>,
) -> (outcome: Result<Vec<u8>, ClaimsVerificationError>)
    requires
        client_secret is None || is_sized(token@, algorithm_of(token@)),
    ensures
        answers(
            outcome,
            vouched_claims(token@, metadata@, keys@, client_id@, text::optional(client_secret)),
            nonce_required(
                vouched_claims(token@, metadata@, keys@, client_id@, text::optional(client_secret)),
            ),
        ),
{
    let other = |error: serde_json::Error| ClaimsVerificationError::Other(error.to_string());
    let metadata: openidconnect::core::CoreProviderMetadata =
        serde_json::from_str(metadata).map_err(other)?;
    let metadata = metadata.set_jwks(serde_json::from_str(keys).map_err(other)?);
    let secret = client_secret.map(ClientSecret::new);
    let id = ClientId::new(client_id);
    let client = openidconnect::core::CoreClient::from_provider_metadata(metadata, id, secret);
    let token: openidconnect::core::CoreIdToken = token.parse().map_err(other)?;
    let present = |n: Option<&Nonce>| require_nonce_present(n.map(|n| n.secret().as_str()));
    let claims = token.claims(&client.id_token_verifier(), present)?;
    Ok(serde_json::to_vec(claims).unwrap_or_default())
}

/// `openidconnect::IdToken::claims` as in [`claims_for_nonce`], with any nonce or none.
#[verifier::external_body]
fn claims_with_any_nonce(
    token: &str,
    metadata: &str,
    keys: &str,
    client_id: String,
    client_secret: Option<String>,
) -> (outcome: Result<Vec<u8>, ClaimsVerificationError>)
    requires
        client_secret is None || is_sized(token@, algorithm_of(token@)),
    ensures
        answers(
            outcome,
            vouched_claims(token@, metadata@, keys@, client_id@, text::optional(client_secret)),
            None,
        ),
{
    let other = |error: serde_json::Error| ClaimsVerificationError::Other(error.to_string());
    let metadata: openidconnect::core::CoreProviderMetadata =
        serde_json::from_str(metadata).map_err(other)?;
    let metadata = metadata.set_jwks(serde_json::from_str(keys).map_err(other)?);
    let secret = client_secret.map(ClientSecret::new);
    let id = ClientId::new(client_id);
    let client = openidconnect::core::CoreClient::from_provider_metadata(metadata, id, secret);
    let token: openidconnect::core::CoreIdToken = token.parse().map_err(other)?;
    let any = |n: Option<&Nonce>| skip_nonce_check(n.map(|n| n.secret().as_str()));
    let claims = token.claims(&client.id_token_verifier(), any)?;
    Ok(serde_json::to_vec(claims).unwrap_or_default())
}

impl NonceCheck {
    /// Why a token with these claims is refused on account of its nonce, if it is.
    pub open spec fn refusal(self, members: Map<Seq<char>, ClaimValueView>) -> Option<Seq<char>> {
        match self {
            NonceCheck::Matches(expected) => match nonce_in(members) {
                Some(nonce) => if nonce == expected@ {
                    None
                } else {
                    Some("nonce mismatch"@)
                },
                None => Some("missing nonce claim"@),
            },
            NonceCheck::Present => if nonce_in(members) is None {
                Some("missing nonce claim"@)
            } else {
                None
            },
            NonceCheck::Skip => None,
        }
    }

    /// Why a token with these claims is refused on account of its nonce, if it is.
    pub fn check(&self, members: &NameMap<ClaimValue>) -> (report: Option<String>)
        ensures
            text::optional(report) == self.refusal(values::claim_values(members@)),
    {
        let expected = match self {
            NonceCheck::Matches(expected) => Some(expected),
            NonceCheck::Present => None,
            NonceCheck::Skip => {
                return None;
            },
        };
        match (json::text_of(members, "nonce"), expected) {
            (None, _) => Some(String::from_str("missing nonce claim")),
            (Some(nonce), Some(expected)) => if text::equal(
                nonce.as_str(),
                expected.expose_secret(),
            ) {
                None
            } else {
                Some(String::from_str("nonce mismatch"))
            },
            (Some(_), None) => None,
        }
    }
}

/// Whether `heard` is a verifier's answer under a nonce check.
pub open spec fn hears(
    heard: Result<Vec<u8>, ClaimsVerificationError>,
    standing: Result<Map<Seq<char>, ClaimValueView>, Objection>,
    nonce: NonceCheck,
) -> bool {
    match nonce {
        NonceCheck::Matches(expected) => answers_by_digest(heard, standing, expected@),
        NonceCheck::Present => answers(heard, standing, nonce_required(standing)),
        NonceCheck::Skip => answers(heard, standing, None),
    }
}

/// Asks the verifier of a client under a nonce check.
fn hear(
    token: &str,
    metadata: &str,
    keys: &str,
    client_id: String,
    client_secret: Option<String>,
    nonce: &NonceCheck,
) -> (heard: Result<Vec<u8>, ClaimsVerificationError>)
    requires
        client_secret is None || is_sized(token@, algorithm_of(token@)),
    ensures
        hears(
            heard,
            vouched_claims(token@, metadata@, keys@, client_id@, text::optional(client_secret)),
            *nonce,
        ),
{
    match nonce {
        NonceCheck::Matches(expected) => claims_for_nonce(
            token,
            metadata,
            keys,
            client_id,
            client_secret,
            String::from_str(expected.expose_secret()),
        ),
        NonceCheck::Present => claims_with_nonce(token, metadata, keys, client_id, client_secret),
        NonceCheck::Skip => claims_with_any_nonce(token, metadata, keys, client_id, client_secret),
    }
}

/// What is objected to in a token whose MAC cannot be right, given how it stands with a client that
/// has no secret: what such a client objects to before it comes to the MAC, else the MAC.
pub open spec fn mac_objection(
    standing: Result<Map<Seq<char>, ClaimValueView>, Objection>,
) -> Objection {
    match standing {
        Err(objection) => if objection is NoSecret {
            Objection::BadSignature
        } else {
            objection
        },
        Ok(_) => Objection::BadSignature,
    }
}

/// The failure of a token whose MAC cannot be right, given what the verifier of a client without a
/// secret answers on it: what that one objects to before it comes to the MAC, else the MAC.
pub fn without_mac(heard: Result<Vec<u8>, ClaimsVerificationError>) -> (fault:
    ClaimsVerificationError)
    ensures
        if heard matches Err(found) && objection_in(found) is Some && objection_in(found) != Some(
            Objection::NoSecret,
        ) {
            fault == heard->Err_0
        } else {
            fault matches ClaimsVerificationError::SignatureVerification(cause)
                && cause matches SignatureVerificationError::CryptoError(report)
                && report@ == "bad HMAC"@
        },
{
    match heard {
        Ok(_) => {},
        Err(ClaimsVerificationError::Expired(_)) => {},
        Err(ClaimsVerificationError::InvalidNonce(_)) => {},
        Err(
            ClaimsVerificationError::SignatureVerification(
                SignatureVerificationError::DisallowedAlg(report),
            ),
        ) => {
            if !text::equal(
                report.as_str(),
                "symmetric signatures are disallowed for public clients",
            ) {
                return ClaimsVerificationError::SignatureVerification(
                    SignatureVerificationError::DisallowedAlg(report),
                );
            }
        },
        Err(fault) => {
            return fault;
        },
    }
    ClaimsVerificationError::SignatureVerification(
        SignatureVerificationError::CryptoError(String::from_str("bad HMAC")),
    )
}

/// Whether `outcome` is what a verifier's answer comes to under a nonce check. A failure stays.
/// Claims are a JSON object that names its subject, and are refused where their nonce is.
pub open spec fn concludes(
    nonce: NonceCheck,
    heard: Result<Vec<u8>, ClaimsVerificationError>,
    outcome: Result<IdTokenClaims, ClaimsVerificationError>,
) -> bool {
    match heard {
        Err(fault) => outcome == Err::<IdTokenClaims, ClaimsVerificationError>(fault),
        Ok(bytes) => match json::json_members(bytes@) {
            Err(report) => is_unreadable(outcome, report),
            Ok(None) => is_unreadable(outcome, "expected an object"@),
            Ok(Some(members)) => match nonce.refusal(members) {
                Some(report) => outcome matches Err(ClaimsVerificationError::InvalidNonce(found))
                    && found@ == report,
                None => if json::text_member(members, "sub"@) is None {
                    is_unreadable(outcome, "missing field `sub`"@)
                } else {
                    outcome matches Ok(found) && found@ == claims::claims_in(members)
                },
            },
        },
    }
}

/// Whether `outcome` reports claims that cannot be read.
pub open spec fn is_unreadable(
    outcome: Result<IdTokenClaims, ClaimsVerificationError>,
    report: Seq<char>,
) -> bool {
    outcome matches Err(ClaimsVerificationError::Other(found)) && found@ == report
}

/// What a verifier's answer comes to under a nonce check. The verifier compares nonces by their
/// digests; that the texts are the same is settled here.
pub fn concluded(nonce: &NonceCheck, heard: Result<Vec<u8>, ClaimsVerificationError>) -> (outcome:
    Result<IdTokenClaims, ClaimsVerificationError>)
    ensures
        concludes(*nonce, heard, outcome),
{
    let bytes = match heard {
        Ok(bytes) => bytes,
        Err(fault) => {
            return Err(fault);
        },
    };
    let members = match json::read_object(bytes.as_slice()) {
        Ok(Some(members)) => members,
        Ok(None) => {
            return Err(ClaimsVerificationError::Other(String::from_str("expected an object")));
        },
        Err(report) => {
            return Err(ClaimsVerificationError::Other(report));
        },
    };
    if let Some(report) = nonce.check(&members) {
        return Err(ClaimsVerificationError::InvalidNonce(report));
    }
    match IdTokenClaims::from_members(members) {
        Some(found) => Ok(found),
        None => Err(ClaimsVerificationError::Other(String::from_str("missing field `sub`"))),
    }
}

/// Whether `outcome` is what the verification of a token comes to that stands as `standing`: the
/// objection, if there is one; else its claims, unless its nonce is refused or it has expired.
pub open spec fn verifies(
    standing: Result<Map<Seq<char>, ClaimValueView>, Objection>,
    nonce: NonceCheck,
    outcome: Result<IdTokenClaims, ClaimsVerificationError>,
) -> bool {
    match standing {
        Err(objection) => outcome matches Err(fault) && objection_in(fault) == Some(objection),
        Ok(members) => match outcome {
            Ok(found) => nonce.refusal(members) is None && found@ == claims::claims_in(members),
            Err(fault) => fault is Expired || (fault matches ClaimsVerificationError::InvalidNonce(
                report,
            ) && nonce.refusal(members) == Some(report@)),
        },
    }
}

/// An ID token that is to be verified, or that waits for fresh keys.
#[derive(Debug)]
pub struct PendingToken {
    token: String,
    nonce: NonceCheck,
    retried: bool,
}

impl PendingToken {
    /// The token.
    pub closed spec fn text(self) -> Seq<char> {
        self.token@
    }

    /// How its nonce is checked.
    pub closed spec fn nonce_check(self) -> NonceCheck {
        self.nonce
    }

    /// Whether the keys were refreshed on its account.
    pub closed spec fn has_fresh_keys(self) -> bool {
        self.retried
    }

    /// The token to verify.
    pub fn token(&self) -> (token: &str)
        ensures
            token@ == self.text(),
    {
        self.token.as_str()
    }

    /// How to check its nonce.
    pub fn nonce(&self) -> (nonce: &NonceCheck)
        ensures
            *nonce == self.nonce_check(),
    {
        &self.nonce
    }
}

/// What comes next for an ID token.
pub enum VerificationStep {
    /// Verify it with the keys at hand.
    Verify(PendingToken),
    /// Refresh the provider's keys first.
    Refresh(PendingToken),
    /// The token is accepted or rejected.
    Decided(Result<IdentityClaims, AuthError>),
}

/// What a [`VerificationStep`] says.
pub ghost enum StepView {
    Verify { token: Seq<char>, nonce: NonceCheck, retried: bool },
    Refresh { token: Seq<char>, nonce: NonceCheck },
    Accepted(ClaimsView),
    Rejected(AuthErrorView),
}

impl View for VerificationStep {
    type V = StepView;

    open spec fn view(&self) -> StepView {
        match *self {
            VerificationStep::Verify(pending) => StepView::Verify {
                token: pending.text(),
                nonce: pending.nonce_check(),
                retried: pending.has_fresh_keys(),
            },
            VerificationStep::Refresh(pending) => StepView::Refresh {
                token: pending.text(),
                nonce: pending.nonce_check(),
            },
            VerificationStep::Decided(Ok(claims)) => StepView::Accepted(claims@),
            VerificationStep::Decided(Err(error)) => StepView::Rejected(error@),
        }
    }
}

/// The first step for a token: it is verified, unless it is no ID token at all.
pub open spec fn first_step(token: Seq<char>, nonce: NonceCheck) -> StepView {
    match id_token_fault(token) {
        Some(report) => StepView::Rejected(
            AuthErrorView::InvalidCredential { detail: "malformed id token: "@ + report },
        ),
        None => StepView::Verify { token, nonce, retried: false },
    }
}

/// The step that follows a verification. A failure that stale keys would explain is worth one
/// refresh; any other is final, since fresh keys cannot change the outcome.
pub open spec fn step_after_verification(
    pending: PendingToken,
    outcome: Result<IdTokenClaims, ClaimsVerificationError>,
) -> StepView {
    match outcome {
        Ok(claims) => StepView::Accepted(claims::identity_of(claims@)),
        Err(fault) => if error::stale_keys_explain(fault) && !pending.has_fresh_keys() {
            StepView::Refresh { token: pending.text(), nonce: pending.nonce_check() }
        } else {
            StepView::Rejected(error::rejected_token(fault))
        },
    }
}

/// The step that follows a refresh: the token is verified again, unless the refresh failed.
pub open spec fn step_after_refresh(
    pending: PendingToken,
    outcome: Result<(), AuthError>,
) -> StepView {
    match outcome {
        Ok(_) => StepView::Verify {
            token: pending.text(),
            nonce: pending.nonce_check(),
            retried: true,
        },
        Err(error) => StepView::Rejected(error@),
    }
}

/// The configured provider.
#[derive(Debug)]
pub struct OidcProvider {
    config: OidcConfig,
}

impl View for OidcProvider {
    type V = ConfigView;

    closed spec fn view(&self) -> ConfigView {
        self.config@
    }
}

impl OidcProvider {
    pub fn new(config: OidcConfig) -> (provider: OidcProvider)
        ensures
            provider@ == config@,
    {
        OidcProvider { config }
    }

    pub fn config(&self) -> (config: &OidcConfig)
        ensures
            config@ == self@,
    {
        &self.config
    }

    /// Whether a snapshot of this age is old enough to be fetched again.
    ///
    /// A refresh newer than the minimum interval is treated as already done. Without this, a
    /// stream of forged tokens would pin the issuer's discovery endpoint indefinitely.
    pub fn refresh_due(&self, age: &Duration) -> (due: bool)
        ensures
            due == (age@ >= self@.min_refresh_interval),
    {
        !age.is_below(&self.config.min_refresh_interval())
    }

    /// Whether a refresh is still due for a caller that had to wait for its turn, given whether
    /// the snapshot it observed was replaced meanwhile and the age of the current one. Whoever had
    /// the turn before may have refreshed already, in which case there is nothing to do.
    pub fn refresh_still_due(&self, replaced: bool, age: &Duration) -> (due: bool)
        ensures
            due == (!replaced && age@ >= self@.min_refresh_interval),
    {
        !replaced && self.refresh_due(age)
    }

    /// Begins to verify an ID token.
    pub fn verify_id_token(&self, token: &str, nonce: NonceCheck) -> (step: VerificationStep)
        ensures
            step@ == first_step(token@, nonce),
    {
        match check_id_token(token) {
            Some(report) => VerificationStep::Decided(
                Err(
                    AuthError::invalid_credential(
                        text::join("malformed id token: ", report.as_str()).as_str(),
                    ),
                ),
            ),
            None => VerificationStep::Verify(
                PendingToken { token: String::from_str(token), nonce, retried: false },
            ),
        }
    }

    /// How an ID token stands with this client, given the provider's metadata and keys. A MAC of
    /// another length than its algorithm gives is a bad one, with no need for the secret.
    pub open spec fn standing(
        self,
        token: Seq<char>,
        metadata: Seq<char>,
        keys: Seq<char>,
    ) -> Result<Map<Seq<char>, ClaimValueView>, Objection> {
        if self@.client_secret is None || is_sized(token, algorithm_of(token)) {
            vouched_claims(token, metadata, keys, self@.client_id, self@.client_secret)
        } else {
            Err(mac_objection(vouched_claims(token, metadata, keys, self@.client_id, None)))
        }
    }

    /// Verifies a token with the provider's discovery document and key set, both as JSON, and goes
    /// on with the outcome.
    pub fn verify(&self, pending: PendingToken, metadata: &str, keys: &str) -> (step:
        VerificationStep)
        ensures
            exists|outcome: Result<IdTokenClaims, ClaimsVerificationError>| #[trigger]
                verifies(
                    self.standing(pending.text(), metadata@, keys@),
                    pending.nonce_check(),
                    outcome,
                ) && step@ == step_after_verification(pending, outcome),
    {
        let outcome = self.examine(&pending, metadata, keys);
        let ghost found = outcome;
        assert(verifies(
            self.standing(pending.text(), metadata@, keys@),
            pending.nonce_check(),
            found,
        ));
        self.verified(pending, outcome)
    }

    /// Verifies a token under its nonce check.
    pub fn examine(&self, pending: &PendingToken, metadata: &str, keys: &str) -> (outcome: Result<
        IdTokenClaims,
        ClaimsVerificationError,
    >)
        ensures
            verifies(
                self.standing(pending.text(), metadata@, keys@),
                pending.nonce_check(),
                outcome,
            ),
    {
        let token = pending.token.as_str();
        let id = String::from_str(self.config.client_id());
        let secret = match self.config.client_secret() {
            Some(secret) => Some(String::from_str(secret)),
            None => None,
        };
        let sized = match signing_algorithm(token) {
            Some(name) => has_sized_signature(token, Some(name.as_str())),
            None => true,
        };
        if secret.is_none() || sized {
            let heard = hear(token, metadata, keys, id, secret, &pending.nonce);
            concluded(&pending.nonce, heard)
        } else {
            Err(without_mac(hear(token, metadata, keys, id, None, &pending.nonce)))
        }
    }

    /// Goes on with the outcome of a verification.
    pub fn verified(
        &self,
        pending: PendingToken,
        outcome: Result<IdTokenClaims, ClaimsVerificationError>,
    ) -> (step: VerificationStep)
        ensures
            step@ == step_after_verification(pending, outcome),
    {
        match outcome {
            Ok(found) => VerificationStep::Decided(
                Ok(claims::identity_from_id_token_claims(found)),
            ),
            Err(fault) => {
                if error::is_possibly_stale_keys(&fault) && !pending.retried {
                    VerificationStep::Refresh(pending)
                } else {
                    VerificationStep::Decided(Err(AuthError::from(fault)))
                }
            },
        }
    }

    /// Goes on with the outcome of a refresh.
    pub fn refreshed(&self, pending: PendingToken, outcome: Result<(), AuthError>) -> (step:
        VerificationStep)
        ensures
            step@ == step_after_refresh(pending, outcome),
    {
        match outcome {
            Ok(_) => VerificationStep::Verify(
                PendingToken { token: pending.token, nonce: pending.nonce, retried: true },
            ),
            Err(error) => VerificationStep::Decided(Err(error)),
        }
    }
}

/// Accepts a token that carries a nonce, whatever its value.
pub fn require_nonce_present(nonce: Option<&str>) -> (verdict: Result<(), String>)
    ensures
        match verdict {
            Ok(_) => nonce is Some,
            Err(report) => nonce is None && report@ == "missing nonce claim"@,
        },
{
    if nonce.is_some() {
        Ok(())
    } else {
        Err(String::from_str("missing nonce claim"))
    }
}

/// Accepts any token.
pub fn skip_nonce_check(_nonce: Option<&str>) -> (verdict: Result<(), String>)
    ensures
        verdict is Ok,
{
    Ok(())
}

/// The keys are refreshed at most once for a token: once they are fresh, its verification decides.
pub proof fn keys_are_refreshed_at_most_once(
    pending: PendingToken,
    outcome: Result<IdTokenClaims, ClaimsVerificationError>,
)
    requires
        pending.has_fresh_keys(),
    ensures
        step_after_verification(pending, outcome) is Accepted || step_after_verification(
            pending,
            outcome,
        ) is Rejected,
{
}

/// A failure that fresh keys cannot change is final at once.
pub proof fn other_failures_are_final(pending: PendingToken, fault: ClaimsVerificationError)
    requires
        !error::stale_keys_explain(fault),
    ensures
        step_after_verification(pending, Err(fault)) == StepView::Rejected(
            error::rejected_token(fault),
        ),
{
}

/// A token is accepted only when issuer, audience and signature are in order and its nonce check is
/// met, and with the claims it carries.
pub proof fn acceptance_needs_verification(
    standing: Result<Map<Seq<char>, ClaimValueView>, Objection>,
    pending: PendingToken,
    outcome: Result<IdTokenClaims, ClaimsVerificationError>,
)
    requires
        verifies(standing, pending.nonce_check(), outcome),
        step_after_verification(pending, outcome) is Accepted,
    ensures
        standing matches Ok(members) && pending.nonce_check().refusal(members) is None
            && step_after_verification(pending, outcome) == StepView::Accepted(
            claims::identity_of(claims::claims_in(members)),
        ),
{
}

/// Only [`NonceCheck::Matches`] binds a token to a login attempt: a token that it accepts carries
/// the very nonce that was minted.
pub proof fn matched_token_carries_the_nonce(
    standing: Result<Map<Seq<char>, ClaimValueView>, Objection>,
    expected: SecretString,
    outcome: Result<IdTokenClaims, ClaimsVerificationError>,
)
    requires
        verifies(standing, NonceCheck::Matches(expected), outcome),
        outcome is Ok,
    ensures
        standing matches Ok(members) && nonce_in(members) == Some(expected@),
{
}

/// Keys are refreshed on account of a token only where the verifier found no key for it, more than
/// one, or one that does not verify.
pub proof fn refresh_needs_a_key_objection(
    standing: Result<Map<Seq<char>, ClaimValueView>, Objection>,
    pending: PendingToken,
    outcome: Result<IdTokenClaims, ClaimsVerificationError>,
)
    requires
        verifies(standing, pending.nonce_check(), outcome),
        step_after_verification(pending, outcome) is Refresh,
    ensures
        standing matches Err(objection) && (objection is NoKey || objection is AmbiguousKey
            || objection is BadSignature),
{
}

/// A token is accepted only with claims that a verification of it produced, and throughout it is
/// the same token under the same nonce check.
pub proof fn only_verification_accepts(
    token: Seq<char>,
    nonce: NonceCheck,
    pending: PendingToken,
    outcome: Result<IdTokenClaims, ClaimsVerificationError>,
    refresh: Result<(), AuthError>,
)
    ensures
        !(first_step(token, nonce) is Accepted),
        !(step_after_refresh(pending, refresh) is Accepted),
        step_after_verification(pending, outcome) matches StepView::Accepted(claims) ==> outcome is Ok
            && claims == claims::identity_of(outcome->Ok_0@),
        step_after_verification(pending, outcome) matches StepView::Refresh {
            token: t,
            nonce: n,
        } ==> t == pending.text() && n == pending.nonce_check(),
        step_after_refresh(pending, refresh) matches StepView::Verify {
            token: t,
            nonce: n,
            ..
        } ==> t == pending.text() && n == pending.nonce_check(),
{
}

/// A text that is no ID token is refused at once; every other one is verified as it is, under the
/// nonce check that was asked for, and with the keys at hand.
pub proof fn token_is_verified_as_it_is(
    provider: OidcProvider,
    token: &str,
    nonce: NonceCheck,
    step: VerificationStep,
    found: &str,
    check: &NonceCheck,
)
    requires
        call_ensures(OidcProvider::verify_id_token, (&provider, token, nonce), step),
        step is Verify ==> call_ensures(PendingToken::token, (&step->Verify_0,), found),
        step is Verify ==> call_ensures(PendingToken::nonce, (&step->Verify_0,), check),
    ensures
        id_token_fault(token@) is Some ==> (step matches VerificationStep::Decided(Err(error))
            && error@.status() == 401),
        id_token_fault(token@) is None ==> step is Verify && found@ == token@ && *check == nonce
            && !step->Verify_0.has_fresh_keys(),
{
}

/// A nonce check is met by the nonce it asks for, if it asks for one.
pub proof fn nonce_check_is_met_by_its_nonce(
    check: NonceCheck,
    members: NameMap<ClaimValue>,
    report: Option<String>,
)
    requires
        call_ensures(NonceCheck::check, (&check, &members), report),
    ensures
        ({
            let said = values::claim_values(members@);
            let carried = said.contains_key("nonce"@) && said["nonce"@] is Text;
            &&& check is Skip ==> report is None
            &&& check is Present ==> (report is None) == carried
            &&& check matches NonceCheck::Matches(expected) ==> (report is None) == (carried
                && said["nonce"@] == ClaimValueView::Text(expected@))
        }),
{
}

/// What a client's verifier vouches for is accepted, with the claims that it vouches for, each under
/// its own name, unless its nonce is not the one asked for or it has expired. What the verifier
/// objects to is never accepted.
pub proof fn vouched_token_is_accepted_with_its_claims(
    provider: OidcProvider,
    pending: PendingToken,
    metadata: &str,
    keys: &str,
    outcome: Result<IdTokenClaims, ClaimsVerificationError>,
)
    requires
        call_ensures(OidcProvider::examine, (&provider, &pending, metadata, keys), outcome),
        provider@.client_secret is None || is_sized(pending.text(), algorithm_of(pending.text())),
    ensures
        match vouched_claims(
            pending.text(),
            metadata@,
            keys@,
            provider@.client_id,
            provider@.client_secret,
        ) {
            Err(objection) => outcome is Err && objection_in(outcome->Err_0) == Some(objection),
            Ok(members) => match outcome {
                Ok(found) => {
                    &&& pending.nonce_check() matches NonceCheck::Matches(expected)
                        ==> members.contains_key("nonce"@) && members["nonce"@]
                        == ClaimValueView::Text(expected@)
                    &&& pending.nonce_check() is Present ==> members.contains_key("nonce"@)
                        && members["nonce"@] is Text
                    &&& found@.members == Some(members)
                    &&& json::is_text_of(found@.email, members, "email"@)
                    &&& json::is_text_of(
                        found@.preferred_username,
                        members,
                        "preferred_username"@,
                    )
                    &&& json::is_text_of(found@.name, members, "name"@)
                },
                Err(ClaimsVerificationError::Expired(_)) => true,
                Err(ClaimsVerificationError::InvalidNonce(_)) => match pending.nonce_check() {
                    NonceCheck::Matches(expected) => !(members.contains_key("nonce"@)
                        && members["nonce"@] == ClaimValueView::Text(expected@)),
                    NonceCheck::Present => !(members.contains_key("nonce"@) && members["nonce"@]
                        is Text),
                    NonceCheck::Skip => false,
                },
                Err(_) => false,
            },
        },
{
}

/// An accepted identity is what the verifier vouched for: each claim is the token's own of that
/// name, and the expiry is the token's.
pub proof fn accepted_identity_is_the_tokens(
    provider: OidcProvider,
    pending: PendingToken,
    metadata: &str,
    keys: &str,
    step: VerificationStep,
    identity: IdentityClaims,
)
    requires
        call_ensures(OidcProvider::verify, (&provider, pending, metadata, keys), step),
        step == VerificationStep::Decided(Ok(identity)),
    ensures
        provider.standing(pending.text(), metadata@, keys@) is Ok,
        ({
            let members = provider.standing(pending.text(), metadata@, keys@)->Ok_0;
            &&& json::is_text_of(identity@.email, members, "email"@)
            &&& json::is_text_of(identity@.preferred_username, members, "preferred_username"@)
            &&& json::is_text_of(identity@.name, members, "name"@)
            &&& members.contains_key("sub"@) && members["sub"@] is Text ==> identity@.subject
                == Some(members["sub"@]->Text_0)
            &&& identity@.extra == members
            &&& identity@.source is IdToken
            &&& pending.nonce_check() matches NonceCheck::Matches(expected)
                ==> members.contains_key("nonce"@) && members["nonce"@] == ClaimValueView::Text(
                expected@,
            )
        }),
{
}

/// An outcome is final unless fresh keys could change it and have not been fetched: an accepted
/// token stays accepted, and a refused one is the caller's problem, or a kind of token that is not
/// supported.
pub proof fn outcome_is_final_but_for_stale_keys(
    provider: OidcProvider,
    pending: PendingToken,
    outcome: Result<IdTokenClaims, ClaimsVerificationError>,
    step: VerificationStep,
    identity: IdentityClaims,
)
    requires
        call_ensures(OidcProvider::verified, (&provider, pending, outcome), step),
        outcome is Ok ==> call_ensures(
            claims::identity_from_id_token_claims,
            (outcome->Ok_0,),
            identity,
        ),
    ensures
        match outcome {
            Ok(_) => step matches VerificationStep::Decided(Ok(found)) && found@ == identity@,
            Err(fault) => {
                let stale = fault matches ClaimsVerificationError::SignatureVerification(cause) && (
                cause is NoMatchingKey || cause is CryptoError || cause is AmbiguousKeyId);
                if stale && !pending.has_fresh_keys() {
                    step matches VerificationStep::Refresh(next) && next.text() == pending.text()
                        && next.nonce_check() == pending.nonce_check()
                } else {
                    step matches VerificationStep::Decided(Err(error)) && error@.status()
                        == if fault is Unsupported {
                        501u16
                    } else {
                        401u16
                    }
                }
            },
        },
{
}

/// After a refresh the same token is verified once more, under the same nonce check; a refresh that
/// failed is the answer.
pub proof fn refreshed_token_is_verified_once_more(
    provider: OidcProvider,
    pending: PendingToken,
    refresh: Result<(), AuthError>,
    step: VerificationStep,
)
    requires
        call_ensures(OidcProvider::refreshed, (&provider, pending, refresh), step),
    ensures
        match refresh {
            Ok(_) => step matches VerificationStep::Verify(next) && next.text() == pending.text()
                && next.nonce_check() == pending.nonce_check() && next.has_fresh_keys(),
            Err(error) => step matches VerificationStep::Decided(Err(found)) && found@ == error@,
        },
{
    assert(step@ == step_after_refresh(pending, refresh));
    match step {
        VerificationStep::Verify(_) => {},
        VerificationStep::Refresh(_) => {},
        VerificationStep::Decided(Ok(_)) => {},
        VerificationStep::Decided(Err(_)) => {},
    }
}

/// Keys are fetched again only once they are as old as the configured interval, and from then on;
/// a caller that had to wait does not fetch what another one has just fetched.
pub proof fn refreshes_keep_their_distance(
    config: OidcConfig,
    provider: OidcProvider,
    age: Duration,
    due: bool,
    later: Duration,
    later_due: bool,
    replaced: bool,
    still_due: bool,
)
    requires
        call_ensures(OidcProvider::new, (config,), provider),
        call_ensures(OidcProvider::refresh_due, (&provider, &age), due),
        call_ensures(OidcProvider::refresh_due, (&provider, &later), later_due),
        call_ensures(OidcProvider::refresh_still_due, (&provider, replaced, &age), still_due),
    ensures
        age@ < config@.min_refresh_interval ==> !due,
        age@ >= config@.min_refresh_interval ==> due,
        due && age@ <= later@ ==> later_due,
        still_due == (due && !replaced),
{
}

/// The two nonce rules are told apart by nothing but the presence of a nonce.
pub proof fn nonce_rules_differ_on_presence_alone(
    nonce: Option<&str>,
    required: Result<(), String>,
    skipped: Result<(), String>,
)
    requires
        call_ensures(require_nonce_present, (nonce,), required),
        call_ensures(skip_nonce_check, (nonce,), skipped),
    ensures
        (required is Ok) == (nonce is Some),
        skipped is Ok,
{
}

/// What a verifier answers is what a token comes to: its failure as it is, and otherwise the claims
/// it handed out, where the nonce check is met and they name a subject.
pub proof fn answer_is_what_the_token_comes_to(
    nonce: NonceCheck,
    heard: Result<Vec<u8>, ClaimsVerificationError>,
    outcome: Result<IdTokenClaims, ClaimsVerificationError>,
    members: NameMap<ClaimValue>,
    report: Option<String>,
    found: Option<IdTokenClaims>,
)
    requires
        call_ensures(concluded, (&nonce, heard), outcome),
        call_ensures(NonceCheck::check, (&nonce, &members), report),
        call_ensures(IdTokenClaims::from_members, (members,), found),
    ensures
        heard is Err ==> outcome is Err && outcome->Err_0 == heard->Err_0,
        heard is Ok && json::json_members(heard->Ok_0@) is Err ==> outcome is Err,
        heard is Ok && json::reads_as(heard->Ok_0@, values::claim_values(members@)) ==> {
            &&& (outcome is Ok) == (report is None && found is Some)
            &&& outcome is Ok ==> outcome->Ok_0@ == found->Some_0@
            &&& report is Some ==> outcome is Err && outcome->Err_0 is InvalidNonce
        },
{
}

/// A MAC has the length that its algorithm gives, and no other signature has a length to keep to.
pub proof fn signature_is_measured_by_its_algorithm(
    token: &str,
    algorithm: Option<&str>,
    sized: bool,
    segments: Seq<Seq<char>>,
)
    requires
        call_ensures(has_sized_signature, (token, algorithm), sized),
        token@ == text::joined(segments, '.'),
        segments.len() > 0,
        forall|i: int| 0 <= i < segments.len() ==> !(#[trigger] segments[i]).contains('.'),
    ensures
        algorithm is None ==> sized,
        algorithm is Some ==> {
            let name = algorithm->Some_0@;
            let length = segments.last().len();
            if name == "HS256"@ {
                sized == (length == 43)
            } else if name == "HS384"@ {
                sized == (length == 64)
            } else if name == "HS512"@ {
                sized == (length == 86)
            } else {
                sized
            }
        },
{
    text::lemma_pieces_of_joined(segments, '.');
    reveal_strlit("HS256");
    reveal_strlit("HS384");
    reveal_strlit("HS512");
    assert("HS256"@[2] == '2' && "HS384"@[2] == '3' && "HS512"@[2] == '5');
}

/// A MAC that cannot be right is a bad signature, whatever a client without a secret makes of the
/// token, unless that one objects to something else.
pub proof fn wrong_mac_is_a_bad_signature(
    heard: Result<Vec<u8>, ClaimsVerificationError>,
    fault: ClaimsVerificationError,
)
    requires
        call_ensures(without_mac, (heard,), fault),
    ensures
        heard is Ok ==> (fault matches ClaimsVerificationError::SignatureVerification(cause)
            && cause is CryptoError),
        heard matches Err(found) ==> {
            &&& found is InvalidIssuer || found is InvalidAudience || found is Unsupported || found
                is Other ==> fault == found
            &&& found is Expired || found is InvalidNonce ==> (
            fault matches ClaimsVerificationError::SignatureVerification(cause) && cause
                is CryptoError)
        },
{
}

/// What the verifier objects to decides how a token goes on: trouble with the keys is worth one
/// refresh, and anything else, or the same once more, is a refusal.
pub proof fn objection_decides_how_a_token_goes_on(
    provider: OidcProvider,
    pending: PendingToken,
    metadata: &str,
    keys: &str,
    step: VerificationStep,
    objection: Objection,
)
    requires
        call_ensures(OidcProvider::verify, (&provider, pending, metadata, keys), step),
        provider.standing(pending.text(), metadata@, keys@) == Err::<
            Map<Seq<char>, ClaimValueView>,
            Objection,
        >(objection),
    ensures
        if (objection is NoKey || objection is AmbiguousKey || objection is BadSignature)
            && !pending.has_fresh_keys() {
            step matches VerificationStep::Refresh(next) && next.text() == pending.text()
                && next.nonce_check() == pending.nonce_check()
        } else {
            step matches VerificationStep::Decided(Err(error)) && error@.status() == if objection
                is Unsupported {
                501u16
            } else {
                401u16
            }
        },
{
}

/// A token with a MAC of another length than its algorithm gives is objected to for what a client
/// without a secret objects to, and for its MAC where that one gets as far as the MAC.
pub proof fn misfit_mac_is_objected_to_last(
    provider: OidcProvider,
    pending: PendingToken,
    metadata: &str,
    keys: &str,
    outcome: Result<IdTokenClaims, ClaimsVerificationError>,
)
    requires
        call_ensures(OidcProvider::examine, (&provider, &pending, metadata, keys), outcome),
        provider@.client_secret is Some,
        !is_sized(pending.text(), algorithm_of(pending.text())),
    ensures
        outcome is Err,
        match vouched_claims(pending.text(), metadata@, keys@, provider@.client_id, None) {
            Err(objection) => objection_in(outcome->Err_0) == if objection is NoSecret {
                Some(Objection::BadSignature)
            } else {
                Some(objection)
            },
            Ok(_) => objection_in(outcome->Err_0) == Some(Objection::BadSignature),
        },
{
}

} // verus!
