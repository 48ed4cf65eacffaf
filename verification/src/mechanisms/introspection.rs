//! RFC 7662 OAuth 2.0 Token Introspection.
//!
//! An opaque API key is forwarded to a configured endpoint, which answers whether it is active and
//! returns its claims. This module says what to send and what the reply means; whoever holds the
//! HTTP client sends it.
use vstd::prelude::*;

use crate::claims::{self, ClaimSource, ClaimValue, ClaimValueView, ClaimsView, IdentityClaims};
use crate::error::{AuthError, AuthErrorView};
use crate::json;
use crate::mechanisms::api_token::TokenValidator;
use crate::names::NameMap;
use crate::secret::SecretString;
use crate::text;
use crate::time::{Duration, SystemTime};

verus! {

/// Validates API keys against an RFC 7662 introspection endpoint.
#[derive(Debug)]
pub struct IntrospectionValidator {
    endpoint: String,
    /// The verbatim `Authorization` header value presented to the endpoint, so any scheme the
    /// endpoint expects works.
    auth_header: SecretString,
}

/// What to send to an introspection endpoint: a `POST` of a form. Redirects are not to be followed,
/// since that would forward the API key to a host that was never configured.
pub struct IntrospectionRequest {
    pub endpoint: String,
    pub authorization: SecretString,
    pub form: Vec<(&'static str, SecretString)>,
}

/// What came of the request.
pub enum IntrospectionReply {
    /// The request failed, for this reason.
    Failed(String),
    /// The endpoint answered with this status, and this body unless reading it failed.
    Answered { status: u16, body: Result<Vec<u8>, String> },
}

/// How an HTTP status is written in logs.
pub uninterp spec fn status_line(code: u16) -> Seq<char>;

/// `Display` of `reqwest::StatusCode`: the code and its canonical reason. Which reason a code has
/// is left to [`status_line`]. A code outside the range of `StatusCode` is left out.
#[verifier::external_body]
fn describe_status(code: u16) -> (line: String)
    requires
        100 <= code <= 999,
    ensures
        line@ == status_line(code),
{
    reqwest::StatusCode::from_u16(code).map(|status| status.to_string()).unwrap_or_default()
}

/// A failure that is the endpoint's.
pub open spec fn endpoint_fault(detail: Seq<char>) -> Result<ClaimsView, AuthErrorView> {
    Err(AuthErrorView::Upstream { detail })
}

/// The claims in the members of an active response.
pub open spec fn active_claims(members: Map<Seq<char>, ClaimValueView>) -> ClaimsView {
    ClaimsView {
        subject: json::text_member(members, "sub"@),
        preferred_username: json::text_member(members, "username"@),
        email: json::text_member(members, "email"@),
        client_id: json::text_member(members, "client_id"@),
        scope: json::text_member(members, "scope"@),
        expires_at: match json::number_member(members, "exp"@) {
            Some(secs) => Some((secs * 1_000_000_000) as nat),
            None => None,
        },
        extra: members,
        ..ClaimsView::blank(ClaimSource::Introspection)
    }
}

/// What a response says: `active` is the only member it must have. An inactive token is the
/// client's problem; a malformed response is the endpoint's, and so is an active token with
/// nothing that identifies it.
pub open spec fn introspected(document: Option<Map<Seq<char>, ClaimValueView>>) -> Result<
    ClaimsView,
    AuthErrorView,
> {
    match document {
        None => endpoint_fault("introspection response was not a JSON object"@),
        Some(members) => match json::flag_member(members, "active"@) {
            Some(true) => if active_claims(members).best_effort_username() is Some {
                Ok(active_claims(members))
            } else {
                endpoint_fault(
                    "introspection reported an active token carrying no identity claim"@,
                )
            },
            Some(false) => Err(
                AuthErrorView::InvalidCredential { detail: "token is not active"@ },
            ),
            None => endpoint_fault(
                "introspection response omitted the required `active` member"@,
            ),
        },
    }
}

/// What an answer of the endpoint says: only one with a success status and a JSON body is read.
pub open spec fn answer_says(status: u16, body: Result<Seq<u8>, Seq<char>>) -> Result<
    ClaimsView,
    AuthErrorView,
> {
    if !(200 <= status < 300) {
        endpoint_fault("introspection endpoint returned status "@ + status_line(status))
    } else {
        match body {
            Err(report) => endpoint_fault(
                "could not parse introspection response: "@ + report,
            ),
            Ok(bytes) => match json::json_members(bytes) {
                Err(_) => endpoint_fault(
                    "could not parse introspection response: error decoding response body"@,
                ),
                Ok(document) => introspected(document),
            },
        }
    }
}

/// What a reply says.
pub open spec fn reply_says(reply: IntrospectionReply) -> Result<ClaimsView, AuthErrorView> {
    match reply {
        IntrospectionReply::Failed(report) => endpoint_fault(
            "introspection request failed: "@ + report@,
        ),
        IntrospectionReply::Answered { status, body } => answer_says(
            status,
            match body {
                Ok(bytes) => Ok(bytes@),
                Err(report) => Err(report@),
            },
        ),
    }
}

/// The claims or the failure in a result.
pub open spec fn claims_result(result: Result<IdentityClaims, AuthError>) -> Result<
    ClaimsView,
    AuthErrorView,
> {
    match result {
        Ok(claims) => Ok(claims@),
        Err(error) => Err(error@),
    }
}

impl IntrospectionValidator {
    /// Where keys are validated.
    pub closed spec fn asks(self) -> Seq<char> {
        self.endpoint@
    }

    /// The `Authorization` header value presented to the endpoint.
    pub closed spec fn presents(self) -> Seq<char> {
        self.auth_header@
    }

    pub fn new(endpoint: &str, auth_header: &str) -> (validator: IntrospectionValidator)
        ensures
            validator.asks() == endpoint@,
            validator.presents() == auth_header@,
    {
        IntrospectionValidator {
            endpoint: String::from_str(endpoint),
            auth_header: SecretString::from(String::from_str(auth_header)),
        }
    }

    pub fn endpoint(&self) -> (endpoint: &str)
        ensures
            endpoint@ == self.asks(),
    {
        self.endpoint.as_str()
    }

    /// The request that asks about `api_key`.
    pub fn request(&self, api_key: &str) -> (request: IntrospectionRequest)
        ensures
            request.endpoint@ == self.asks(),
            request.authorization@ == self.presents(),
            request.form.len() == 1,
            request.form@[0].0@ == "token"@,
            request.form@[0].1@ == api_key@,
    {
        let mut form: Vec<(&'static str, SecretString)> = Vec::new();
        form.push(("token", SecretString::from(String::from_str(api_key))));
        IntrospectionRequest {
            endpoint: self.endpoint.clone(),
            authorization: self.auth_header.clone(),
            form,
        }
    }

    /// Reads the reply.
    pub fn interpret(&self, reply: IntrospectionReply) -> (result: Result<IdentityClaims, AuthError>)
        requires
            reply matches IntrospectionReply::Answered { status, .. } ==> 100 <= status <= 999,
        ensures
            claims_result(result) == reply_says(reply),
    {
        match reply {
            IntrospectionReply::Failed(report) => Err(
                AuthError::upstream(
                    text::join("introspection request failed: ", report.as_str()).as_str(),
                ),
            ),
            IntrospectionReply::Answered { status, body } => {
                if status < 200 || 300 <= status {
                    let line = describe_status(status);
                    return Err(
                        AuthError::upstream(
                            text::join(
                                "introspection endpoint returned status ",
                                line.as_str(),
                            ).as_str(),
                        ),
                    );
                }
                match body {
                    Err(report) => Err(
                        AuthError::upstream(
                            text::join(
                                "could not parse introspection response: ",
                                report.as_str(),
                            ).as_str(),
                        ),
                    ),
                    Ok(bytes) => match json::read_object(bytes.as_slice()) {
                        Err(_) => Err(
                            AuthError::upstream(
                                "could not parse introspection response: error decoding response body",
                            ),
                        ),
                        Ok(document) => claims_from_response(document),
                    },
                }
            },
        }
    }
}

impl TokenValidator for IntrospectionValidator {
    fn name(&self) -> (name: &'static str)
        ensures
            name@ == "introspection"@,
    {
        "introspection"
    }
}

/// Maps an RFC 7662 response onto [`IdentityClaims`]; `None` stands for a document that is no
/// object.
pub fn claims_from_response(document: Option<NameMap<ClaimValue>>) -> (result: Result<
    IdentityClaims,
    AuthError,
>)
    ensures
        claims_result(result) == introspected(json::optional_members(document)),
{
    let members = match document {
        Some(members) => members,
        None => {
            return Err(AuthError::upstream("introspection response was not a JSON object"));
        },
    };
    match json::flag_of(&members, "active") {
        Some(true) => {},
        Some(false) => {
            return Err(AuthError::invalid_credential("token is not active"));
        },
        None => {
            return Err(
                AuthError::upstream(
                    "introspection response omitted the required `active` member",
                ),
            );
        },
    }
    let claims = IdentityClaims::new(ClaimSource::Introspection);
    let expires_at = match json::number_of(&members, "exp") {
        Some(secs) => Some(SystemTime::after_epoch(Duration::from_secs(secs))),
        None => None,
    };
    let claims = IdentityClaims {
        subject: json::text_of(&members, "sub"),
        preferred_username: json::text_of(&members, "username"),
        email: json::text_of(&members, "email"),
        client_id: json::text_of(&members, "client_id"),
        scope: json::text_of(&members, "scope"),
        expires_at,
        extra: members,
        ..claims
    };
    if claims.best_effort_username().is_none() {
        return Err(
            AuthError::upstream(
                "introspection reported an active token carrying no identity claim",
            ),
        );
    }
    Ok(claims)
}

/// "The token could not be checked" is told apart from "the token is bad": only a well-formed
/// answer that the token is not active is the client's problem, every other failure is the
/// service's.
pub proof fn endpoint_failures_are_service_faults(reply: IntrospectionReply)
    ensures
        reply_says(reply) matches Err(error) ==> {
            ||| error.is_service_fault() && error.status() == 503
            ||| error.status() == 401 && exists|status: u16, bytes: Seq<u8>, members: Map<
                Seq<char>,
                ClaimValueView,
            >| #[trigger]
                answer_says(status, Ok(bytes)) == reply_says(reply) && json::json_members(bytes)
                    == Ok::<Option<Map<Seq<char>, ClaimValueView>>, Seq<char>>(Some(members)) && #[trigger] json::flag_member(members, "active"@)
                    == Some(false)
        },
{
    if let IntrospectionReply::Answered { status, body: Ok(bytes) } = reply {
        if let Ok(Some(members)) = json::json_members(bytes@) {
            assert(answer_says(status, Ok(bytes@)) == reply_says(reply));
            assert(json::flag_member(members, "active"@) == Some(false) || json::flag_member(
                members,
                "active"@,
            ) != Some(false));
        }
    }
}

/// Claims are produced only for a token that the endpoint reports as active and that something
/// identifies, and every member of the response is kept.
pub proof fn claims_need_an_active_identity(members: Map<Seq<char>, ClaimValueView>)
    ensures
        introspected(Some(members)) matches Ok(claims) ==> {
            &&& json::flag_member(members, "active"@) == Some(true)
            &&& claims.best_effort_username() is Some
            &&& claims.extra == members
            &&& claims.source == ClaimSource::Introspection
        },
{
}

/// The endpoint is asked about the very key that was presented, once, as the configured client.
pub proof fn endpoint_is_asked_about_the_key(
    endpoint: &str,
    authorization: &str,
    validator: IntrospectionValidator,
    key: &str,
    request: IntrospectionRequest,
)
    requires
        call_ensures(IntrospectionValidator::new, (endpoint, authorization), validator),
        call_ensures(IntrospectionValidator::request, (&validator, key), request),
    ensures
        request.endpoint@ == endpoint@,
        request.authorization@ == authorization@,
        request.form.len() == 1,
        request.form@[0].0@ == "token"@,
        request.form@[0].1@ == key@,
{
}

/// An active token is whoever the response says: each claim is the string of the member that
/// carries it and of no other, the expiry is the reported one, and every member stays reachable.
pub proof fn active_token_is_whoever_the_response_says(
    document: Option<NameMap<ClaimValue>>,
    result: Result<IdentityClaims, AuthError>,
)
    requires
        call_ensures(claims_from_response, (document,), result),
        result is Ok,
    ensures
        document is Some,
        ({
            let members = claims::claim_values(document->Some_0@);
            let said = result->Ok_0@;
            &&& members.contains_key("active"@) && members["active"@] == ClaimValueView::Bool(true)
            &&& json::is_text_of(said.subject, members, "sub"@)
            &&& json::is_text_of(said.preferred_username, members, "username"@)
            &&& json::is_text_of(said.email, members, "email"@)
            &&& json::is_text_of(said.client_id, members, "client_id"@)
            &&& json::is_text_of(said.scope, members, "scope"@)
            &&& said.name is None
            &&& said.source == ClaimSource::Introspection
            &&& said.extra == members
            &&& match said.expires_at {
                Some(moment) => members.contains_key("exp"@) && exists|secs: u64| #[trigger]
                    counts_seconds(members["exp"@], secs) && moment == secs * 1_000_000_000,
                None => !members.contains_key("exp"@) || forall|secs: u64| !#[trigger]
                    counts_seconds(members["exp"@], secs),
            }
            &&& said.subject is Some || said.preferred_username is Some || said.email is Some
                || said.client_id is Some
        }),
{
    let members = claims::claim_values(document->Some_0@);
    if members.contains_key("exp"@) {
        if let ClaimValueView::Number { unsigned: Some(secs), .. } = members["exp"@] {
            assert(counts_seconds(members["exp"@], secs));
        }
    }
}

/// Whether a value is this whole number.
pub open spec fn counts_seconds(value: ClaimValueView, secs: u64) -> bool {
    value matches ClaimValueView::Number { unsigned, .. } && unsigned == Some(secs)
}

/// An inactive token is refused as the caller's, whatever else the response says. A response that
/// does not say whether the token is active, or says nothing of who it is, is the endpoint's fault.
pub proof fn inactive_token_is_refused(
    document: Option<NameMap<ClaimValue>>,
    result: Result<IdentityClaims, AuthError>,
)
    requires
        call_ensures(claims_from_response, (document,), result),
    ensures
        document is None ==> result is Err && result->Err_0@.status() == 503,
        document is Some ==> {
            let members = claims::claim_values(document->Some_0@);
            let identified = {
                ||| members.contains_key("sub"@) && members["sub"@] is Text
                ||| members.contains_key("username"@) && members["username"@] is Text
                ||| members.contains_key("email"@) && members["email"@] is Text
                ||| members.contains_key("client_id"@) && members["client_id"@] is Text
            };
            if !members.contains_key("active"@) || !(members["active"@] is Bool) {
                result is Err && result->Err_0@.status() == 503
            } else if members["active"@] == ClaimValueView::Bool(false) {
                result is Err && result->Err_0@.status() == 401
            } else {
                if identified {
                    result is Ok
                } else {
                    result is Err && result->Err_0@.status() == 503
                }
            }
        },
{
}

/// Only an answer with a success status and a JSON body is read, and then as what the body says;
/// everything else is the endpoint's fault, and no key is ever accepted on account of it.
pub proof fn only_success_is_read(
    validator: IntrospectionValidator,
    reply: IntrospectionReply,
    result: Result<IdentityClaims, AuthError>,
    document: Option<NameMap<ClaimValue>>,
    read: Result<IdentityClaims, AuthError>,
)
    requires
        call_ensures(IntrospectionValidator::interpret, (&validator, reply), result),
        call_ensures(claims_from_response, (document,), read),
    ensures
        match reply {
            IntrospectionReply::Failed(_) => result is Err && result->Err_0@.status() == 503,
            IntrospectionReply::Answered { status, body } => {
                if status < 200 || status >= 300 || body is Err || json::json_members(
                    body->Ok_0@,
                ) is Err {
                    result is Err && result->Err_0@.status() == 503
                } else {
                    json::json_members(body->Ok_0@)->Ok_0 == json::optional_members(document)
                        ==> claims_result(result) == claims_result(read)
                }
            },
        },
{
}

/// The validator is known as `introspection`.
pub proof fn validator_is_known_by_its_name(it: IntrospectionValidator, name: &'static str)
    requires
        call_ensures(<IntrospectionValidator as TokenValidator>::name, (&it,), name),
    ensures
        name@ == "introspection"@,
{
}

} // verus!
