//! The single-use secrets that bind one authorization request to its callback.
use vstd::prelude::*;

use crate::claims::{self, ClaimValue, ClaimValueView};
use crate::encoding;
use crate::error::{AuthError, AuthErrorView};
use crate::json;
use crate::names::{self, NameMap};
use crate::oidc::config;
use crate::secret::SecretString;
use crate::text;

verus! {

/// The single-use secrets binding one authorization request to its callback, carried in a
/// short-lived `HttpOnly` cookie.
///
/// The destination lives here and not in the `state` query parameter, which is an opaque random
/// token. So the post-login redirect target never leaves the browser's cookie, and cannot be
/// influenced by whoever crafts the callback URL.
#[derive(Debug)]
pub struct ProtectionData {
    /// Matched against the `state` returned by the provider (CSRF defence).
    pub csrf: SecretString,
    /// Matched against the ID token's `nonce` claim (token-replay defence).
    pub nonce: SecretString,
    /// The PKCE code verifier, presented at the token endpoint. `None` when PKCE is disabled.
    pub pkce_verifier: Option<SecretString>,
    /// Where to send the user once login completes.
    pub destination: String,
}

/// What [`ProtectionData`] say.
pub ghost struct ProtectionView {
    pub csrf: Seq<char>,
    pub nonce: Seq<char>,
    pub pkce_verifier: Option<Seq<char>>,
    pub destination: Seq<char>,
}

impl View for ProtectionData {
    type V = ProtectionView;

    open spec fn view(&self) -> ProtectionView {
        ProtectionView {
            csrf: self.csrf@,
            nonce: self.nonce@,
            pkce_verifier: config::optional_secret(self.pkce_verifier),
            destination: self.destination@,
        }
    }
}

impl ProtectionView {
    /// The members of the cookie's JSON payload.
    pub open spec fn members(self) -> Map<Seq<char>, ClaimValueView> {
        Map::empty().insert("csrf"@, ClaimValueView::Text(self.csrf)).insert(
            "nonce"@,
            ClaimValueView::Text(self.nonce),
        ).insert(
            "pkce_verifier"@,
            match self.pkce_verifier {
                Some(verifier) => ClaimValueView::Text(verifier),
                None => ClaimValueView::Null,
            },
        ).insert("destination"@, ClaimValueView::Text(self.destination))
    }

    /// The members in the order they are written.
    pub open spec fn listed(self) -> Seq<(Seq<char>, Option<Seq<char>>)> {
        seq![
            ("csrf"@, Some(self.csrf)),
            ("nonce"@, Some(self.nonce)),
            ("pkce_verifier"@, self.pkce_verifier),
            ("destination"@, Some(self.destination)),
        ]
    }

    /// The cookie value: the JSON payload in URL-safe base64.
    pub open spec fn encoded(self) -> Seq<char> {
        encoding::base64url_encoded(json::json_object(self.listed()))
    }
}

/// The failure that reports an unreadable payload.
pub open spec fn bad_payload(report: Seq<char>) -> Result<ProtectionView, AuthErrorView> {
    Err(AuthErrorView::Unauthenticated { detail: "bad protection cookie payload: "@ + report })
}

/// The text of a field that has to be a string, or what is wrong with it.
pub open spec fn field(members: Map<Seq<char>, ClaimValueView>, name: Seq<char>) -> Result<
    Seq<char>,
    Seq<char>,
> {
    match json::text_member(members, name) {
        Some(text) => Ok(text),
        None => if members.contains_key(name) {
            Err("field `"@ + name + "` is not a string"@)
        } else {
            Err("missing field `"@ + name + "`"@)
        },
    }
}

/// The text of a field that may be null or absent, or what is wrong with it.
pub open spec fn optional_field(
    members: Map<Seq<char>, ClaimValueView>,
    name: Seq<char>,
) -> Result<Option<Seq<char>>, Seq<char>> {
    if !members.contains_key(name) || members[name] is Null {
        Ok(None)
    } else {
        match field(members, name) {
            Ok(text) => Ok(Some(text)),
            Err(report) => Err(report),
        }
    }
}

/// What the members of a payload say: three strings, and a verifier that is a string, null or
/// absent.
pub open spec fn protection_of(members: Map<Seq<char>, ClaimValueView>) -> Result<
    ProtectionView,
    AuthErrorView,
> {
    match (
        field(members, "csrf"@),
        field(members, "nonce"@),
        field(members, "destination"@),
        optional_field(members, "pkce_verifier"@),
    ) {
        (Ok(csrf), Ok(nonce), Ok(destination), Ok(pkce_verifier)) => Ok(
            ProtectionView { csrf, nonce, pkce_verifier, destination },
        ),
        (Err(report), _, _, _) => bad_payload(report),
        (Ok(_), Err(report), _, _) => bad_payload(report),
        (Ok(_), Ok(_), Err(report), _) => bad_payload(report),
        (Ok(_), Ok(_), Ok(_), Err(report)) => bad_payload(report),
    }
}

/// What a protection-cookie value says.
pub open spec fn protection_in(raw: Seq<char>) -> Result<ProtectionView, AuthErrorView> {
    match encoding::base64url_decoded(raw) {
        Err(report) => Err(
            AuthErrorView::Unauthenticated { detail: "bad protection cookie: "@ + report },
        ),
        Ok(bytes) => match json::json_members(bytes) {
            Err(report) => bad_payload(report),
            Ok(None) => bad_payload("expected an object"@),
            Ok(Some(members)) => protection_of(members),
        },
    }
}

/// The data or the failure in a result.
pub open spec fn protection_result(result: Result<ProtectionData, AuthError>) -> Result<
    ProtectionView,
    AuthErrorView,
> {
    match result {
        Ok(data) => Ok(data@),
        Err(error) => Err(error@),
    }
}

/// The names of the payload's members are four different ones, and none is reserved.
proof fn lemma_names()
    ensures
        !json::is_reserved("csrf"@),
        !json::is_reserved("nonce"@),
        !json::is_reserved("pkce_verifier"@),
        !json::is_reserved("destination"@),
        "csrf"@ != "nonce"@,
        "csrf"@ != "pkce_verifier"@,
        "csrf"@ != "destination"@,
        "nonce"@ != "pkce_verifier"@,
        "nonce"@ != "destination"@,
        "pkce_verifier"@ != "destination"@,
{
    reveal_strlit("csrf");
    reveal_strlit("nonce");
    reveal_strlit("pkce_verifier");
    reveal_strlit("destination");
    assert("csrf"@.len() == 4);
    assert("nonce"@.len() == 5);
    assert("pkce_verifier"@.len() == 13);
    assert("destination"@.len() == 11);
}

/// A payload with the members of some protection data says those data.
pub proof fn payload_round_trips(data: ProtectionView)
    ensures
        protection_of(data.members()) == Ok::<ProtectionView, AuthErrorView>(data),
{
    lemma_names();
}

fn bad(report: &str) -> (result: Result<ProtectionData, AuthError>)
    ensures
        protection_result(result) == bad_payload(report@),
{
    Err(AuthError::unauthenticated(text::join("bad protection cookie payload: ", report).as_str()))
}

/// Reads a field that has to be a string.
fn read_field(members: &NameMap<ClaimValue>, name: &str) -> (text: Result<String, String>)
    ensures
        match text {
            Ok(text) => field(claims::claim_values(members@), name@) matches Ok(found) && found
                == text@,
            Err(report) => field(claims::claim_values(members@), name@) matches Err(found) && found
                == report@,
        },
{
    match members.get(name) {
        Some(ClaimValue::Text(text)) => Ok(text.clone()),
        Some(_) => Err(
            text::join(text::join("field `", name).as_str(), "` is not a string"),
        ),
        None => Err(text::join(text::join("missing field `", name).as_str(), "`")),
    }
}

impl ProtectionData {
    /// The opaque value carried in the protection cookie. Decoding it gives the data back, and it
    /// is spelled in characters that a cookie value may hold.
    pub fn encode(&self) -> (raw: String)
        ensures
            raw@ == self@.encoded(),
            protection_in(raw@) == Ok::<ProtectionView, AuthErrorView>(self@),
            forall|i: int|
                0 <= i < raw@.len() ==> encoding::is_base64url_char(#[trigger] raw@[i]),
    {
        let verifier = match &self.pkce_verifier {
            Some(verifier) => Some(String::from_str(verifier.expose_secret())),
            None => None,
        };
        let mut list: Vec<(String, Option<String>)> = Vec::new();
        list.push((String::from_str("csrf"), Some(String::from_str(self.csrf.expose_secret()))));
        list.push((String::from_str("nonce"), Some(String::from_str(self.nonce.expose_secret()))));
        list.push((String::from_str("pkce_verifier"), verifier));
        list.push((String::from_str("destination"), Some(self.destination.clone())));
        proof {
            lemma_names();
            lemma_listed(list@, self@);
            payload_round_trips(self@);
            assert(json::listed_texts(list@) =~= self@.listed());
        }
        let bytes = json::write_object(&list);
        encoding::base64url_encode(bytes.as_slice())
    }

    /// Parses a protection-cookie value.
    pub fn decode(raw: &str) -> (result: Result<ProtectionData, AuthError>)
        ensures
            protection_result(result) == protection_in(raw@),
    {
        let bytes = match encoding::base64url_decode(raw) {
            Ok(bytes) => bytes,
            Err(report) => {
                return Err(
                    AuthError::unauthenticated(
                        text::join("bad protection cookie: ", report.as_str()).as_str(),
                    ),
                );
            },
        };
        match json::read_object(bytes.as_slice()) {
            Err(report) => bad(report.as_str()),
            Ok(None) => bad("expected an object"),
            Ok(Some(members)) => ProtectionData::from_members(&members),
        }
    }

    /// Reads the members of a payload.
    pub fn from_members(members: &NameMap<ClaimValue>) -> (result: Result<
        ProtectionData,
        AuthError,
    >)
        ensures
            protection_result(result) == protection_of(claims::claim_values(members@)),
    {
        let csrf = match read_field(members, "csrf") {
            Ok(csrf) => SecretString::from(csrf),
            Err(report) => {
                return bad(report.as_str());
            },
        };
        let nonce = match read_field(members, "nonce") {
            Ok(nonce) => SecretString::from(nonce),
            Err(report) => {
                return bad(report.as_str());
            },
        };
        let destination = match read_field(members, "destination") {
            Ok(destination) => destination,
            Err(report) => {
                return bad(report.as_str());
            },
        };
        let pkce_verifier = match members.get("pkce_verifier") {
            None => None,
            Some(ClaimValue::Null) => None,
            Some(_) => match read_field(members, "pkce_verifier") {
                Ok(verifier) => Some(SecretString::from(verifier)),
                Err(report) => {
                    return bad(report.as_str());
                },
            },
        };
        Ok(ProtectionData { csrf, nonce, pkce_verifier, destination })
    }
}

/// The list that is written has the members of the data.
proof fn lemma_listed(list: Seq<(String, Option<String>)>, data: ProtectionView)
    requires
        list.len() == 4,
        list[0].0@ == "csrf"@,
        json::text_or_null(list[0].1) == ClaimValueView::Text(data.csrf),
        list[1].0@ == "nonce"@,
        json::text_or_null(list[1].1) == ClaimValueView::Text(data.nonce),
        list[2].0@ == "pkce_verifier"@,
        json::text_or_null(list[2].1) == data.members()["pkce_verifier"@],
        list[3].0@ == "destination"@,
        json::text_or_null(list[3].1) == ClaimValueView::Text(data.destination),
    ensures
        json::listed_members(list) == data.members(),
{
    lemma_names();
    reveal_with_fuel(names::position, 5);
    assert(json::listed_members(list) =~= data.members());
}

/// The cookie that carries the data of a login gives all of them back, and can be a cookie's value.
pub proof fn protection_cookie_round_trips(
    data: ProtectionData,
    raw: String,
    read: Result<ProtectionData, AuthError>,
    value: &str,
)
    requires
        call_ensures(ProtectionData::encode, (&data,), raw),
        value@ == raw@,
        call_ensures(ProtectionData::decode, (value,), read),
    ensures
        read is Ok,
        read->Ok_0.csrf@ == data.csrf@,
        read->Ok_0.nonce@ == data.nonce@,
        config::optional_secret(read->Ok_0.pkce_verifier) == config::optional_secret(
            data.pkce_verifier,
        ),
        read->Ok_0.destination@ == data.destination@,
        forall|i: int| 0 <= i < raw@.len() ==> encoding::is_base64url_char(#[trigger] raw@[i]),
        !raw@.contains(';') && !raw@.contains('='),
{
    assert(read->Ok_0@ == data@);
    if raw@.contains(';') {
        let i = choose|i: int| 0 <= i < raw@.len() && raw@[i] == ';';
        assert(encoding::is_base64url_char(raw@[i]));
    }
    if raw@.contains('=') {
        let i = choose|i: int| 0 <= i < raw@.len() && raw@[i] == '=';
        assert(encoding::is_base64url_char(raw@[i]));
    }
}

/// Each secret of a payload is the string of the member of its own name: without one of the three
/// that are needed, or with a verifier that is neither a string nor null, there are no data.
pub proof fn payload_is_read_by_name(
    members: NameMap<ClaimValue>,
    read: Result<ProtectionData, AuthError>,
)
    requires
        call_ensures(ProtectionData::from_members, (&members,), read),
    ensures
        ({
            let said = claims::claim_values(members@);
            let verifier = said.contains_key("pkce_verifier"@) && !(said["pkce_verifier"@] is Null);
            &&& (read is Ok) == ({
                &&& said.contains_key("csrf"@) && said["csrf"@] is Text
                &&& said.contains_key("nonce"@) && said["nonce"@] is Text
                &&& said.contains_key("destination"@) && said["destination"@] is Text
                &&& verifier ==> said["pkce_verifier"@] is Text
            })
            &&& read is Ok ==> {
                &&& said["csrf"@] == ClaimValueView::Text(read->Ok_0.csrf@)
                &&& said["nonce"@] == ClaimValueView::Text(read->Ok_0.nonce@)
                &&& said["destination"@] == ClaimValueView::Text(read->Ok_0.destination@)
                &&& (read->Ok_0.pkce_verifier is Some) == verifier
                &&& verifier ==> said["pkce_verifier"@] == ClaimValueView::Text(
                    read->Ok_0.pkce_verifier->Some_0@,
                )
            }
            &&& read is Err ==> read->Err_0@.status() == 401
        }),
{
    if read is Ok {
        assert(read->Ok_0@.pkce_verifier is Some == read->Ok_0.pkce_verifier is Some);
    }
}

/// A cookie that is no base64, or whose payload is no JSON object, is refused as unauthenticated.
pub proof fn unreadable_cookie_is_refused(raw: &str, read: Result<ProtectionData, AuthError>)
    requires
        call_ensures(ProtectionData::decode, (raw,), read),
    ensures
        read is Err ==> read->Err_0@.status() == 401,
        encoding::base64url_decoded(raw@) is Err ==> read is Err,
        encoding::base64url_decoded(raw@) matches Ok(bytes) && json::json_members(bytes) is Err
            ==> read is Err,
{
}

/// A cookie is read as the members of the JSON object in its base64.
pub proof fn cookie_is_read_as_its_payload(
    raw: &str,
    read: Result<ProtectionData, AuthError>,
    members: NameMap<ClaimValue>,
    said: Result<ProtectionData, AuthError>,
    bytes: Seq<u8>,
)
    requires
        call_ensures(ProtectionData::decode, (raw,), read),
        call_ensures(ProtectionData::from_members, (&members,), said),
        encoding::decodes_to(raw@, bytes),
        json::reads_as(bytes, claims::claim_values(members@)),
    ensures
        (read is Ok) == (said is Ok),
        read is Ok ==> read->Ok_0@ == said->Ok_0@,
        read is Err ==> read->Err_0@ == said->Err_0@,
{
}

} // verus!
