//! The credential presented on a request, normalised away from any one web framework's header
//! types.
use vstd::prelude::*;

use crate::encoding;
use crate::request::{AuthRequest, RequestView};
use crate::secret::SecretString;
use crate::text::{self, Separator};

verus! {

/// A credential extracted from an incoming request.
///
/// Deliberately dumb: it records what was presented, not what it means. Whether a `Bearer` token
/// with a given prefix is an API key is a decision of the individual authenticators, which can
/// inspect the full request to make it.
#[derive(Debug)]
pub enum Credential {
    /// `Authorization: Bearer <token>`.
    Bearer(SecretString),
    /// `Authorization: Basic <base64(id:secret)>`, decoded and split.
    Basic { id: String, secret: SecretString },
    /// An `Authorization` scheme without a structure of its own here, such as
    /// `Authorization: Internal <token>`. The scheme is kept, in lower case, so an
    /// application-supplied authenticator can claim it.
    Other { scheme: String, value: SecretString },
    /// A recognised scheme whose payload could not be parsed: a `Basic` value that is not base64,
    /// not UTF-8, or carries no `:` separator.
    ///
    /// This is a state and no error, because services reasonably disagree about it: an
    /// authenticator may decline such a request, so that a junk `Authorization` header next to a
    /// valid session cookie still signs the cookie's user in, or reject it.
    Malformed { scheme: String, detail: &'static str },
    /// No `Authorization` header was present. Session cookies live on [`AuthRequest`], so a
    /// cookie-backed authenticator handles this case.
    Absent,
}

/// What a [`Credential`] says.
pub ghost enum CredentialView {
    Bearer(Seq<char>),
    Basic { id: Seq<char>, secret: Seq<char> },
    Other { scheme: Seq<char>, value: Seq<char> },
    Malformed { scheme: Seq<char>, detail: Seq<char> },
    Absent,
}

impl View for Credential {
    type V = CredentialView;

    open spec fn view(&self) -> CredentialView {
        match *self {
            Credential::Bearer(token) => CredentialView::Bearer(token@),
            Credential::Basic { id, secret } => CredentialView::Basic { id: id@, secret: secret@ },
            Credential::Other { scheme, value } => CredentialView::Other {
                scheme: scheme@,
                value: value@,
            },
            Credential::Malformed { scheme, detail } => CredentialView::Malformed {
                scheme: scheme@,
                detail: detail@,
            },
            Credential::Absent => CredentialView::Absent,
        }
    }
}

/// A `Basic` credential that could not be parsed.
pub open spec fn malformed_basic(detail: Seq<char>) -> CredentialView {
    CredentialView::Malformed { scheme: "basic"@, detail }
}

/// The credential in the bytes of a `Basic` payload, `user-id ":" password`. The password may
/// itself contain `:`, so the first one separates.
pub open spec fn basic_credential(decoded: Option<Seq<u8>>) -> CredentialView {
    match decoded {
        None => malformed_basic("not valid base64"@),
        Some(bytes) => match encoding::utf8_text(bytes) {
            None => malformed_basic("not valid UTF-8"@),
            Some(pair) => match text::cut(pair, Separator::Char(':')) {
                None => malformed_basic("missing ':' separator"@),
                Some((id, secret)) => CredentialView::Basic { id, secret },
            },
        },
    }
}

/// The credential in an `Authorization` header. The scheme ends at the first blank and is compared
/// without regard to case; a lone token without a scheme is no credential.
pub open spec fn header_credential(header: Seq<char>) -> CredentialView {
    match text::cut(text::trimmed(header), Separator::Char(' ')) {
        None => CredentialView::Absent,
        Some((scheme, rest)) => {
            let parameter = text::trimmed(rest);
            if text::lowercase(scheme) == "bearer"@ {
                CredentialView::Bearer(parameter)
            } else if text::lowercase(scheme) == "basic"@ {
                basic_credential(encoding::base64_decoded(parameter))
            } else {
                CredentialView::Other { scheme: text::lowercase(scheme), value: parameter }
            }
        },
    }
}

/// The credential that a request presents.
pub open spec fn request_credential(request: RequestView) -> CredentialView {
    match request.header("authorization"@) {
        Some(header) => header_credential(header),
        None => CredentialView::Absent,
    }
}

impl CredentialView {
    /// The scheme name, when an `Authorization` header was presented.
    pub open spec fn scheme(self) -> Option<Seq<char>> {
        match self {
            CredentialView::Bearer(_) => Some("bearer"@),
            CredentialView::Basic { .. } => Some("basic"@),
            CredentialView::Other { scheme, .. } => Some(scheme),
            CredentialView::Malformed { scheme, .. } => Some(scheme),
            CredentialView::Absent => None,
        }
    }

    /// The credential as it may be logged.
    pub open spec fn redacted(self) -> Seq<char> {
        match self {
            CredentialView::Bearer(_) => "Bearer(<redacted>)"@,
            CredentialView::Basic { id, .. } => "Basic { id: "@ + encoding::quoted(id)
                + ", secret: <redacted> }"@,
            CredentialView::Other { scheme, .. } => "Other { scheme: "@ + encoding::quoted(scheme)
                + ", value: <redacted> }"@,
            CredentialView::Malformed { scheme, detail } => "Malformed { scheme: "@
                + encoding::quoted(scheme) + ", detail: "@ + encoding::quoted(detail) + " }"@,
            CredentialView::Absent => "None"@,
        }
    }

    /// The same credential with another secret.
    pub open spec fn with_secret(self, other: Seq<char>) -> CredentialView {
        match self {
            CredentialView::Bearer(_) => CredentialView::Bearer(other),
            CredentialView::Basic { id, .. } => CredentialView::Basic { id, secret: other },
            CredentialView::Other { scheme, .. } => CredentialView::Other { scheme, value: other },
            _ => self,
        }
    }
}

impl Credential {
    /// Parses the `Authorization` header of `request`.
    pub fn from_request(request: &AuthRequest) -> (credential: Credential)
        ensures
            credential@ == request_credential(request@),
    {
        match request.header("authorization") {
            Some(header) => Credential::from_authorization_header(header),
            None => Credential::Absent,
        }
    }

    /// Parses a raw `Authorization` header value.
    ///
    /// The parameter is split off at the first blank only, so a payload that contains blanks
    /// survives.
    pub fn from_authorization_header(header: &str) -> (credential: Credential)
        ensures
            credential@ == header_credential(header@),
    {
        match text::split_once(text::trim(header), Separator::Char(' ')) {
            None => Credential::Absent,
            Some((scheme, rest)) => {
                let parameter = text::trim(rest);
                let scheme = text::to_ascii_lowercase(scheme);
                if text::equal(scheme.as_str(), "bearer") {
                    Credential::Bearer(SecretString::from(String::from_str(parameter)))
                } else if text::equal(scheme.as_str(), "basic") {
                    Credential::parse_basic(parameter)
                } else {
                    Credential::Other {
                        scheme,
                        value: SecretString::from(String::from_str(parameter)),
                    }
                }
            },
        }
    }

    /// Decodes an RFC 7617 `Basic` payload: `base64(user-id ":" password)`.
    fn parse_basic(parameter: &str) -> (credential: Credential)
        ensures
            credential@ == basic_credential(encoding::base64_decoded(parameter@)),
    {
        Credential::from_basic_payload(encoding::base64_decode(parameter))
    }

    /// Reads the decoded bytes of an RFC 7617 `Basic` payload; `None` stands for a payload that
    /// was no base64.
    pub fn from_basic_payload(decoded: Option<Vec<u8>>) -> (credential: Credential)
        ensures
            credential@ == basic_credential(encoding::optional_bytes(decoded)),
    {
        let bytes = match decoded {
            Some(bytes) => bytes,
            None => {
                return Credential::malformed_basic("not valid base64");
            },
        };
        let pair = match encoding::from_utf8(bytes) {
            Some(pair) => pair,
            None => {
                return Credential::malformed_basic("not valid UTF-8");
            },
        };
        match text::split_once(pair.as_str(), Separator::Char(':')) {
            None => Credential::malformed_basic("missing ':' separator"),
            Some((id, secret)) => Credential::Basic {
                id: String::from_str(id),
                secret: SecretString::from(String::from_str(secret)),
            },
        }
    }

    fn malformed_basic(detail: &'static str) -> (credential: Credential)
        ensures
            credential@ == malformed_basic(detail@),
    {
        Credential::Malformed { scheme: String::from_str("basic"), detail }
    }

    /// The `Authorization` scheme name in lower case, or `None` when no `Authorization` header was
    /// presented.
    pub fn scheme(&self) -> (scheme: Option<&str>)
        ensures
            text::optional_str(scheme) == self@.scheme(),
    {
        match self {
            Credential::Bearer(_) => Some("bearer"),
            Credential::Basic { .. } => Some("basic"),
            Credential::Other { scheme, .. } => Some(scheme.as_str()),
            Credential::Malformed { scheme, .. } => Some(scheme.as_str()),
            Credential::Absent => None,
        }
    }

    pub fn is_none(&self) -> (absent: bool)
        ensures
            absent == (self@ is Absent),
    {
        match self {
            Credential::Absent => true,
            _ => false,
        }
    }

    /// The credential for a log line: without its secret, but with the id of a `Basic` pair, which
    /// is not secret and is useful there.
    pub fn redacted(&self) -> (line: String)
        ensures
            line@ == self@.redacted(),
    {
        match self {
            Credential::Bearer(_) => String::from_str("Bearer(<redacted>)"),
            Credential::Basic { id, .. } => {
                let head = text::join("Basic { id: ", encoding::quote(id.as_str()).as_str());
                text::join(head.as_str(), ", secret: <redacted> }")
            },
            Credential::Other { scheme, .. } => {
                let head = text::join("Other { scheme: ", encoding::quote(scheme.as_str()).as_str());
                text::join(head.as_str(), ", value: <redacted> }")
            },
            Credential::Malformed { scheme, detail } => {
                let head = text::join(
                    "Malformed { scheme: ",
                    encoding::quote(scheme.as_str()).as_str(),
                );
                let head = text::join(head.as_str(), ", detail: ");
                let head = text::join(head.as_str(), encoding::quote(detail).as_str());
                text::join(head.as_str(), " }")
            },
            Credential::Absent => String::from_str("None"),
        }
    }
}

impl Clone for Credential {
    fn clone(&self) -> (copy: Credential)
        ensures
            copy@ == self@,
    {
        match self {
            Credential::Bearer(token) => Credential::Bearer(token.clone()),
            Credential::Basic { id, secret } => Credential::Basic {
                id: id.clone(),
                secret: secret.clone(),
            },
            Credential::Other { scheme, value } => Credential::Other {
                scheme: scheme.clone(),
                value: value.clone(),
            },
            Credential::Malformed { scheme, detail } => Credential::Malformed {
                scheme: scheme.clone(),
                detail: *detail,
            },
            Credential::Absent => Credential::Absent,
        }
    }
}

/// What is logged of a credential does not depend on its secret.
pub proof fn redaction_hides_the_secret(credential: CredentialView, other: Seq<char>)
    ensures
        credential.with_secret(other).redacted() == credential.redacted(),
{
}

/// The scheme of an `Authorization` header is matched without regard to case.
pub proof fn scheme_matching_ignores_case(
    one: Seq<char>,
    other: Seq<char>,
    scheme: Seq<char>,
    alias: Seq<char>,
    rest: Seq<char>,
)
    requires
        text::cut(text::trimmed(one), Separator::Char(' ')) == Some((scheme, rest)),
        text::cut(text::trimmed(other), Separator::Char(' ')) == Some((alias, rest)),
        text::lowercase(scheme) == text::lowercase(alias),
    ensures
        header_credential(one) == header_credential(other),
{
}

/// What a header consists of: a scheme, the first blank, and a parameter, with white space around
/// the two.
pub open spec fn consists_of(
    header: Seq<char>,
    lead: Seq<char>,
    scheme: Seq<char>,
    gap: Seq<char>,
    parameter: Seq<char>,
    trail: Seq<char>,
) -> bool {
    &&& header == lead + (scheme.push(' ') + (gap + parameter)) + trail
    &&& text::is_blank(lead) && text::is_blank(gap) && text::is_blank(trail)
    &&& scheme.len() > 0 && parameter.len() > 0
    &&& !text::is_white_space(scheme[0]) && !scheme.contains(' ')
    &&& text::is_bare(parameter)
}

proof fn lemma_header_parts(
    header: Seq<char>,
    lead: Seq<char>,
    scheme: Seq<char>,
    gap: Seq<char>,
    parameter: Seq<char>,
    trail: Seq<char>,
)
    requires
        consists_of(header, lead, scheme, gap, parameter, trail),
    ensures
        text::cut(text::trimmed(header), Separator::Char(' ')) == Some((scheme, gap + parameter)),
        text::trimmed(gap + parameter) == parameter,
{
    let core = scheme.push(' ') + (gap + parameter);
    assert(core[0] == scheme[0]);
    assert(core.last() == parameter.last());
    text::lemma_trimmed(lead, core, trail);
    assert forall|i: int| 0 <= i < scheme.len() implies !Separator::Char(' ').splits(
        #[trigger] scheme[i],
    ) by {}
    text::lemma_cut(scheme, ' ', gap + parameter, Separator::Char(' '));
    text::lemma_trimmed(gap, parameter, Seq::empty());
    assert(gap + parameter + Seq::<char>::empty() =~= gap + parameter);
}

proof fn lemma_scheme_words(scheme: Seq<char>)
    ensures
        text::spells(scheme, "bearer"@, "BEARER"@) == (text::lowercase(scheme) == "bearer"@),
        text::spells(scheme, "basic"@, "BASIC"@) == (text::lowercase(scheme) == "basic"@),
        "bearer"@ != "basic"@,
{
    reveal_strlit("bearer");
    reveal_strlit("BEARER");
    reveal_strlit("basic");
    reveal_strlit("BASIC");
    text::lemma_spells(scheme, "bearer"@, "BEARER"@);
    text::lemma_spells(scheme, "basic"@, "BASIC"@);
    assert("bearer"@.len() == 6 && "basic"@.len() == 5);
}

/// A bearer token is taken as it was sent, character for character: whatever the case of the
/// scheme and the white space around the two, two headers with different tokens are different
/// credentials.
pub proof fn bearer_token_is_taken_as_sent(
    header: &str,
    credential: Credential,
    lead: Seq<char>,
    scheme: Seq<char>,
    gap: Seq<char>,
    token: Seq<char>,
    trail: Seq<char>,
)
    requires
        call_ensures(Credential::from_authorization_header, (header,), credential),
        consists_of(header@, lead, scheme, gap, token, trail),
        text::spells(scheme, "bearer"@, "BEARER"@),
    ensures
        credential@ == CredentialView::Bearer(token),
{
    lemma_header_parts(header@, lead, scheme, gap, token, trail);
    lemma_scheme_words(scheme);
}

/// A scheme that is neither `Bearer` nor `Basic` is kept, in small letters, with its parameter as
/// it was sent.
pub proof fn other_scheme_is_taken_as_sent(
    header: &str,
    credential: Credential,
    lead: Seq<char>,
    scheme: Seq<char>,
    gap: Seq<char>,
    parameter: Seq<char>,
    trail: Seq<char>,
)
    requires
        call_ensures(Credential::from_authorization_header, (header,), credential),
        consists_of(header@, lead, scheme, gap, parameter, trail),
        !text::spells(scheme, "bearer"@, "BEARER"@),
        !text::spells(scheme, "basic"@, "BASIC"@),
    ensures
        credential@ matches CredentialView::Other { scheme: kept, value } && value == parameter
            && kept.len() == scheme.len() && forall|i: int|
            0 <= i < kept.len() ==> #[trigger] kept[i] as u32 == if 0x41 <= scheme[i] as u32
                <= 0x5a {
                scheme[i] as u32 + 0x20
            } else {
                scheme[i] as int
            },
{
    lemma_header_parts(header@, lead, scheme, gap, parameter, trail);
    lemma_scheme_words(scheme);
}

/// A `Basic` header whose payload stands for an id without colons, a colon and a secret is that
/// pair, whatever the secret holds. A payload that is no base64, no UTF-8 or has no colon is no
/// pair at all.
pub proof fn basic_pair_is_taken_as_sent(
    header: &str,
    credential: Credential,
    lead: Seq<char>,
    scheme: Seq<char>,
    gap: Seq<char>,
    payload: Seq<char>,
    trail: Seq<char>,
    id: Seq<char>,
    secret: Seq<char>,
)
    requires
        call_ensures(Credential::from_authorization_header, (header,), credential),
        consists_of(header@, lead, scheme, gap, payload, trail),
        text::spells(scheme, "basic"@, "BASIC"@),
    ensures
        encoding::base64_decoded(payload) == Some(
            vstd::utf8::encode_utf8(id.push(':') + secret),
        ) && !id.contains(':') ==> credential@ == (CredentialView::Basic { id, secret }),
        encoding::base64_decoded(payload) is None ==> credential@ is Malformed,
        encoding::base64_decoded(payload) matches Some(bytes) && !vstd::utf8::valid_utf8(bytes)
            ==> credential@ is Malformed,
        encoding::base64_decoded(payload) == Some(vstd::utf8::encode_utf8(id)) && !id.contains(':')
            ==> credential@ is Malformed,
        credential@ is Basic || credential@ is Malformed,
{
    lemma_header_parts(header@, lead, scheme, gap, payload, trail);
    lemma_scheme_words(scheme);
    lemma_basic_pair(id, secret);
}

proof fn lemma_basic_pair(id: Seq<char>, secret: Seq<char>)
    ensures
        !id.contains(':') ==> basic_credential(
            Some(vstd::utf8::encode_utf8(id.push(':') + secret)),
        ) == (CredentialView::Basic { id, secret }),
        !id.contains(':') ==> basic_credential(Some(vstd::utf8::encode_utf8(id))) is Malformed,
{
    let pair = id.push(':') + secret;
    vstd::utf8::encode_utf8_valid_utf8(pair);
    vstd::utf8::encode_utf8_decode_utf8(pair);
    vstd::utf8::encode_utf8_valid_utf8(id);
    vstd::utf8::encode_utf8_decode_utf8(id);
    if !id.contains(':') {
        assert forall|i: int| 0 <= i < id.len() implies !Separator::Char(':').splits(
            #[trigger] id[i],
        ) by {
            assert(id.contains(id[i]));
        }
        text::lemma_cut(id, ':', secret, Separator::Char(':'));
        text::lemma_uncut(id, Separator::Char(':'));
    }
}

/// The bytes of a `Basic` payload are read alike wherever they came from.
pub proof fn basic_payload_is_taken_as_sent(
    decoded: Option<Vec<u8>>,
    credential: Credential,
    id: Seq<char>,
    secret: Seq<char>,
)
    requires
        call_ensures(Credential::from_basic_payload, (decoded,), credential),
        decoded is Some,
        decoded->Some_0@ == vstd::utf8::encode_utf8(id.push(':') + secret),
        !id.contains(':'),
    ensures
        credential@ == (CredentialView::Basic { id, secret }),
{
    lemma_basic_pair(id, secret);
}

/// A header without a blank between its words presents nothing, whatever white space is around
/// them.
pub proof fn lone_word_is_no_credential(
    header: &str,
    credential: Credential,
    lead: Seq<char>,
    word: Seq<char>,
    trail: Seq<char>,
)
    requires
        call_ensures(Credential::from_authorization_header, (header,), credential),
        header@ == lead + word + trail,
        text::is_blank(lead) && text::is_blank(trail) && text::is_bare(word),
        !word.contains(' '),
    ensures
        credential@ is Absent,
{
    text::lemma_trimmed(lead, word, trail);
    assert forall|i: int| 0 <= i < word.len() implies !Separator::Char(' ').splits(
        #[trigger] word[i],
    ) by {
        assert(word.contains(word[i]));
    }
    text::lemma_uncut(word, Separator::Char(' '));
}

/// What a request presents is what its first `Authorization` header says, and nothing else of the
/// request matters: without that header it presents nothing.
pub proof fn request_presents_its_authorization_header(
    request: AuthRequest,
    credential: Credential,
    header: &str,
    said: Credential,
)
    requires
        call_ensures(Credential::from_request, (&request,), credential),
        call_ensures(Credential::from_authorization_header, (header,), said),
    ensures
        request@.header("authorization"@) == Some(header@) ==> credential@ == said@,
        request@.header("authorization"@) is None ==> credential@ is Absent,
{
}

/// The scheme that a credential names is the one it was presented under.
pub proof fn credential_names_its_scheme(credential: Credential, scheme: Option<&str>, absent: bool)
    requires
        call_ensures(Credential::scheme, (&credential,), scheme),
        call_ensures(Credential::is_none, (&credential,), absent),
    ensures
        absent == (scheme is None),
        absent == (credential@ is Absent),
        credential@ is Bearer ==> scheme->Some_0@ == "bearer"@,
        credential@ is Basic ==> scheme->Some_0@ == "basic"@,
        credential@ matches CredentialView::Other { scheme: kept, .. } ==> scheme->Some_0@ == kept,
        credential@ matches CredentialView::Malformed { scheme: kept, .. } ==> scheme->Some_0@
            == kept,
{
}

/// The log line of a credential with a secret is the same for every secret.
pub proof fn log_line_hides_the_secret(
    one: Credential,
    other: Credential,
    line: String,
    other_line: String,
)
    requires
        call_ensures(Credential::redacted, (&one,), line),
        call_ensures(Credential::redacted, (&other,), other_line),
        ({
            ||| one@ is Bearer && other@ is Bearer
            ||| one@ matches CredentialView::Basic { id, .. } && other@ is Basic
                && other@->Basic_id == id
            ||| one@ matches CredentialView::Other { scheme, .. } && other@ is Other
                && other@->Other_scheme == scheme
        }),
    ensures
        line@ == other_line@,
{
}

/// A copy of a credential presents the same.
pub proof fn copied_credential_presents_the_same(credential: Credential, copy: Credential)
    requires
        call_ensures(<Credential as Clone>::clone, (&credential,), copy),
    ensures
        copy@ == credential@,
{
}

} // verus!
