//! Mapping OIDC ID-token claims onto [`IdentityClaims`].
use vstd::prelude::*;

use crate::claims::{self, ClaimSource, ClaimValue, ClaimValueView, ClaimsView, IdentityClaims};
use crate::json;
use crate::names::NameMap;
use crate::text;
use crate::time::{Duration, SystemTime};

verus! {

/// The claims of a verified ID token.
#[derive(Debug)]
pub struct IdTokenClaims {
    /// The `sub` claim.
    pub subject: String,
    /// The `exp` claim, in Unix seconds.
    pub expiration: i64,
    pub email: Option<String>,
    pub preferred_username: Option<String>,
    /// The `name` claim without a language tag, which is what a provider returns when the request
    /// carried no language preference.
    pub name: Option<String>,
    /// Every claim of the token, unless they could not be written as a JSON object.
    pub members: Option<NameMap<ClaimValue>>,
}

/// What [`IdTokenClaims`] say.
pub ghost struct IdTokenView {
    pub subject: Seq<char>,
    pub expiration: i64,
    pub email: Option<Seq<char>>,
    pub preferred_username: Option<Seq<char>>,
    pub name: Option<Seq<char>>,
    pub members: Option<Map<Seq<char>, ClaimValueView>>,
}

impl View for IdTokenClaims {
    type V = IdTokenView;

    open spec fn view(&self) -> IdTokenView {
        IdTokenView {
            subject: self.subject@,
            expiration: self.expiration,
            email: text::optional(self.email),
            preferred_username: text::optional(self.preferred_username),
            name: text::optional(self.name),
            members: json::optional_members(self.members),
        }
    }
}

/// The `exp` claim in Unix seconds. An expiry before the epoch counts as the epoch.
pub open spec fn expiration_in(members: Map<Seq<char>, ClaimValueView>) -> i64 {
    match json::number_member(members, "exp"@) {
        Some(secs) if secs <= i64::MAX => secs as i64,
        _ => 0,
    }
}

/// The claims of an ID token with these members.
pub open spec fn claims_in(members: Map<Seq<char>, ClaimValueView>) -> IdTokenView
    recommends
        json::text_member(members, "sub"@) is Some,
{
    IdTokenView {
        subject: json::text_member(members, "sub"@).unwrap(),
        expiration: expiration_in(members),
        email: json::text_member(members, "email"@),
        preferred_username: json::text_member(members, "preferred_username"@),
        name: json::text_member(members, "name"@),
        members: Some(members),
    }
}

impl IdTokenClaims {
    /// Takes the claims out of the members of a token that names its subject.
    pub fn from_members(members: NameMap<ClaimValue>) -> (found: Option<IdTokenClaims>)
        ensures
            match found {
                Some(found) => json::text_member(claims::claim_values(members@), "sub"@) is Some
                    && found@ == claims_in(claims::claim_values(members@)),
                None => json::text_member(claims::claim_values(members@), "sub"@) is None,
            },
    {
        let subject = match json::text_of(&members, "sub") {
            Some(subject) => subject,
            None => {
                return None;
            },
        };
        let expiration: i64 = match json::number_of(&members, "exp") {
            Some(secs) => if secs <= 0x7fff_ffff_ffff_ffff {
                secs as i64
            } else {
                0
            },
            None => 0,
        };
        Some(
            IdTokenClaims {
                subject,
                expiration,
                email: json::text_of(&members, "email"),
                preferred_username: json::text_of(&members, "preferred_username"),
                name: json::text_of(&members, "name"),
                members: Some(members),
            },
        )
    }
}

/// Unix seconds as nanoseconds since the epoch, a negative timestamp clamped to the epoch.
pub open spec fn moment_of(unix_seconds: i64) -> nat {
    if unix_seconds > 0 {
        (unix_seconds * 1_000_000_000) as nat
    } else {
        0
    }
}

/// The identity that the claims of an ID token describe.
pub open spec fn identity_of(claims: IdTokenView) -> ClaimsView {
    ClaimsView {
        subject: Some(claims.subject),
        expires_at: Some(moment_of(claims.expiration)),
        email: claims.email,
        preferred_username: claims.preferred_username,
        name: claims.name,
        extra: match claims.members {
            Some(members) => members,
            None => Map::empty(),
        },
        ..ClaimsView::blank(ClaimSource::IdToken)
    }
}

/// Converts verified ID-token claims into identity claims.
///
/// Every claim survives: the standard ones are named, and the rest stay reachable through `extra`.
pub fn identity_from_id_token_claims(claims: IdTokenClaims) -> (identity: IdentityClaims)
    ensures
        identity@ == identity_of(claims@),
{
    let identity = IdentityClaims::new(ClaimSource::IdToken);
    let identity = identity.with_subject(claims.subject.as_str());
    let identity = identity.with_expires_at(to_system_time(claims.expiration));
    let extra = flatten_claims(claims.members);
    IdentityClaims {
        email: claims.email,
        preferred_username: claims.preferred_username,
        name: claims.name,
        extra,
        ..identity
    }
}

/// The top-level members of the claim set, so nothing the provider sent is lost. A claim set that
/// could not be written down is no error: the named claims are already extracted.
fn flatten_claims(members: Option<NameMap<ClaimValue>>) -> (extra: NameMap<ClaimValue>)
    ensures
        claims::claim_values(extra@) == (match json::optional_members(members) {
            Some(members) => members,
            None => Map::empty(),
        }),
{
    match members {
        Some(members) => members,
        None => {
            let extra: NameMap<ClaimValue> = NameMap::new();
            assert(claims::claim_values(extra@) =~= Map::empty());
            extra
        },
    }
}

/// Unix seconds to a moment, clamping a negative timestamp to the epoch.
fn to_system_time(unix_seconds: i64) -> (moment: SystemTime)
    ensures
        moment@ == moment_of(unix_seconds),
{
    let secs: u64 = if unix_seconds > 0 {
        unix_seconds as u64
    } else {
        0
    };
    SystemTime::after_epoch(Duration::from_secs(secs))
}

/// Each named claim of an identity is the string of the token's own claim of that name and of no
/// other, the expiry is the token's, and every claim of the token stays reachable. Nothing else is
/// made up.
pub proof fn identity_takes_each_claim_under_its_name(
    members: NameMap<ClaimValue>,
    found: Option<IdTokenClaims>,
    identity: IdentityClaims,
)
    requires
        call_ensures(IdTokenClaims::from_members, (members,), found),
        found is Some,
        call_ensures(identity_from_id_token_claims, (found->Some_0,), identity),
    ensures
        ({
            let said = claims::claim_values(members@);
            &&& json::is_text_of(identity@.subject, said, "sub"@) && identity@.subject is Some
            &&& json::is_text_of(identity@.email, said, "email"@)
            &&& json::is_text_of(identity@.preferred_username, said, "preferred_username"@)
            &&& json::is_text_of(identity@.name, said, "name"@)
            &&& identity@.extra == said
            &&& identity@.source == ClaimSource::IdToken
            &&& identity@.client_id is None && identity@.scope is None
            &&& identity@.expires_at is Some
            &&& said.contains_key("exp"@) ==> match said["exp"@] {
                ClaimValueView::Number { unsigned: Some(secs), .. } => identity@.expires_at == if secs
                    <= i64::MAX {
                    Some((secs * 1_000_000_000) as nat)
                } else {
                    Some(0nat)
                },
                _ => identity@.expires_at == Some(0nat),
            }
            &&& !said.contains_key("exp"@) ==> identity@.expires_at == Some(0nat)
        }),
{
}

/// A token without a subject makes no identity, and one with a subject always does.
pub proof fn identity_needs_a_subject(members: NameMap<ClaimValue>, found: Option<IdTokenClaims>)
    requires
        call_ensures(IdTokenClaims::from_members, (members,), found),
    ensures
        (found is Some) == (claims::claim_values(members@).contains_key("sub"@)
            && claims::claim_values(members@)["sub"@] is Text),
{
}

/// The display name is no user name: whatever the `name` claim is, and whether there is one or not,
/// neither the preferred user name nor the one that is settled for depends on it.
pub proof fn display_name_is_no_user_name(
    members: NameMap<ClaimValue>,
    others: NameMap<ClaimValue>,
    found: Option<IdTokenClaims>,
    other: Option<IdTokenClaims>,
    identity: IdentityClaims,
    twin: IdentityClaims,
)
    requires
        call_ensures(IdTokenClaims::from_members, (members,), found),
        call_ensures(IdTokenClaims::from_members, (others,), other),
        found is Some && other is Some,
        call_ensures(identity_from_id_token_claims, (found->Some_0,), identity),
        call_ensures(identity_from_id_token_claims, (other->Some_0,), twin),
        claims::claim_values(members@).remove("name"@) == claims::claim_values(others@).remove(
            "name"@,
        ),
    ensures
        identity@.preferred_username == twin@.preferred_username,
        identity@.email == twin@.email,
        identity@.subject == twin@.subject,
        identity@.expires_at == twin@.expires_at,
        identity@.best_effort_username() == twin@.best_effort_username(),
{
    reveal_strlit("name");
    reveal_strlit("sub");
    reveal_strlit("email");
    reveal_strlit("exp");
    reveal_strlit("preferred_username");
    assert("name"@[0] == 'n' && "sub"@[0] == 's' && "email"@[0] == 'e' && "exp"@[0] == 'e'
        && "preferred_username"@[0] == 'p');
    let one = claims::claim_values(members@);
    let two = claims::claim_values(others@);
    assert forall|name: Seq<char>| name != "name"@ implies #[trigger] one.contains_key(name)
        == two.contains_key(name) && (one.contains_key(name) ==> one[name] == two[name]) by {
        assert(one.remove("name"@).contains_key(name) == one.contains_key(name));
        assert(two.remove("name"@).contains_key(name) == two.contains_key(name));
        if one.contains_key(name) {
            assert(one.remove("name"@)[name] == one[name]);
            assert(two.remove("name"@)[name] == two[name]);
        }
    }
    assert(one.contains_key("sub"@) == two.contains_key("sub"@));
    assert(one.contains_key("email"@) == two.contains_key("email"@));
    assert(one.contains_key("exp"@) == two.contains_key("exp"@));
    assert(one.contains_key("preferred_username"@) == two.contains_key("preferred_username"@));
}

} // verus!
