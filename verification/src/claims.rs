//! Identity claims independent of where they came from, and the [`Principal`] trait that maps them
//! onto an application's own user type.
//!
//! Every authentication mechanism normalises what it learns into a single [`IdentityClaims`]. An
//! application then writes one `TryFrom<IdentityClaims>` for its user type, and that conversion
//! serves all of them.
use std::fmt::Display;
use vstd::prelude::*;

use crate::error::{AuthError, AuthErrorView};
use crate::names::NameMap;
use crate::outcome::Verdict;
use crate::text::{self, Separator};
use crate::time::{self, SystemTime};

verus! {

/// Which mechanism produced a set of claims.
///
/// Applications can branch on this in their [`Principal`] conversion, for example to require an
/// email for interactive logins while accepting a bare `sub` for machine tokens.
#[derive(Clone, Copy, Debug, PartialEq, Eq, Structural)]
pub enum ClaimSource {
    /// OIDC ID token, verified against the provider's keys.
    IdToken,
    /// OAuth 2.0 JWT access token, verified against the provider's keys.
    AccessToken,
    /// RFC 7662 token introspection response.
    Introspection,
    /// OAuth 2.0 `client_credentials` grant; there is no human identity here, only a validated
    /// `client_id`.
    ClientCredentials,
    /// A locally configured static API token bound to a fixed identity.
    StaticToken,
}

impl Default for ClaimSource {
    fn default() -> (source: ClaimSource)
        ensures
            source == ClaimSource::IdToken,
    {
        ClaimSource::IdToken
    }
}

/// The value of a claim, as far as it is read here.
#[derive(Debug)]
pub enum ClaimValue {
    Null,
    Bool(bool),
    /// A number as it was written, with its value when that is a whole number below 2^64.
    Number { text: String, unsigned: Option<u64> },
    Text(String),
    /// An array or an object, as JSON text.
    Json(String),
}

/// What a [`ClaimValue`] says.
pub ghost enum ClaimValueView {
    Null,
    Bool(bool),
    Number { text: Seq<char>, unsigned: Option<u64> },
    Text(Seq<char>),
    Json(Seq<char>),
}

impl View for ClaimValue {
    type V = ClaimValueView;

    open spec fn view(&self) -> ClaimValueView {
        match *self {
            ClaimValue::Null => ClaimValueView::Null,
            ClaimValue::Bool(value) => ClaimValueView::Bool(value),
            ClaimValue::Number { text, unsigned } => ClaimValueView::Number {
                text: text@,
                unsigned,
            },
            ClaimValue::Text(text) => ClaimValueView::Text(text@),
            ClaimValue::Json(text) => ClaimValueView::Json(text@),
        }
    }
}

impl Clone for ClaimValue {
    fn clone(&self) -> (copy: ClaimValue)
        ensures
            copy@ == self@,
    {
        match self {
            ClaimValue::Null => ClaimValue::Null,
            ClaimValue::Bool(value) => ClaimValue::Bool(*value),
            ClaimValue::Number { text, unsigned } => ClaimValue::Number {
                text: text.clone(),
                unsigned: *unsigned,
            },
            ClaimValue::Text(text) => ClaimValue::Text(text.clone()),
            ClaimValue::Json(text) => ClaimValue::Json(text.clone()),
        }
    }
}

/// The values of a map of claims.
pub open spec fn claim_values(map: Map<Seq<char>, ClaimValue>) -> Map<Seq<char>, ClaimValueView> {
    map.map_values(|value: ClaimValue| value@)
}

/// Normalised identity claims, independent of the mechanism that produced them.
///
/// The named fields cover what essentially every provider supplies. Anything else, such as custom
/// claims, group lists or tenant identifiers, is reachable through `extra`.
#[derive(Debug)]
pub struct IdentityClaims {
    /// The `sub` claim: the provider's stable identifier for the principal. Absent only for
    /// mechanisms that carry no subject.
    pub subject: Option<String>,
    /// The `email` claim.
    pub email: Option<String>,
    /// The `preferred_username` claim.
    pub preferred_username: Option<String>,
    /// The `name` claim: human-readable display name.
    pub name: Option<String>,
    /// For `client_credentials`, the validated `client_id`.
    pub client_id: Option<String>,
    /// Space-delimited OAuth scopes granted to the credential, if reported.
    pub scope: Option<String>,
    /// When the underlying credential expires, if the provider reported it.
    pub expires_at: Option<SystemTime>,
    /// Which mechanism produced these claims.
    pub source: ClaimSource,
    /// Every claim the provider returned, including those mapped above.
    pub extra: NameMap<ClaimValue>,
}

/// What [`IdentityClaims`] say.
pub ghost struct ClaimsView {
    pub subject: Option<Seq<char>>,
    pub email: Option<Seq<char>>,
    pub preferred_username: Option<Seq<char>>,
    pub name: Option<Seq<char>>,
    pub client_id: Option<Seq<char>>,
    pub scope: Option<Seq<char>>,
    pub expires_at: Option<nat>,
    pub source: ClaimSource,
    pub extra: Map<Seq<char>, ClaimValueView>,
}

impl View for IdentityClaims {
    type V = ClaimsView;

    open spec fn view(&self) -> ClaimsView {
        ClaimsView {
            subject: text::optional(self.subject),
            email: text::optional(self.email),
            preferred_username: text::optional(self.preferred_username),
            name: text::optional(self.name),
            client_id: text::optional(self.client_id),
            scope: text::optional(self.scope),
            expires_at: time::optional_moment(self.expires_at),
            source: self.source,
            extra: claim_values(self.extra@),
        }
    }
}

impl ClaimsView {
    /// Claims of the given source in which nothing else is filled in.
    pub open spec fn blank(source: ClaimSource) -> ClaimsView {
        ClaimsView {
            subject: None,
            email: None,
            preferred_username: None,
            name: None,
            client_id: None,
            scope: None,
            expires_at: None,
            source,
            extra: Map::empty(),
        }
    }

    /// The granted scopes.
    pub open spec fn scopes(self) -> Seq<Seq<char>> {
        match self.scope {
            Some(scope) => text::non_empty(text::pieces(scope, Separator::WhiteSpace)),
            None => Seq::empty(),
        }
    }

    /// The preferred user name, else the email, else the subject, else the client id.
    pub open spec fn best_effort_username(self) -> Option<Seq<char>> {
        if self.preferred_username is Some {
            self.preferred_username
        } else if self.email is Some {
            self.email
        } else if self.subject is Some {
            self.subject
        } else {
            self.client_id
        }
    }
}

impl IdentityClaims {
    /// Starts a claim set for the given source. Fields are then filled in with the `with_*`
    /// setters.
    pub fn new(source: ClaimSource) -> (claims: IdentityClaims)
        ensures
            claims@ == ClaimsView::blank(source),
    {
        let claims = IdentityClaims {
            subject: None,
            email: None,
            preferred_username: None,
            name: None,
            client_id: None,
            scope: None,
            expires_at: None,
            source,
            extra: NameMap::new(),
        };
        assert(claims@.extra =~= Map::empty());
        claims
    }

    /// Reads a claim from `extra` by name.
    pub fn extra_claim(&self, name: &str) -> (value: Option<&ClaimValue>)
        ensures
            match value {
                Some(value) => self@.extra.contains_key(name@) && self@.extra[name@] == value@,
                None => !self@.extra.contains_key(name@),
            },
    {
        self.extra.get(name)
    }

    /// The granted scopes, split at white space per RFC 6749 section 3.3.
    pub fn scopes(&self) -> (scopes: Vec<&str>)
        ensures
            text::slices(scopes@) == self@.scopes(),
    {
        match &self.scope {
            Some(scope) => text::split_non_empty(scope.as_str(), Separator::WhiteSpace),
            None => {
                let scopes: Vec<&str> = Vec::new();
                assert(text::slices(scopes@) =~= self@.scopes());
                scopes
            },
        }
    }

    /// A best-effort display identity, for the common conversion. A [`Principal`] is free to
    /// demand specific claims instead.
    pub fn best_effort_username(&self) -> (name: Option<&str>)
        ensures
            text::optional_str(name) == self@.best_effort_username(),
    {
        if self.preferred_username.is_some() {
            text::as_deref(&self.preferred_username)
        } else if self.email.is_some() {
            text::as_deref(&self.email)
        } else if self.subject.is_some() {
            text::as_deref(&self.subject)
        } else {
            text::as_deref(&self.client_id)
        }
    }

    pub fn with_subject(self, subject: &str) -> (claims: IdentityClaims)
        ensures
            claims@ == (ClaimsView { subject: Some(subject@), ..self@ }),
    {
        IdentityClaims { subject: Some(String::from_str(subject)), ..self }
    }

    pub fn with_email(self, email: &str) -> (claims: IdentityClaims)
        ensures
            claims@ == (ClaimsView { email: Some(email@), ..self@ }),
    {
        IdentityClaims { email: Some(String::from_str(email)), ..self }
    }

    pub fn with_preferred_username(self, username: &str) -> (claims: IdentityClaims)
        ensures
            claims@ == (ClaimsView { preferred_username: Some(username@), ..self@ }),
    {
        IdentityClaims { preferred_username: Some(String::from_str(username)), ..self }
    }

    pub fn with_name(self, name: &str) -> (claims: IdentityClaims)
        ensures
            claims@ == (ClaimsView { name: Some(name@), ..self@ }),
    {
        IdentityClaims { name: Some(String::from_str(name)), ..self }
    }

    pub fn with_client_id(self, client_id: &str) -> (claims: IdentityClaims)
        ensures
            claims@ == (ClaimsView { client_id: Some(client_id@), ..self@ }),
    {
        IdentityClaims { client_id: Some(String::from_str(client_id)), ..self }
    }

    pub fn with_scope(self, scope: &str) -> (claims: IdentityClaims)
        ensures
            claims@ == (ClaimsView { scope: Some(scope@), ..self@ }),
    {
        IdentityClaims { scope: Some(String::from_str(scope)), ..self }
    }

    pub fn with_expires_at(self, expires_at: SystemTime) -> (claims: IdentityClaims)
        ensures
            claims@ == (ClaimsView { expires_at: Some(expires_at@), ..self@ }),
    {
        IdentityClaims { expires_at: Some(expires_at), ..self }
    }

    /// Gives the claim `name` the value `value`, in place of the one it had, if any.
    pub fn with_extra(self, name: &str, value: ClaimValue) -> (claims: IdentityClaims)
        ensures
            claims@ == (ClaimsView { extra: self@.extra.insert(name@, value@), ..self@ }),
    {
        let mut extra = self.extra;
        extra.insert(name, value);
        let claims = IdentityClaims { extra, ..self };
        assert(claims@.extra =~= self@.extra.insert(name@, value@));
        claims
    }
}

impl Default for IdentityClaims {
    fn default() -> (claims: IdentityClaims)
        ensures
            claims@ == ClaimsView::blank(ClaimSource::IdToken),
    {
        IdentityClaims::new(ClaimSource::IdToken)
    }
}

impl Clone for IdentityClaims {
    fn clone(&self) -> (copy: IdentityClaims)
        ensures
            copy@ == self@,
    {
        let copy = IdentityClaims {
            subject: text::copy_optional(&self.subject),
            email: text::copy_optional(&self.email),
            preferred_username: text::copy_optional(&self.preferred_username),
            name: text::copy_optional(&self.name),
            client_id: text::copy_optional(&self.client_id),
            scope: text::copy_optional(&self.scope),
            expires_at: self.expires_at,
            source: self.source,
            extra: self.extra.clone(),
        };
        assert(copy@.extra =~= self@.extra) by {
            assert forall|name: Seq<char>| #[trigger]
                copy@.extra.contains_key(name) implies copy@.extra[name] == self@.extra[name] by {
                assert(cloned::<ClaimValue>(self.extra@[name], copy.extra@[name]));
            }
        }
        copy
    }
}

/// An application's authenticated user type.
///
/// Only an alias over `TryFrom<IdentityClaims>`: implement that conversion for a user type and it
/// is usable as a principal throughout this crate.
pub trait Principal: Clone + Send + Sync + 'static + TryFrom<IdentityClaims, Error: Display> {

}

impl<T> Principal for T where
    T: Clone + Send + Sync + 'static + TryFrom<IdentityClaims, Error: Display>,
 {

}

/// Whether `result` is what becomes of claims that say `claims` when they are turned into a
/// principal: the principal the application's conversion makes of them, or an internal error that
/// names the conversion and what it reported.
pub open spec fn converts<U: Principal>(
    claims: ClaimsView,
    conversion: Seq<char>,
    result: Result<U, AuthError>,
) -> bool {
    exists|given: IdentityClaims, made: Result<U, U::Error>|
        {
            &&& given@ == claims
            &&& #[trigger] call_ensures(<U as TryFrom<IdentityClaims>>::try_from, (given,), made)
            &&& match made {
                Ok(user) => result == Ok::<U, AuthError>(user),
                Err(error) => exists|report: String| #[trigger]
                    vstd::string::to_string_from_display_ensures::<U::Error>(&error, report) && result is Err
                        && result->Err_0@ == (AuthErrorView::Internal {
                        detail: conversion + ": "@ + report@,
                    }),
            }
        }
}

/// Turns claims into a principal. `conversion` names what is converted, for the operator.
pub fn convert<U: Principal>(claims: IdentityClaims, conversion: &str) -> (result: Result<
    U,
    AuthError,
>)
    ensures
        converts::<U>(claims@, conversion@, result),
{
    match U::try_from(claims) {
        Ok(user) => Ok(user),
        Err(error) => {
            let report = error.to_string();
            let head = text::join(conversion, ": ");
            Err(AuthError::internal(text::join(head.as_str(), report.as_str()).as_str()))
        },
    }
}

/// Whether `answer` is what an authenticator answers once it has learnt that claims that say
/// `claims` describe the caller.
pub open spec fn identifies<U: Principal>(
    claims: ClaimsView,
    conversion: Seq<char>,
    answer: Result<Verdict<U>, AuthError>,
) -> bool {
    exists|result: Result<U, AuthError>| #[trigger]
        converts(claims, conversion, result) && answer == (match result {
            Ok(user) => Ok::<Verdict<U>, AuthError>(Verdict::Authenticated(user)),
            Err(error) => Err(error),
        })
}

/// The answer of an authenticator that has learnt who the caller is.
pub fn identify<U: Principal>(claims: IdentityClaims, conversion: &str) -> (answer: Result<
    Verdict<U>,
    AuthError,
>)
    ensures
        identifies(claims@, conversion@, answer),
{
    let result = convert::<U>(claims, conversion);
    assert(converts(claims@, conversion@, result));
    match result {
        Ok(user) => Ok(Verdict::Authenticated(user)),
        Err(error) => Err(error),
    }
}

/// Each setter fills in its own claim and leaves every other one as it was.
pub proof fn setters_fill_in_one_claim(
    claims: IdentityClaims,
    text: &str,
    moment: SystemTime,
    subject: IdentityClaims,
    email: IdentityClaims,
    username: IdentityClaims,
    name: IdentityClaims,
    client: IdentityClaims,
    scope: IdentityClaims,
    expiry: IdentityClaims,
)
    requires
        call_ensures(IdentityClaims::with_subject, (claims, text), subject),
        call_ensures(IdentityClaims::with_email, (claims, text), email),
        call_ensures(IdentityClaims::with_preferred_username, (claims, text), username),
        call_ensures(IdentityClaims::with_name, (claims, text), name),
        call_ensures(IdentityClaims::with_client_id, (claims, text), client),
        call_ensures(IdentityClaims::with_scope, (claims, text), scope),
        call_ensures(IdentityClaims::with_expires_at, (claims, moment), expiry),
    ensures
        subject@ == (ClaimsView { subject: Some(text@), ..claims@ }),
        email@ == (ClaimsView { email: Some(text@), ..claims@ }),
        username@ == (ClaimsView { preferred_username: Some(text@), ..claims@ }),
        name@ == (ClaimsView { name: Some(text@), ..claims@ }),
        client@ == (ClaimsView { client_id: Some(text@), ..claims@ }),
        scope@ == (ClaimsView { scope: Some(text@), ..claims@ }),
        expiry@ == (ClaimsView { expires_at: Some(moment@), ..claims@ }),
{
}

/// A claim that was given a value is read back with it, and no other claim changes.
pub proof fn extra_claim_is_read_back(
    claims: IdentityClaims,
    name: &str,
    value: ClaimValue,
    filled: IdentityClaims,
    found: Option<&ClaimValue>,
    asked: &str,
    other: Option<&ClaimValue>,
    before: Option<&ClaimValue>,
)
    requires
        call_ensures(IdentityClaims::with_extra, (claims, name, value), filled),
        call_ensures(IdentityClaims::extra_claim, (&filled, name), found),
        call_ensures(IdentityClaims::extra_claim, (&filled, asked), other),
        call_ensures(IdentityClaims::extra_claim, (&claims, asked), before),
    ensures
        found is Some && found->Some_0@ == value@,
        asked@ != name@ ==> (other is Some) == (before is Some),
        asked@ != name@ && before is Some ==> other->Some_0@ == before->Some_0@,
{
}

/// The name that is settled for is the first there is of the preferred user name, the email, the
/// subject and the client id; the display name is never it.
pub proof fn settled_name_is_the_first_there_is(claims: IdentityClaims, name: Option<&str>)
    requires
        call_ensures(IdentityClaims::best_effort_username, (&claims,), name),
    ensures
        claims@.preferred_username is Some ==> text::optional_str(name) == claims@.preferred_username,
        claims@.preferred_username is None && claims@.email is Some ==> text::optional_str(name)
            == claims@.email,
        claims@.preferred_username is None && claims@.email is None && claims@.subject is Some
            ==> text::optional_str(name) == claims@.subject,
        claims@.preferred_username is None && claims@.email is None && claims@.subject is None
            ==> text::optional_str(name) == claims@.client_id,
{
}

proof fn lemma_scopes_joined(list: Seq<Seq<char>>)
    requires
        list.len() > 0,
        forall|i: int, j: int|
            0 <= i < list.len() && 0 <= j < list[i].len() ==> !text::is_white_space(
                #[trigger] list[i][j],
            ),
    ensures
        text::pieces(text::joined(list, ' '), Separator::WhiteSpace) == list,
    decreases list.len(),
{
    let sep = Separator::WhiteSpace;
    let head = list[0];
    assert forall|i: int| 0 <= i < head.len() implies !sep.splits(#[trigger] head[i]) by {
        assert(!text::is_white_space(list[0][i]));
    }
    if list.len() == 1 {
        text::lemma_uncut(head, sep);
        assert(list =~= seq![head]);
    } else {
        let rest = list.drop_first();
        assert forall|i: int, j: int|
            0 <= i < rest.len() && 0 <= j < rest[i].len() implies !text::is_white_space(
            #[trigger] rest[i][j],
        ) by {
            assert(!text::is_white_space(list[i + 1][j]));
        }
        lemma_scopes_joined(rest);
        text::lemma_cut(head, ' ', text::joined(rest, ' '), sep);
        text::lemma_first_cut_bounds(text::joined(list, ' '), sep);
        assert(list =~= seq![head] + rest);
    }
}

/// Scopes written with blanks between them are read back as they were, each whole and in order,
/// however many blanks there are.
pub proof fn scopes_are_read_back(claims: IdentityClaims, scopes: Vec<&str>, list: Seq<Seq<char>>)
    requires
        call_ensures(IdentityClaims::scopes, (&claims,), scopes),
        claims@.scope == Some(text::joined(list, ' ')),
        list.len() > 0,
        forall|i: int, j: int|
            0 <= i < list.len() && 0 <= j < list[i].len() ==> !text::is_white_space(
                #[trigger] list[i][j],
            ),
    ensures
        text::slices(scopes@) == list.filter(|scope: Seq<char>| scope.len() > 0),
        (forall|i: int| 0 <= i < list.len() ==> (#[trigger] list[i]).len() > 0) ==> text::slices(
            scopes@,
        ) == list,
{
    lemma_scopes_joined(list);
    if forall|i: int| 0 <= i < list.len() ==> (#[trigger] list[i]).len() > 0 {
        text::lemma_all_non_empty(list);
    }
}

/// No scope is empty, and none holds white space of any kind.
pub proof fn scopes_are_single_words(claims: IdentityClaims, scopes: Vec<&str>, at: int)
    requires
        call_ensures(IdentityClaims::scopes, (&claims,), scopes),
        0 <= at < scopes.len(),
    ensures
        scopes@[at]@.len() > 0,
        forall|i: int|
            0 <= i < scopes@[at]@.len() ==> !text::is_white_space(#[trigger] scopes@[at]@[i]),
{
    let found = text::slices(scopes@);
    assert(found.len() == scopes.len() && found[at] == scopes@[at]@);
    assert(found == claims@.scopes());
    if let Some(scope) = claims@.scope {
        let all = text::pieces(scope, Separator::WhiteSpace);
        text::lemma_non_empty_members(all);
        text::lemma_pieces_hold_no_separator(scope, Separator::WhiteSpace);
        assert(all.contains(found[at]));
        let k = choose|k: int| 0 <= k < all.len() && all[k] == found[at];
        assert forall|i: int| 0 <= i < scopes@[at]@.len() implies !text::is_white_space(
            #[trigger] scopes@[at]@[i],
        ) by {
            assert(!Separator::WhiteSpace.splits(all[k][i]));
        }
    }
}

/// Claims that name no scope grant none.
pub proof fn no_scope_grants_nothing(claims: IdentityClaims, scopes: Vec<&str>)
    requires
        call_ensures(IdentityClaims::scopes, (&claims,), scopes),
        claims@.scope is None,
    ensures
        scopes.len() == 0,
{
    assert(text::slices(scopes@).len() == scopes.len());
}

/// An authenticator that has learnt who the caller is answers with the principal that the
/// application makes of those claims, or with a fault of the service: it never declines, and never
/// blames the caller.
pub proof fn known_caller_is_answered_for<U: Principal>(
    claims: IdentityClaims,
    conversion: &str,
    answer: Result<Verdict<U>, AuthError>,
)
    requires
        call_ensures(identify::<U>, (claims, conversion), answer),
    ensures
        match answer {
            Ok(Verdict::Authenticated(user)) => exists|
                given: IdentityClaims,
                made: Result<U, U::Error>,
            | #[trigger]
                call_ensures(<U as TryFrom<IdentityClaims>>::try_from, (given,), made) && given@
                    == claims@ && made == Ok::<U, U::Error>(user),
            Ok(Verdict::NotApplicable) => false,
            Err(error) => error@.status() == 500,
        },
{
    let result = choose|result: Result<U, AuthError>| #[trigger]
        converts(claims@, conversion@, result) && answer == (match result {
            Ok(user) => Ok::<Verdict<U>, AuthError>(Verdict::Authenticated(user)),
            Err(error) => Err(error),
        });
    let (given, made) = choose|given: IdentityClaims, made: Result<U, U::Error>|
        {
            &&& given@ == claims@
            &&& #[trigger] call_ensures(<U as TryFrom<IdentityClaims>>::try_from, (given,), made)
            &&& match made {
                Ok(user) => result == Ok::<U, AuthError>(user),
                Err(_) => result is Err && result->Err_0@ is Internal,
            }
        };
    assert(call_ensures(<U as TryFrom<IdentityClaims>>::try_from, (given,), made));
}

/// A copy of some claims says the same, and claims in which nothing was filled in say nothing but
/// where they come from.
pub proof fn copied_claims_say_the_same(
    claims: IdentityClaims,
    copy: IdentityClaims,
    source: ClaimSource,
    fresh: IdentityClaims,
    name: Seq<char>,
)
    requires
        call_ensures(<IdentityClaims as Clone>::clone, (&claims,), copy),
        call_ensures(IdentityClaims::new, (source,), fresh),
    ensures
        copy@ == claims@,
        fresh@.source == source,
        fresh@.best_effort_username() is None && fresh@.name is None,
        fresh@.scope is None && fresh@.expires_at is None,
        !fresh@.extra.contains_key(name),
{
}

/// Claims that nobody filled in are those of an ID token that says nothing.
pub proof fn claims_are_blank_by_default(
    source: ClaimSource,
    claims: IdentityClaims,
    name: Seq<char>,
)
    requires
        call_ensures(<ClaimSource as Default>::default, (), source),
        call_ensures(<IdentityClaims as Default>::default, (), claims),
    ensures
        source is IdToken && claims@.source is IdToken,
        claims@.subject is None && claims@.email is None && claims@.preferred_username is None,
        claims@.name is None && claims@.client_id is None && claims@.scope is None,
        claims@.expires_at is None,
        !claims@.extra.contains_key(name),
{
}

/// Claims are turned into the principal that the application makes of them. Where it makes none,
/// the operator is told what was converted and what the application reported, and the caller is
/// not blamed.
pub proof fn failed_conversion_is_told_to_the_operator<U: Principal>(
    claims: IdentityClaims,
    conversion: &str,
    result: Result<U, AuthError>,
)
    requires
        call_ensures(convert::<U>, (claims, conversion), result),
    ensures
        exists|given: IdentityClaims, made: Result<U, U::Error>|
            {
                &&& #[trigger] call_ensures(
                    <U as TryFrom<IdentityClaims>>::try_from,
                    (given,),
                    made,
                )
                &&& given@ == claims@
                &&& match made {
                    Ok(user) => result == Ok::<U, AuthError>(user),
                    Err(error) => exists|report: String| #[trigger]
                        vstd::string::to_string_from_display_ensures::<U::Error>(&error, report)
                            && result is Err && result->Err_0@ == (AuthErrorView::Internal {
                            detail: conversion@ + ": "@ + report@,
                        }),
                }
            },
{
}

/// The scopes on both sides of white space, of whatever kind, are those of the one side and of the
/// other.
pub proof fn white_space_separates_scopes(
    claims: IdentityClaims,
    scopes: Vec<&str>,
    one: IdentityClaims,
    before: Vec<&str>,
    two: IdentityClaims,
    behind: Vec<&str>,
    mark: char,
)
    requires
        call_ensures(IdentityClaims::scopes, (&claims,), scopes),
        call_ensures(IdentityClaims::scopes, (&one,), before),
        call_ensures(IdentityClaims::scopes, (&two,), behind),
        one@.scope is Some && two@.scope is Some && text::is_white_space(mark),
        claims@.scope == Some(one@.scope->Some_0.push(mark) + two@.scope->Some_0),
    ensures
        text::slices(scopes@) == text::slices(before@) + text::slices(behind@),
{
    let head = one@.scope->Some_0;
    let tail = two@.scope->Some_0;
    text::lemma_pieces_of_two(head, mark, tail, Separator::WhiteSpace);
    text::lemma_non_empty_of_two(
        text::pieces(head, Separator::WhiteSpace),
        text::pieces(tail, Separator::WhiteSpace),
    );
}

} // verus!
