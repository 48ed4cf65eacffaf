//! An owned view of the parts of an HTTP request that authentication needs.
//!
//! A framework adapter copies the handful of fields that authentication reads out of its native
//! request, so nothing here depends on a framework.
use vstd::prelude::*;

use crate::names::{self, NameMap};
use crate::text::{self, Separator};

verus! {

/// The request fields authentication decisions are made from.
///
/// Built by a framework adapter via [`AuthRequestBuilder`]. Header names are kept in lower case,
/// so lookups are case-insensitive as RFC 9110 requires.
#[derive(Debug)]
pub struct AuthRequest {
    method: String,
    path: String,
    route_pattern: Option<String>,
    query: String,
    headers: NameMap<Vec<String>>,
    cookies: NameMap<String>,
}

/// What an [`AuthRequest`] holds: every header name in lower case with its values in order, every
/// cookie with its value.
pub ghost struct RequestView {
    pub method: Seq<char>,
    pub path: Seq<char>,
    pub route_pattern: Option<Seq<char>>,
    pub query: Seq<char>,
    pub headers: Map<Seq<char>, Seq<Seq<char>>>,
    pub cookies: Map<Seq<char>, Seq<char>>,
}

impl RequestView {
    /// A request in which nothing has been filled in.
    pub open spec fn blank() -> RequestView {
        RequestView {
            method: Seq::empty(),
            path: Seq::empty(),
            route_pattern: None,
            query: Seq::empty(),
            headers: Map::empty(),
            cookies: Map::empty(),
        }
    }

    /// Every value of the header `name`, whatever the case it is written in.
    pub open spec fn header_values(self, name: Seq<char>) -> Seq<Seq<char>> {
        names::values_of(self.headers, text::lowercase(name))
    }

    /// The first value of the header `name`.
    pub open spec fn header(self, name: Seq<char>) -> Option<Seq<char>> {
        let values = self.header_values(name);
        if values.len() > 0 {
            Some(values[0])
        } else {
            None
        }
    }

    /// The request with one more header value, behind those the name has.
    pub open spec fn with_header(self, name: Seq<char>, value: Seq<char>) -> RequestView {
        RequestView {
            headers: self.headers.insert(
                text::lowercase(name),
                self.header_values(name).push(value),
            ),
            ..self
        }
    }

    /// The request with a cookie, in place of the one of that name, if any.
    pub open spec fn with_cookie(self, name: Seq<char>, value: Seq<char>) -> RequestView {
        RequestView { cookies: self.cookies.insert(name, value), ..self }
    }

    /// The value of the cookie `name`.
    pub open spec fn cookie(self, name: Seq<char>) -> Option<Seq<char>> {
        if self.cookies.contains_key(name) {
            Some(self.cookies[name])
        } else {
            None
        }
    }

    /// The first value of the query parameter `name`.
    pub open spec fn query_param(self, name: Seq<char>) -> Option<Seq<char>> {
        parameter(text::pieces(self.query, Separator::Char('&')), name)
    }

    /// The path segment that stands where the route pattern has the segment `param`.
    pub open spec fn path_param(self, param: Seq<char>) -> Option<Seq<char>> {
        match self.route_pattern {
            None => None,
            Some(pattern) => {
                let places = text::pieces(pattern, Separator::Char('/'));
                let segments = text::pieces(self.path, Separator::Char('/'));
                let at = place(places, param);
                if at < places.len() && at < segments.len() {
                    Some(segments[at])
                } else {
                    None
                }
            },
        }
    }
}

/// The value in the first segment that reads `name=value`, cut at its first `=`. A segment without
/// an `=` names nothing.
pub open spec fn parameter(segments: Seq<Seq<char>>, name: Seq<char>) -> Option<Seq<char>>
    decreases segments.len(),
{
    if segments.len() == 0 {
        None
    } else {
        match text::cut(segments[0], Separator::Char('=')) {
            Some((key, value)) if key == name => Some(value),
            _ => parameter(segments.drop_first(), name),
        }
    }
}

/// The index of the first member of `list` that is `wanted`, or its length when none is.
pub open spec fn place(list: Seq<Seq<char>>, wanted: Seq<char>) -> int
    decreases list.len(),
{
    if list.len() == 0 || list[0] == wanted {
        0
    } else {
        1 + place(list.drop_first(), wanted)
    }
}

impl View for AuthRequest {
    type V = RequestView;

    closed spec fn view(&self) -> RequestView {
        RequestView {
            method: self.method@,
            path: self.path@,
            route_pattern: text::optional(self.route_pattern),
            query: self.query@,
            headers: names::value_lists(self.headers@),
            cookies: self.cookies@.map_values(|value: String| value@),
        }
    }
}

impl Clone for AuthRequest {
    fn clone(&self) -> (copy: AuthRequest)
        ensures
            copy@ == self@,
    {
        let copy = AuthRequest {
            method: self.method.clone(),
            path: self.path.clone(),
            route_pattern: text::copy_optional(&self.route_pattern),
            query: self.query.clone(),
            headers: self.headers.clone(),
            cookies: self.cookies.clone(),
        };
        assert(copy@.cookies =~= self@.cookies);
        assert forall|name: Seq<char>| #[trigger] copy@.headers.contains_key(name) implies
            copy@.headers[name] == self@.headers[name] by {
            assert(copy.headers@.contains_key(name));
            assert(copy@.headers[name] =~= self@.headers[name]);
        }
        assert(copy@.headers =~= self@.headers);
        copy
    }
}

impl AuthRequest {
    /// Starts from a request in which nothing is filled in.
    pub fn builder() -> (builder: AuthRequestBuilder)
        ensures
            builder@ == RequestView::blank(),
    {
        AuthRequestBuilder { request: AuthRequest::default() }
    }

    /// The HTTP method, in upper case.
    pub fn method(&self) -> (method: &str)
        ensures
            method@ == self@.method,
    {
        self.method.as_str()
    }

    /// The concrete request path, such as `/admin/acme/workspaces`.
    pub fn path(&self) -> (path: &str)
        ensures
            path@ == self@.path,
    {
        self.path.as_str()
    }

    /// The matched route pattern, such as `/admin/{org_id}/workspaces`, when the framework
    /// resolved one. Scope resolvers should prefer it over the path: a rule on concrete paths is
    /// sensitive to identifiers that happen to contain a reserved word.
    pub fn route_pattern(&self) -> (pattern: Option<&str>)
        ensures
            text::optional_str(pattern) == self@.route_pattern,
    {
        text::as_deref(&self.route_pattern)
    }

    /// The raw query string, without the leading `?`.
    pub fn query(&self) -> (query: &str)
        ensures
            query@ == self@.query,
    {
        self.query.as_str()
    }

    /// The first value of the header `name`, whatever the case it is written in.
    pub fn header(&self, name: &str) -> (value: Option<&str>)
        ensures
            text::optional_str(value) == self@.header(name@),
    {
        match self.headers.get(text::to_ascii_lowercase(name).as_str()) {
            Some(values) => {
                assert(self@.header_values(name@) == text::texts(values@));
                if values.len() > 0 {
                    Some(values[0].as_str())
                } else {
                    None
                }
            },
            None => None,
        }
    }

    /// Every value of the header `name`, for headers that may repeat.
    pub fn header_all(&self, name: &str) -> (values: &[String])
        ensures
            text::texts(values@) == self@.header_values(name@),
    {
        match self.headers.get(text::to_ascii_lowercase(name).as_str()) {
            Some(values) => {
                assert(self@.header_values(name@) == text::texts(values@));
                values.as_slice()
            },
            None => {
                let values: &[String] = &[];
                assert(text::texts(values@) =~= self@.header_values(name@));
                values
            },
        }
    }

    /// The value of the cookie `name`.
    pub fn cookie(&self, name: &str) -> (value: Option<&str>)
        ensures
            text::optional_str(value) == self@.cookie(name@),
    {
        match self.cookies.get(name) {
            Some(value) => Some(value.as_str()),
            None => None,
        }
    }

    /// The first value of the query parameter `name`. The whole name must match, and a segment is
    /// cut at its first `=` only, so a value may contain `=`.
    pub fn query_param(&self, name: &str) -> (value: Option<&str>)
        ensures
            text::optional_str(value) == self@.query_param(name@),
    {
        let segments = text::split(self.query.as_str(), Separator::Char('&'));
        let ghost all = text::slices(segments@);
        let mut at: usize = 0;
        assert(all.subrange(0, all.len() as int) =~= all);
        while at < segments.len()
            invariant
                at <= segments.len(),
                all == text::slices(segments@),
                all == text::pieces(self@.query, Separator::Char('&')),
                parameter(all.subrange(at as int, all.len() as int), name@) == parameter(
                    all,
                    name@,
                ),
            decreases segments.len() - at,
        {
            let ghost rest = all.subrange(at as int, all.len() as int);
            assert(rest[0] == segments@[at as int]@);
            assert(rest.drop_first() =~= all.subrange(at + 1, all.len() as int));
            if let Some((key, value)) = text::split_once(segments[at], Separator::Char('=')) {
                if text::equal(key, name) {
                    return Some(value);
                }
            }
            at += 1;
        }
        None
    }

    /// Resolves a path parameter by laying the matched route pattern along the concrete path:
    /// `{org_id}` against the pattern `/admin/{org_id}/x` and the path `/admin/acme/x` is `acme`.
    pub fn path_param(&self, param: &str) -> (segment: Option<&str>)
        ensures
            text::optional_str(segment) == self@.path_param(param@),
    {
        let pattern = match &self.route_pattern {
            Some(pattern) => pattern.as_str(),
            None => {
                return None;
            },
        };
        let places = text::split(pattern, Separator::Char('/'));
        let segments = text::split(self.path.as_str(), Separator::Char('/'));
        let ghost all = text::slices(places@);
        let mut at: usize = 0;
        assert(all.subrange(0, all.len() as int) =~= all);
        while at < places.len() && !text::equal(places[at], param)
            invariant
                at <= places.len(),
                all == text::slices(places@),
                place(all, param@) == at + place(
                    all.subrange(at as int, all.len() as int),
                    param@,
                ),
            decreases places.len() - at,
        {
            let ghost rest = all.subrange(at as int, all.len() as int);
            assert(rest[0] == places@[at as int]@);
            assert(rest.drop_first() =~= all.subrange(at + 1, all.len() as int));
            at += 1;
        }
        proof {
            let rest = all.subrange(at as int, all.len() as int);
            if at < places.len() {
                assert(rest[0] == places@[at as int]@);
            }
            assert(place(all, param@) == at);
            assert(text::slices(segments@).len() == segments.len());
        }
        if at < places.len() && at < segments.len() {
            Some(segments[at])
        } else {
            None
        }
    }
}

impl Default for AuthRequestBuilder {
    fn default() -> (builder: AuthRequestBuilder)
        ensures
            builder@ == RequestView::blank(),
    {
        AuthRequest::builder()
    }
}

impl Default for AuthRequest {
    fn default() -> (request: AuthRequest)
        ensures
            request@ == RequestView::blank(),
    {
        let request = AuthRequest {
            method: String::new(),
            path: String::new(),
            route_pattern: None,
            query: String::new(),
            headers: NameMap::new(),
            cookies: NameMap::new(),
        };
        assert(request@.headers =~= Map::empty());
        assert(request@.cookies =~= Map::empty());
        request
    }
}

/// Builds an [`AuthRequest`]. Framework adapters own the mapping from their native request type
/// into this.
#[derive(Debug)]
pub struct AuthRequestBuilder {
    request: AuthRequest,
}

impl View for AuthRequestBuilder {
    type V = RequestView;

    /// The request as it stands.
    closed spec fn view(&self) -> RequestView {
        self.request@
    }
}

impl AuthRequestBuilder {
    pub fn method(self, method: &str) -> (builder: AuthRequestBuilder)
        ensures
            builder@ == (RequestView { method: text::uppercase(method@), ..self@ }),
    {
        let method = text::to_ascii_uppercase(method);
        AuthRequestBuilder { request: AuthRequest { method, ..self.request } }
    }

    pub fn path(self, path: &str) -> (builder: AuthRequestBuilder)
        ensures
            builder@ == (RequestView { path: path@, ..self@ }),
    {
        let path = String::from_str(path);
        AuthRequestBuilder { request: AuthRequest { path, ..self.request } }
    }

    pub fn route_pattern(self, pattern: Option<String>) -> (builder: AuthRequestBuilder)
        ensures
            builder@ == (RequestView { route_pattern: text::optional(pattern), ..self@ }),
    {
        AuthRequestBuilder { request: AuthRequest { route_pattern: pattern, ..self.request } }
    }

    pub fn query(self, query: &str) -> (builder: AuthRequestBuilder)
        ensures
            builder@ == (RequestView { query: query@, ..self@ }),
    {
        let query = String::from_str(query);
        AuthRequestBuilder { request: AuthRequest { query, ..self.request } }
    }

    /// Adds a header value behind those the name has, with the name in lower case.
    pub fn header(self, name: &str, value: &str) -> (builder: AuthRequestBuilder)
        ensures
            builder@ == self@.with_header(name@, value@),
    {
        let mut request = self.request;
        request.headers.append(text::to_ascii_lowercase(name).as_str(), value);
        AuthRequestBuilder { request }
    }

    /// Sets a cookie, in place of the value it had, if any.
    pub fn cookie(self, name: &str, value: &str) -> (builder: AuthRequestBuilder)
        ensures
            builder@ == self@.with_cookie(name@, value@),
    {
        let mut request = self.request;
        request.cookies.insert(name, String::from_str(value));
        assert(request@.cookies =~= self@.cookies.insert(name@, value@));
        AuthRequestBuilder { request }
    }

    pub fn build(self) -> (request: AuthRequest)
        ensures
            request@ == self@,
    {
        self.request
    }
}

/// Header lookup ignores the case of the name.
pub proof fn header_lookup_ignores_case(request: RequestView, one: Seq<char>, other: Seq<char>)
    requires
        text::lowercase(one) == text::lowercase(other),
    ensures
        request.header(one) == request.header(other),
        request.header_values(one) == request.header_values(other),
{
}

/// A header that was added is found under its name in any case, behind the values that the name
/// had; every other name keeps its values, and nothing else of the request changes.
pub proof fn added_header_is_found(
    builder: AuthRequestBuilder,
    name: &str,
    value: &str,
    filled: AuthRequestBuilder,
    asked: Seq<char>,
)
    requires
        call_ensures(AuthRequestBuilder::header, (builder, name, value), filled),
    ensures
        text::lowercase(asked) == text::lowercase(name@) ==> {
            &&& filled@.header_values(asked) == builder@.header_values(asked).push(value@)
            &&& filled@.header(asked) == if builder@.header(asked) is Some {
                builder@.header(asked)
            } else {
                Some(value@)
            }
        },
        text::lowercase(asked) != text::lowercase(name@) ==> filled@.header_values(asked)
            == builder@.header_values(asked) && filled@.header(asked) == builder@.header(asked),
        filled@.cookies == builder@.cookies,
        filled@.method == builder@.method && filled@.path == builder@.path,
        filled@.query == builder@.query && filled@.route_pattern == builder@.route_pattern,
{
}

/// A cookie that was set is found with its value, in place of the one it had; every other cookie
/// keeps its value, and nothing else of the request changes.
pub proof fn added_cookie_is_found(
    builder: AuthRequestBuilder,
    name: &str,
    value: &str,
    filled: AuthRequestBuilder,
    asked: Seq<char>,
)
    requires
        call_ensures(AuthRequestBuilder::cookie, (builder, name, value), filled),
    ensures
        filled@.cookie(name@) == Some(value@),
        asked != name@ ==> filled@.cookie(asked) == builder@.cookie(asked),
        filled@.headers == builder@.headers,
        filled@.method == builder@.method && filled@.path == builder@.path,
        filled@.query == builder@.query && filled@.route_pattern == builder@.route_pattern,
{
}

/// A request is built of what it was given: the method in capitals, and the rest as it is.
pub proof fn built_request_has_what_it_was_given(
    builder: AuthRequestBuilder,
    given: &str,
    pattern: Option<String>,
    method: AuthRequestBuilder,
    path: AuthRequestBuilder,
    route: AuthRequestBuilder,
    query: AuthRequestBuilder,
    request: AuthRequest,
)
    requires
        call_ensures(AuthRequestBuilder::method, (builder, given), method),
        call_ensures(AuthRequestBuilder::path, (builder, given), path),
        call_ensures(AuthRequestBuilder::route_pattern, (builder, pattern), route),
        call_ensures(AuthRequestBuilder::query, (builder, given), query),
        call_ensures(AuthRequestBuilder::build, (builder,), request),
    ensures
        path@ == (RequestView { path: given@, ..builder@ }),
        query@ == (RequestView { query: given@, ..builder@ }),
        route@ == (RequestView { route_pattern: text::optional(pattern), ..builder@ }),
        method@ == (RequestView { method: method@.method, ..builder@ }),
        method@.method.len() == given@.len(),
        forall|i: int|
            0 <= i < given@.len() ==> #[trigger] method@.method[i] as u32 == if 0x61
                <= given@[i] as u32 <= 0x7a {
                given@[i] as u32 - 0x20
            } else {
                given@[i] as int
            },
        request@ == builder@,
{
}

/// What a request is asked for is what it holds, whatever the case of a header's name.
pub proof fn request_answers_with_what_it_holds(
    request: AuthRequest,
    name: &str,
    method: &str,
    path: &str,
    pattern: Option<&str>,
    query: &str,
    header: Option<&str>,
    all: &[String],
    cookie: Option<&str>,
)
    requires
        call_ensures(AuthRequest::method, (&request,), method),
        call_ensures(AuthRequest::path, (&request,), path),
        call_ensures(AuthRequest::route_pattern, (&request,), pattern),
        call_ensures(AuthRequest::query, (&request,), query),
        call_ensures(AuthRequest::header, (&request, name), header),
        call_ensures(AuthRequest::header_all, (&request, name), all),
        call_ensures(AuthRequest::cookie, (&request, name), cookie),
    ensures
        method@ == request@.method && path@ == request@.path && query@ == request@.query,
        text::optional_str(pattern) == request@.route_pattern,
        (header is Some) == (all@.len() > 0),
        header is Some ==> header->Some_0@ == all@[0]@,
        request@.headers.contains_key(text::lowercase(name@)) ==> text::texts(all@)
            == request@.headers[text::lowercase(name@)],
        !request@.headers.contains_key(text::lowercase(name@)) ==> all@.len() == 0,
        (cookie is Some) == request@.cookies.contains_key(name@),
        cookie is Some ==> cookie->Some_0@ == request@.cookies[name@],
{
    assert(text::texts(all@).len() == all@.len());
    if all@.len() > 0 {
        assert(text::texts(all@)[0] == all@[0]@);
    }
}

proof fn lemma_parameter(segments: Seq<Seq<char>>, name: Seq<char>, at: int)
    requires
        0 <= at <= segments.len(),
        forall|i: int|
            0 <= i < at ==> !(text::cut(#[trigger] segments[i], Separator::Char('=')) matches Some(
                (key, _),
            ) && key == name),
    ensures
        at == segments.len() ==> parameter(segments, name) is None,
        at < segments.len() ==> match text::cut(segments[at], Separator::Char('=')) {
            Some((key, value)) => key == name ==> parameter(segments, name) == Some(value),
            None => true,
        },
    decreases at,
{
    if at > 0 {
        let rest = segments.drop_first();
        assert forall|i: int| 0 <= i < at - 1 implies !(text::cut(
            #[trigger] rest[i],
            Separator::Char('='),
        ) matches Some((key, _)) && key == name) by {
            assert(rest[i] == segments[i + 1]);
        }
        assert(!(text::cut(segments[0], Separator::Char('=')) matches Some((key, _)) && key
            == name));
        lemma_parameter(rest, name, at - 1);
        if at < segments.len() {
            assert(rest[at - 1] == segments[at]);
        }
    }
}

/// The query of some parameters: each name, an equals sign and the value, with ampersands between
/// them.
pub open spec fn written_query(names: Seq<Seq<char>>, values: Seq<Seq<char>>) -> Seq<char> {
    text::joined(
        Seq::new(names.len(), |i: int| names[i].push('=') + values[i]),
        '&',
    )
}

/// A query parameter is read back with its value, which may hold equals signs: the first one of
/// that very name, wherever it stands. A name that was not written is not found.
pub proof fn query_parameter_is_read_back(
    request: AuthRequest,
    name: &str,
    found: Option<&str>,
    names: Seq<Seq<char>>,
    values: Seq<Seq<char>>,
    at: int,
)
    requires
        call_ensures(AuthRequest::query_param, (&request, name), found),
        names.len() > 0 && values.len() == names.len(),
        request@.query == written_query(names, values),
        forall|i: int|
            0 <= i < names.len() ==> !(#[trigger] names[i]).contains('=') && !names[i].contains('&')
                && !values[i].contains('&'),
        0 <= at <= names.len(),
        forall|i: int| 0 <= i < at ==> #[trigger] names[i] != name@,
        at < names.len() ==> names[at] == name@,
    ensures
        at < names.len() ==> found is Some && found->Some_0@ == values[at],
        at == names.len() ==> found is None,
{
    let list = Seq::new(names.len(), |i: int| names[i].push('=') + values[i]);
    assert forall|i: int| 0 <= i < list.len() implies !(#[trigger] list[i]).contains('&') by {
        if list[i].contains('&') {
            let j = choose|j: int| 0 <= j < list[i].len() && list[i][j] == '&';
            if j < names[i].len() {
                assert(names[i][j] == '&');
            } else if j > names[i].len() {
                assert(values[i][j - names[i].len() - 1] == '&');
            }
        }
    }
    text::lemma_pieces_of_joined(list, '&');
    assert forall|i: int| 0 <= i < list.len() implies text::cut(
        #[trigger] list[i],
        Separator::Char('='),
    ) == Some((names[i], values[i])) by {
        assert forall|j: int| 0 <= j < names[i].len() implies !Separator::Char('=').splits(
            #[trigger] names[i][j],
        ) by {
            assert(names[i].contains(names[i][j]));
        }
        text::lemma_cut(names[i], '=', values[i], Separator::Char('='));
    }
    lemma_parameter(list, name@, at);
}

proof fn lemma_place(list: Seq<Seq<char>>, wanted: Seq<char>, at: int)
    requires
        0 <= at <= list.len(),
        forall|i: int| 0 <= i < at ==> #[trigger] list[i] != wanted,
        at < list.len() ==> list[at] == wanted,
    ensures
        place(list, wanted) == at,
    decreases at,
{
    if at > 0 {
        let rest = list.drop_first();
        assert forall|i: int| 0 <= i < at - 1 implies #[trigger] rest[i] != wanted by {
            assert(rest[i] == list[i + 1]);
        }
        lemma_place(rest, wanted, at - 1);
    }
}

/// A path parameter is the segment of the path that stands where the pattern first has the
/// parameter. Without a pattern, and where the pattern does not have it or the path is too short,
/// there is none.
pub proof fn path_parameter_is_the_segment_in_its_place(
    request: AuthRequest,
    param: &str,
    found: Option<&str>,
    places: Seq<Seq<char>>,
    segments: Seq<Seq<char>>,
    at: int,
)
    requires
        call_ensures(AuthRequest::path_param, (&request, param), found),
        places.len() > 0 && segments.len() > 0,
        forall|i: int| 0 <= i < places.len() ==> !(#[trigger] places[i]).contains('/'),
        forall|i: int| 0 <= i < segments.len() ==> !(#[trigger] segments[i]).contains('/'),
        request@.path == text::joined(segments, '/'),
        0 <= at <= places.len(),
        forall|i: int| 0 <= i < at ==> #[trigger] places[i] != param@,
        at < places.len() ==> places[at] == param@,
    ensures
        request@.route_pattern is None ==> found is None,
        request@.route_pattern == Some(text::joined(places, '/')) ==> {
            if at < places.len() && at < segments.len() {
                found is Some && found->Some_0@ == segments[at]
            } else {
                found is None
            }
        },
{
    text::lemma_pieces_of_joined(places, '/');
    text::lemma_pieces_of_joined(segments, '/');
    lemma_place(places, param@, at);
}

/// A copy of a request says the same, and one in which nothing was filled in says nothing.
pub proof fn copied_request_says_the_same(
    request: AuthRequest,
    copy: AuthRequest,
    fresh: AuthRequestBuilder,
    name: Seq<char>,
)
    requires
        call_ensures(<AuthRequest as Clone>::clone, (&request,), copy),
        call_ensures(AuthRequest::builder, (), fresh),
    ensures
        copy@ == request@,
        fresh@.header(name) is None && fresh@.cookie(name) is None,
        fresh@.path.len() == 0 && fresh@.query.len() == 0 && fresh@.method.len() == 0,
        fresh@.route_pattern is None,
{
}

/// A query without equals signs has no parameters.
pub proof fn no_parameter_without_an_equals_sign(
    request: AuthRequest,
    name: &str,
    found: Option<&str>,
)
    requires
        call_ensures(AuthRequest::query_param, (&request, name), found),
        !request@.query.contains('='),
    ensures
        found is None,
{
    let segments = text::pieces(request@.query, Separator::Char('&'));
    text::lemma_pieces_are_parts(request@.query, Separator::Char('&'));
    assert forall|i: int| 0 <= i < segments.len() implies text::cut(
        #[trigger] segments[i],
        Separator::Char('='),
    ) is None by {
        assert(!segments[i].contains('='));
        assert forall|j: int| 0 <= j < segments[i].len() implies !Separator::Char('=').splits(
            #[trigger] segments[i][j],
        ) by {
            assert(segments[i].contains(segments[i][j]));
        }
        text::lemma_uncut(segments[i], Separator::Char('='));
    }
    lemma_parameter(segments, name@, segments.len() as int);
}

/// A request that was told nothing has nothing.
pub proof fn request_is_blank_by_default(
    builder: AuthRequestBuilder,
    request: AuthRequest,
    name: Seq<char>,
)
    requires
        call_ensures(<AuthRequestBuilder as Default>::default, (), builder),
        call_ensures(<AuthRequest as Default>::default, (), request),
    ensures
        builder@ == request@,
        request@.method.len() == 0 && request@.path.len() == 0 && request@.query.len() == 0,
        request@.route_pattern is None,
        !request@.headers.contains_key(name) && !request@.cookies.contains_key(name),
{
}

/// A parameter of two queries with an ampersand between them is the one of the first where it has
/// one of that name, and else the one of the second.
pub proof fn ampersands_separate_parameters(
    request: AuthRequest,
    one: AuthRequest,
    two: AuthRequest,
    name: &str,
    found: Option<&str>,
    before: Option<&str>,
    behind: Option<&str>,
)
    requires
        call_ensures(AuthRequest::query_param, (&request, name), found),
        call_ensures(AuthRequest::query_param, (&one, name), before),
        call_ensures(AuthRequest::query_param, (&two, name), behind),
        request@.query == one@.query.push('&') + two@.query,
    ensures
        text::optional_str(found) == text::optional_str(
            if before is Some {
                before
            } else {
                behind
            },
        ),
{
    let sep = Separator::Char('&');
    text::lemma_pieces_of_two(one@.query, '&', two@.query, sep);
    lemma_parameter_of_two(text::pieces(one@.query, sep), text::pieces(two@.query, sep), name@);
}

proof fn lemma_parameter_of_two(one: Seq<Seq<char>>, two: Seq<Seq<char>>, name: Seq<char>)
    ensures
        parameter(one + two, name) == if parameter(one, name) is Some {
            parameter(one, name)
        } else {
            parameter(two, name)
        },
    decreases one.len(),
{
    if one.len() > 0 {
        assert((one + two).drop_first() =~= one.drop_first() + two);
        lemma_parameter_of_two(one.drop_first(), two, name);
    } else {
        assert(one + two =~= two);
    }
}

} // verus!
