//! What every framework adapter does: build an [`AuthRequest`] from the framework's native request,
//! and render an [`AuthError`] as the framework's native response. No authentication logic lives
//! here.
use vstd::prelude::*;

use crate::cookie::{self, CookieDirective, CookieView};
use crate::error::{AuthError, AuthErrorView};
use crate::request::{AuthRequest, AuthRequestBuilder, RequestView};
use crate::text::{self, Separator};

verus! {

/// A request with all these headers added, in order.
pub open spec fn with_headers(
    request: RequestView,
    headers: Seq<(Seq<char>, Seq<char>)>,
) -> RequestView
    decreases headers.len(),
{
    if headers.len() == 0 {
        request
    } else {
        with_headers(request, headers.drop_last()).with_header(
            headers.last().0,
            headers.last().1,
        )
    }
}

/// A request with all these cookies set, in order.
pub open spec fn with_cookies(
    request: RequestView,
    cookies: Seq<(Seq<char>, Seq<char>)>,
) -> RequestView
    decreases cookies.len(),
{
    if cookies.len() == 0 {
        request
    } else {
        with_cookies(request, cookies.drop_last()).with_cookie(
            cookies.last().0,
            cookies.last().1,
        )
    }
}

/// Builds a request from the fields that a framework copied out of its own.
pub fn translate_request(
    method: &str,
    path: &str,
    route_pattern: Option<String>,
    query: &str,
    headers: &Vec<(String, String)>,
    cookies: &Vec<(String, String)>,
) -> (request: AuthRequest)
    ensures
        request@ == with_cookies(
            with_headers(
                RequestView {
                    method: text::uppercase(method@),
                    path: path@,
                    route_pattern: text::optional(route_pattern),
                    query: query@,
                    ..RequestView::blank()
                },
                text::pair_texts(headers@),
            ),
            text::pair_texts(cookies@),
        ),
{
    let builder = AuthRequest::builder();
    let builder = builder.method(method);
    let builder = builder.path(path);
    let builder = builder.route_pattern(route_pattern);
    let builder = builder.query(query);
    add_cookies(add_headers(builder, headers), cookies).build()
}

fn add_headers(builder: AuthRequestBuilder, headers: &Vec<(String, String)>) -> (filled:
    AuthRequestBuilder)
    ensures
        filled@ == with_headers(builder@, text::pair_texts(headers@)),
{
    let ghost all = text::pair_texts(headers@);
    let mut filled = builder;
    let mut at: usize = 0;
    while at < headers.len()
        invariant
            at <= headers.len(),
            all == text::pair_texts(headers@),
            filled@ == with_headers(builder@, all.subrange(0, at as int)),
        decreases headers.len() - at,
    {
        let (name, value) = &headers[at];
        filled = filled.header(name.as_str(), value.as_str());
        at += 1;
        assert(all.subrange(0, at as int).drop_last() =~= all.subrange(0, at - 1));
        assert(all.subrange(0, at as int).last() == (name@, value@));
    }
    assert(all.subrange(0, at as int) =~= all);
    filled
}

fn add_cookies(builder: AuthRequestBuilder, cookies: &Vec<(String, String)>) -> (filled:
    AuthRequestBuilder)
    ensures
        filled@ == with_cookies(builder@, text::pair_texts(cookies@)),
{
    let ghost all = text::pair_texts(cookies@);
    let mut filled = builder;
    let mut at: usize = 0;
    while at < cookies.len()
        invariant
            at <= cookies.len(),
            all == text::pair_texts(cookies@),
            filled@ == with_cookies(builder@, all.subrange(0, at as int)),
        decreases cookies.len() - at,
    {
        let (name, value) = &cookies[at];
        filled = filled.cookie(name.as_str(), value.as_str());
        at += 1;
        assert(all.subrange(0, at as int).drop_last() =~= all.subrange(0, at - 1));
        assert(all.subrange(0, at as int).last() == (name@, value@));
    }
    assert(all.subrange(0, at as int) =~= all);
    filled
}

/// The name and value in one segment of a `Cookie` header: what stands before and after its first
/// `=`, without the white space around the segment.
pub open spec fn cookie_in(segment: Seq<char>) -> Option<(Seq<char>, Seq<char>)> {
    text::cut(text::trimmed(segment), Separator::Char('='))
}

/// The cookies in the segments of a header. A segment without an `=` is no cookie.
pub open spec fn segment_cookies(segments: Seq<Seq<char>>) -> Seq<(Seq<char>, Seq<char>)>
    decreases segments.len(),
{
    if segments.len() == 0 {
        Seq::empty()
    } else {
        match cookie_in(segments.last()) {
            Some(pair) => segment_cookies(segments.drop_last()).push(pair),
            None => segment_cookies(segments.drop_last()),
        }
    }
}

/// The cookies in the values of a request's `Cookie` headers.
pub open spec fn header_cookies(values: Seq<Seq<char>>) -> Seq<(Seq<char>, Seq<char>)>
    decreases values.len(),
{
    if values.len() == 0 {
        Seq::empty()
    } else {
        header_cookies(values.drop_last()) + segment_cookies(
            text::pieces(values.last(), Separator::Char(';')),
        )
    }
}

/// Reads the cookies of a request from the values of its `Cookie` headers, for frameworks that do
/// not model cookies: RFC 6265 section 4.2.1, `name=value` pairs separated by `"; "`.
pub fn cookies_from_headers(values: &Vec<String>) -> (pairs: Vec<(String, String)>)
    ensures
        text::pair_texts(pairs@) == header_cookies(text::texts(values@)),
{
    let ghost all = text::texts(values@);
    let mut pairs: Vec<(String, String)> = Vec::new();
    let mut at: usize = 0;
    assert(text::pair_texts(pairs@) =~= header_cookies(all.subrange(0, 0)));
    while at < values.len()
        invariant
            at <= values.len(),
            all == text::texts(values@),
            text::pair_texts(pairs@) == header_cookies(all.subrange(0, at as int)),
        decreases values.len() - at,
    {
        push_cookies(&mut pairs, values[at].as_str());
        at += 1;
        assert(all.subrange(0, at as int).drop_last() =~= all.subrange(0, at - 1));
        assert(all.subrange(0, at as int).last() == values@[at - 1]@);
    }
    assert(all.subrange(0, at as int) =~= all);
    pairs
}

fn push_cookies(pairs: &mut Vec<(String, String)>, value: &str)
    ensures
        text::pair_texts(final(pairs)@) == text::pair_texts(old(pairs)@) + segment_cookies(
            text::pieces(value@, Separator::Char(';')),
        ),
{
    let segments = text::split(value, Separator::Char(';'));
    let ghost all = text::slices(segments@);
    let ghost start = text::pair_texts(pairs@);
    let mut at: usize = 0;
    assert(text::pair_texts(pairs@) =~= start + segment_cookies(all.subrange(0, 0)));
    while at < segments.len()
        invariant
            at <= segments.len(),
            all == text::slices(segments@),
            text::pair_texts(pairs@) == start + segment_cookies(all.subrange(0, at as int)),
        decreases segments.len() - at,
    {
        let ghost before = pairs@;
        let found = text::split_once(text::trim(segments[at]), Separator::Char('='));
        if let Some((name, value)) = found {
            pairs.push((String::from_str(name), String::from_str(value)));
            assert(text::pair_texts(pairs@) =~= text::pair_texts(before).push((name@, value@)));
        }
        at += 1;
        proof {
            let taken = all.subrange(0, at as int);
            assert(taken.drop_last() =~= all.subrange(0, at - 1));
            assert(taken.last() == segments@[at - 1]@);
            assert(text::pair_texts(pairs@) =~= start + segment_cookies(taken));
        }
    }
    assert(all.subrange(0, at as int) =~= all);
}

/// An HTTP response that reports a failure.
#[derive(Debug)]
pub struct ErrorResponse {
    pub status: u16,
    /// Where a redirect leads.
    pub location: Option<String>,
    /// The cookies a redirect sets.
    pub cookies: Vec<CookieDirective>,
    /// The `message` member of the JSON body; a redirect has no body.
    pub message: Option<&'static str>,
    /// Whether the detail is logged as an error, and not for debugging only.
    pub is_service_fault: bool,
}

/// What an [`ErrorResponse`] says.
pub ghost struct ResponseView {
    pub status: u16,
    pub location: Option<Seq<char>>,
    pub cookies: Seq<CookieView>,
    pub message: Option<Seq<char>>,
    pub is_service_fault: bool,
}

impl View for ErrorResponse {
    type V = ResponseView;

    open spec fn view(&self) -> ResponseView {
        ResponseView {
            status: self.status,
            location: text::optional(self.location),
            cookies: cookie::cookie_views(self.cookies@),
            message: text::optional_str(self.message),
            is_service_fault: self.is_service_fault,
        }
    }
}

/// How a failure is rendered: a redirect by its location and cookies, anything else by its status
/// and client-facing message.
pub open spec fn rendered(error: AuthErrorView) -> ResponseView {
    match error {
        AuthErrorView::Redirect { location, cookies } => ResponseView {
            status: 302,
            location: Some(location),
            cookies,
            message: None,
            is_service_fault: false,
        },
        _ => ResponseView {
            status: error.status(),
            location: None,
            cookies: Seq::empty(),
            message: Some(error.client_message()),
            is_service_fault: error.is_service_fault(),
        },
    }
}

/// Renders a failure. Only the client-facing message reaches the client; the detail is for the
/// log.
pub fn error_to_response(error: &AuthError) -> (response: ErrorResponse)
    ensures
        response@ == rendered(error@),
{
    match error {
        AuthError::Redirect { location, cookies } => ErrorResponse {
            status: error.status(),
            location: Some(location.clone()),
            cookies: copy_cookies(cookies),
            message: None,
            is_service_fault: error.is_service_fault(),
        },
        _ => {
            let response = ErrorResponse {
                status: error.status(),
                location: None,
                cookies: Vec::new(),
                message: Some(error.client_message()),
                is_service_fault: error.is_service_fault(),
            };
            assert(response@.cookies =~= Seq::empty());
            response
        },
    }
}

fn copy_cookies(cookies: &Vec<CookieDirective>) -> (copy: Vec<CookieDirective>)
    ensures
        cookie::cookie_views(copy@) == cookie::cookie_views(cookies@),
{
    let mut copy: Vec<CookieDirective> = Vec::new();
    let mut at: usize = 0;
    while at < cookies.len()
        invariant
            at <= cookies.len(),
            copy.len() == at,
            forall|i: int| 0 <= i < at ==> (#[trigger] copy@[i])@ == cookies@[i]@,
        decreases cookies.len() - at,
    {
        copy.push(cookies[at].clone());
        at += 1;
    }
    assert(cookie::cookie_views(copy@) =~= cookie::cookie_views(cookies@));
    copy
}

/// The operator's detail never reaches the client: failures of the same kind are rendered alike
/// whatever their detail. A redirect carries no detail but its location.
pub proof fn response_hides_the_detail(error: AuthErrorView, other: Seq<char>)
    requires
        !(error is Redirect),
    ensures
        rendered(error.with_detail(other)) == rendered(error),
{
}

/// Where a redirect leads and which cookies it sets reaches the client as it is; any other failure
/// reaches it as its status and message, and sets no cookie.
pub proof fn response_carries_the_redirect(error: AuthError, response: ErrorResponse)
    requires
        call_ensures(error_to_response, (&error,), response),
    ensures
        response.status == error@.status(),
        response.is_service_fault == error@.is_service_fault(),
        match error {
            AuthError::Redirect { location, cookies } => {
                &&& response.location is Some && response.location->Some_0@ == location@
                &&& cookie::cookie_views(response.cookies@) == cookie::cookie_views(cookies@)
                &&& response.message is None
            },
            _ => {
                &&& response.location is None
                &&& response.cookies.len() == 0
                &&& response.message is Some && response.message->Some_0@
                    == error@.client_message()
            },
        },
{
    assert(cookie::cookie_views(response.cookies@).len() == response.cookies.len());
    assert(response@.location == text::optional(response.location));
    assert(response@.message == text::optional_str(response.message));
}

proof fn lemma_with_headers(
    request: RequestView,
    headers: Seq<(Seq<char>, Seq<char>)>,
    name: Seq<char>,
    at: int,
)
    requires
        0 <= at <= headers.len(),
        forall|i: int|
            0 <= i < at ==> text::lowercase((#[trigger] headers[i]).0) != text::lowercase(name),
        at < headers.len() ==> text::lowercase(headers[at].0) == text::lowercase(name),
        request.header(name) is None,
    ensures
        at < headers.len() ==> with_headers(request, headers).header(name) == Some(headers[at].1),
        at == headers.len() ==> with_headers(request, headers).header(name) is None,
        with_headers(request, headers).cookies == request.cookies,
        with_headers(request, headers).method == request.method,
        with_headers(request, headers).path == request.path,
        with_headers(request, headers).query == request.query,
        with_headers(request, headers).route_pattern == request.route_pattern,
    decreases headers.len(),
{
    if headers.len() > 0 {
        let front = headers.drop_last();
        assert(headers.last() == headers[headers.len() - 1]);
        let reach = if at < front.len() {
            at
        } else {
            front.len() as int
        };
        assert forall|i: int| 0 <= i < reach implies text::lowercase((#[trigger] front[i]).0)
            != text::lowercase(name) by {
            assert(front[i] == headers[i]);
        }
        if reach < front.len() {
            assert(front[reach] == headers[at]);
        }
        lemma_with_headers(request, front, name, reach);
    }
}

proof fn lemma_with_cookies(
    request: RequestView,
    cookies: Seq<(Seq<char>, Seq<char>)>,
    name: Seq<char>,
    at: int,
)
    requires
        -1 <= at < cookies.len(),
        forall|i: int| at < i < cookies.len() ==> (#[trigger] cookies[i]).0 != name,
        at >= 0 ==> cookies[at].0 == name,
    ensures
        at >= 0 ==> with_cookies(request, cookies).cookie(name) == Some(cookies[at].1),
        at < 0 ==> with_cookies(request, cookies).cookie(name) == request.cookie(name),
        with_cookies(request, cookies).headers == request.headers,
        with_cookies(request, cookies).method == request.method,
        with_cookies(request, cookies).path == request.path,
        with_cookies(request, cookies).query == request.query,
        with_cookies(request, cookies).route_pattern == request.route_pattern,
    decreases cookies.len(),
{
    if cookies.len() > 0 {
        let front = cookies.drop_last();
        assert(cookies.last() == cookies[cookies.len() - 1]);
        let reach = if at < front.len() {
            at
        } else {
            last_named(front, name)
        };
        if at == cookies.len() - 1 {
            lemma_last_named(front, name);
        }
        assert forall|i: int| reach < i < front.len() implies (#[trigger] front[i]).0 != name by {
            if at < front.len() {
                assert(front[i] == cookies[i]);
            }
        }
        if reach >= 0 && at < front.len() {
            assert(front[reach] == cookies[at]);
        }
        lemma_with_cookies(request, front, name, reach);
    }
}

spec fn last_named(pairs: Seq<(Seq<char>, Seq<char>)>, name: Seq<char>) -> int
    decreases pairs.len(),
{
    if pairs.len() == 0 {
        -1
    } else if pairs.last().0 == name {
        pairs.len() - 1
    } else {
        last_named(pairs.drop_last(), name)
    }
}

proof fn lemma_last_named(pairs: Seq<(Seq<char>, Seq<char>)>, name: Seq<char>)
    ensures
        -1 <= last_named(pairs, name) < pairs.len(),
        last_named(pairs, name) >= 0 ==> pairs[last_named(pairs, name)].0 == name,
        forall|i: int|
            last_named(pairs, name) < i < pairs.len() ==> (#[trigger] pairs[i]).0 != name,
    decreases pairs.len(),
{
    if pairs.len() > 0 && pairs.last().0 != name {
        let front = pairs.drop_last();
        lemma_last_named(front, name);
        assert forall|i: int| last_named(pairs, name) < i < pairs.len() implies (
        #[trigger] pairs[i]).0 != name by {
            if i < front.len() {
                assert(front[i] == pairs[i]);
            }
        }
    }
}

/// A request says what the framework's own says: a header has the first value that was sent under
/// its name in any case, and a cookie the last value that was sent under its name.
pub proof fn translated_request_says_the_same(
    method: &str,
    path: &str,
    pattern: Option<String>,
    query: &str,
    headers: Vec<(String, String)>,
    cookies: Vec<(String, String)>,
    request: AuthRequest,
    name: Seq<char>,
    first: int,
    last: int,
)
    requires
        call_ensures(
            translate_request,
            (method, path, pattern, query, &headers, &cookies),
            request,
        ),
        0 <= first <= headers.len(),
        forall|i: int|
            0 <= i < first ==> text::lowercase((#[trigger] headers@[i]).0@) != text::lowercase(name),
        first < headers.len() ==> text::lowercase(headers@[first].0@) == text::lowercase(name),
        -1 <= last < cookies.len(),
        forall|i: int| last < i < cookies.len() ==> (#[trigger] cookies@[i]).0@ != name,
        last >= 0 ==> cookies@[last].0@ == name,
    ensures
        first < headers.len() ==> request@.header(name) == Some(headers@[first].1@),
        first == headers.len() ==> request@.header(name) is None,
        last >= 0 ==> request@.cookie(name) == Some(cookies@[last].1@),
        last < 0 ==> request@.cookie(name) is None,
        request@.path == path@ && request@.query == query@,
        request@.route_pattern == text::optional(pattern),
        request@.method == text::uppercase(method@),
{
    let bare = RequestView {
        method: text::uppercase(method@),
        path: path@,
        route_pattern: text::optional(pattern),
        query: query@,
        ..RequestView::blank()
    };
    let named = text::pair_texts(headers@);
    let set = text::pair_texts(cookies@);
    assert forall|i: int| 0 <= i < first implies text::lowercase((#[trigger] named[i]).0)
        != text::lowercase(name) by {
        assert(named[i].0 == headers@[i].0@);
    }
    lemma_with_headers(bare, named, name, first);
    assert forall|i: int| last < i < set.len() implies (#[trigger] set[i]).0 != name by {
        assert(set[i].0 == cookies@[i].0@);
    }
    lemma_with_cookies(with_headers(bare, named), set, name, last);
}

/// How a browser writes a cookie.
pub open spec fn written_cookie(pair: (Seq<char>, Seq<char>)) -> Seq<char> {
    pair.0.push('=') + pair.1
}

/// How a browser writes its cookies into one header: a semicolon and a blank between each two.
pub open spec fn written_segments(pairs: Seq<(Seq<char>, Seq<char>)>) -> Seq<Seq<char>> {
    Seq::new(
        pairs.len(),
        |i: int|
            if i == 0 {
                written_cookie(pairs[i])
            } else {
                seq![' '] + written_cookie(pairs[i])
            },
    )
}

proof fn lemma_segment_cookies(segments: Seq<Seq<char>>, pairs: Seq<(Seq<char>, Seq<char>)>)
    requires
        segments.len() == pairs.len(),
        forall|i: int| 0 <= i < pairs.len() ==> cookie_in(#[trigger] segments[i]) == Some(pairs[i]),
    ensures
        segment_cookies(segments) == pairs,
    decreases segments.len(),
{
    if segments.len() > 0 {
        let front = segments.drop_last();
        assert forall|i: int| 0 <= i < front.len() implies cookie_in(#[trigger] front[i]) == Some(
            pairs.drop_last()[i],
        ) by {
            assert(front[i] == segments[i]);
        }
        lemma_segment_cookies(front, pairs.drop_last());
        assert(cookie_in(segments.last()) == Some(pairs.last()));
        assert(pairs.drop_last().push(pairs.last()) =~= pairs);
    } else {
        assert(segment_cookies(segments) =~= pairs);
    }
}

/// The cookies that a browser writes into a header are read back, each with its name and its value,
/// in order; a value may hold equals signs.
pub proof fn written_cookies_are_read_back(
    values: Vec<String>,
    found: Vec<(String, String)>,
    pairs: Seq<(Seq<char>, Seq<char>)>,
)
    requires
        call_ensures(cookies_from_headers, (&values,), found),
        values.len() == 1,
        pairs.len() > 0,
        values@[0]@ == text::joined(written_segments(pairs), ';'),
        forall|i: int|
            0 <= i < pairs.len() ==> (#[trigger] pairs[i]).0.len() > 0 && !pairs[i].0.contains('=')
                && !pairs[i].0.contains(';') && !pairs[i].1.contains(';'),
        forall|i: int|
            0 <= i < pairs.len() ==> !text::is_white_space((#[trigger] pairs[i]).0[0]) && (
            pairs[i].1.len() > 0 ==> !text::is_white_space(pairs[i].1.last())),
    ensures
        text::pair_texts(found@) == pairs,
{
    let segments = written_segments(pairs);
    assert forall|i: int| 0 <= i < segments.len() implies !(#[trigger] segments[i]).contains(';') by {
        if segments[i].contains(';') {
            let shift: int = if i == 0 { 0 } else { 1 };
            let j = choose|j: int| 0 <= j < segments[i].len() && segments[i][j] == ';';
            let k = j - shift;
            assert(k >= 0 ==> written_cookie(pairs[i])[k] == segments[i][j]);
            if 0 <= k < pairs[i].0.len() {
                assert(pairs[i].0[k] == ';');
            } else if k > pairs[i].0.len() {
                assert(pairs[i].1[k - pairs[i].0.len() - 1] == ';');
            }
        }
    }
    text::lemma_pieces_of_joined(segments, ';');
    assert forall|i: int| 0 <= i < segments.len() implies cookie_in(#[trigger] segments[i]) == Some(
        pairs[i],
    ) by {
        let core = written_cookie(pairs[i]);
        let lead: Seq<char> = if i == 0 {
            Seq::empty()
        } else {
            seq![' ']
        };
        assert(segments[i] =~= lead + core + Seq::<char>::empty());
        assert(core[0] == pairs[i].0[0]);
        assert(pairs[i].1.len() > 0 ==> core.last() == pairs[i].1.last());
        assert(pairs[i].1.len() == 0 ==> core.last() == '=');
        text::lemma_trimmed(lead, core, Seq::empty());
        assert forall|j: int| 0 <= j < pairs[i].0.len() implies !Separator::Char('=').splits(
            #[trigger] pairs[i].0[j],
        ) by {
            assert(pairs[i].0.contains(pairs[i].0[j]));
        }
        text::lemma_cut(pairs[i].0, '=', pairs[i].1, Separator::Char('='));
    }
    lemma_segment_cookies(segments, pairs);
    let all = text::texts(values@);
    assert(all.len() == 1 && all.last() == values@[0]@);
    assert(all.drop_last() =~= Seq::<Seq<char>>::empty());
    reveal_with_fuel(header_cookies, 2);
    assert(Seq::<(Seq<char>, Seq<char>)>::empty() + pairs =~= pairs);
}

/// The cookies of several headers are those of each, in order.
pub proof fn headers_add_up(
    values: Vec<String>,
    found: Vec<(String, String)>,
    front: Vec<String>,
    before: Vec<(String, String)>,
    last: Vec<String>,
    more: Vec<(String, String)>,
)
    requires
        call_ensures(cookies_from_headers, (&values,), found),
        call_ensures(cookies_from_headers, (&front,), before),
        call_ensures(cookies_from_headers, (&last,), more),
        last.len() == 1,
        text::texts(values@) == text::texts(front@).push(last@[0]@),
    ensures
        text::pair_texts(found@) == text::pair_texts(before@) + text::pair_texts(more@),
{
    let all = text::texts(values@);
    let one = text::texts(last@);
    assert(one.len() == 1 && one.last() == last@[0]@);
    assert(one.drop_last() =~= Seq::<Seq<char>>::empty());
    assert(all.drop_last() =~= text::texts(front@));
    reveal_with_fuel(header_cookies, 2);
    assert(header_cookies(one) =~= segment_cookies(text::pieces(one.last(), Separator::Char(';'))));
}

/// What has no equals sign is no cookie.
pub proof fn no_cookie_without_an_equals_sign(
    values: Vec<String>,
    found: Vec<(String, String)>,
)
    requires
        call_ensures(cookies_from_headers, (&values,), found),
        forall|i: int| 0 <= i < values.len() ==> !(#[trigger] values@[i])@.contains('='),
    ensures
        found.len() == 0,
{
    let all = text::texts(values@);
    assert forall|i: int| 0 <= i < all.len() implies !(#[trigger] all[i]).contains('=') by {
        assert(all[i] == values@[i]@);
    }
    lemma_no_cookies(all);
    assert(text::pair_texts(found@).len() == found.len());
}

proof fn lemma_no_cookies(values: Seq<Seq<char>>)
    requires
        forall|i: int| 0 <= i < values.len() ==> !(#[trigger] values[i]).contains('='),
    ensures
        header_cookies(values).len() == 0,
    decreases values.len(),
{
    if values.len() > 0 {
        let front = values.drop_last();
        assert forall|i: int| 0 <= i < front.len() implies !(#[trigger] front[i]).contains('=') by {
            assert(front[i] == values[i]);
        }
        lemma_no_cookies(front);
        assert(values[values.len() - 1] == values.last());
        let segments = text::pieces(values.last(), Separator::Char(';'));
        text::lemma_pieces_are_parts(values.last(), Separator::Char(';'));
        lemma_no_segment_cookies(segments);
    }
}

proof fn lemma_no_segment_cookies(segments: Seq<Seq<char>>)
    requires
        forall|i: int| 0 <= i < segments.len() ==> !(#[trigger] segments[i]).contains('='),
    ensures
        segment_cookies(segments).len() == 0,
    decreases segments.len(),
{
    if segments.len() > 0 {
        let front = segments.drop_last();
        assert forall|i: int| 0 <= i < front.len() implies !(#[trigger] front[i]).contains('=') by {
            assert(front[i] == segments[i]);
        }
        lemma_no_segment_cookies(front);
        let last = segments[segments.len() - 1];
        assert(last == segments.last());
        let start = text::lemma_trimmed_parts(last);
        let core = text::trimmed(last);
        assert forall|i: int| 0 <= i < core.len() implies !Separator::Char('=').splits(
            #[trigger] core[i],
        ) by {
            assert(core[i] == last[start + i]);
            assert(last.contains(last[start + i]));
        }
        text::lemma_uncut(core, Separator::Char('='));
    }
}

/// The cookies on both sides of a semicolon are those of the one side and of the other.
pub proof fn semicolons_separate_cookies(
    values: Vec<String>,
    found: Vec<(String, String)>,
    one: Vec<String>,
    before: Vec<(String, String)>,
    two: Vec<String>,
    behind: Vec<(String, String)>,
)
    requires
        call_ensures(cookies_from_headers, (&values,), found),
        call_ensures(cookies_from_headers, (&one,), before),
        call_ensures(cookies_from_headers, (&two,), behind),
        values.len() == 1 && one.len() == 1 && two.len() == 1,
        values@[0]@ == one@[0]@.push(';') + two@[0]@,
    ensures
        text::pair_texts(found@) == text::pair_texts(before@) + text::pair_texts(behind@),
{
    let sep = Separator::Char(';');
    lemma_one_header(values);
    lemma_one_header(one);
    lemma_one_header(two);
    text::lemma_pieces_of_two(one@[0]@, ';', two@[0]@, sep);
    lemma_segment_cookies_of_two(text::pieces(one@[0]@, sep), text::pieces(two@[0]@, sep));
}

/// A header without a semicolon is one cookie, named by what stands before its first equals sign,
/// with what stands behind it for a value, whatever white space is around the two.
pub proof fn lone_cookie_is_read_back(
    values: Vec<String>,
    found: Vec<(String, String)>,
    lead: Seq<char>,
    name: Seq<char>,
    value: Seq<char>,
    trail: Seq<char>,
)
    requires
        call_ensures(cookies_from_headers, (&values,), found),
        values.len() == 1,
        values@[0]@ == lead + (name.push('=') + value) + trail,
        text::is_blank(lead) && text::is_blank(trail) && text::is_bare(name.push('=') + value),
        !values@[0]@.contains(';') && !name.contains('='),
    ensures
        found.len() == 1 && found@[0].0@ == name && found@[0].1@ == value,
{
    let header = values@[0]@;
    let core = name.push('=') + value;
    lemma_one_header(values);
    assert forall|i: int| 0 <= i < header.len() implies !Separator::Char(';').splits(
        #[trigger] header[i],
    ) by {
        assert(header.contains(header[i]));
    }
    text::lemma_uncut(header, Separator::Char(';'));
    text::lemma_trimmed(lead, core, trail);
    assert forall|i: int| 0 <= i < name.len() implies !Separator::Char('=').splits(
        #[trigger] name[i],
    ) by {
        assert(name.contains(name[i]));
    }
    text::lemma_cut(name, '=', value, Separator::Char('='));
    let segments = text::pieces(header, Separator::Char(';'));
    assert(segments == seq![header]);
    assert(segments.drop_last() =~= Seq::<Seq<char>>::empty());
    reveal_with_fuel(segment_cookies, 2);
    let pairs = text::pair_texts(found@);
    assert(pairs.len() == found.len());
    assert(pairs[0] == (found@[0].0@, found@[0].1@));
}

proof fn lemma_one_header(values: Vec<String>)
    requires
        values.len() == 1,
    ensures
        header_cookies(text::texts(values@)) == segment_cookies(
            text::pieces(values@[0]@, Separator::Char(';')),
        ),
{
    let all = text::texts(values@);
    assert(all.len() == 1 && all.last() == values@[0]@);
    assert(all.drop_last() =~= Seq::<Seq<char>>::empty());
    reveal_with_fuel(header_cookies, 2);
    assert(header_cookies(all) =~= segment_cookies(
        text::pieces(values@[0]@, Separator::Char(';')),
    ));
}

proof fn lemma_segment_cookies_of_two(one: Seq<Seq<char>>, two: Seq<Seq<char>>)
    ensures
        segment_cookies(one + two) == segment_cookies(one) + segment_cookies(two),
    decreases two.len(),
{
    if two.len() > 0 {
        assert((one + two).drop_last() =~= one + two.drop_last());
        assert((one + two).last() == two.last());
        lemma_segment_cookies_of_two(one, two.drop_last());
        assert(segment_cookies(one + two) =~= segment_cookies(one) + segment_cookies(two));
    } else {
        assert(one + two =~= one);
        assert(segment_cookies(one + two) =~= segment_cookies(one) + segment_cookies(two));
    }
}

} // verus!
