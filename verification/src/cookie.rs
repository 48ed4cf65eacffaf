//! A framework-neutral description of a cookie to set or clear.
//!
//! Authentication flows emit cookies (a session, a protection cookie for a login under way) from
//! code that knows no web framework. An error that redirects and a completed login carry these,
//! and the framework adapter renders them.
use vstd::prelude::*;

use crate::text;
use crate::time::{self, Duration};

verus! {

/// The `SameSite` attribute.
#[derive(Clone, Copy, Debug, PartialEq, Eq)]
pub enum SameSite {
    Strict,
    Lax,
    /// Rendered as `None`: the cookie goes along with cross-site requests.
    Unrestricted,
}

/// The attribute value of RFC 6265bis.
pub open spec fn same_site_text(same_site: SameSite) -> Seq<char> {
    match same_site {
        SameSite::Strict => "Strict"@,
        SameSite::Lax => "Lax"@,
        SameSite::Unrestricted => "None"@,
    }
}

impl SameSite {
    /// The attribute value of RFC 6265bis.
    pub fn as_str(&self) -> (name: &'static str)
        ensures
            name@ == same_site_text(*self),
    {
        match self {
            SameSite::Strict => "Strict",
            SameSite::Lax => "Lax",
            SameSite::Unrestricted => "None",
        }
    }

    /// The attribute value of RFC 6265bis.
    pub fn to_string(&self) -> (name: String)
        ensures
            name@ == same_site_text(*self),
    {
        String::from_str(self.as_str())
    }
}

/// A cookie the caller should set on the outgoing response.
#[derive(Debug)]
pub struct CookieDirective {
    pub name: String,
    pub value: String,
    pub path: Option<String>,
    pub domain: Option<String>,
    pub max_age: Option<Duration>,
    pub http_only: bool,
    pub secure: bool,
    pub same_site: Option<SameSite>,
}

/// What a [`CookieDirective`] says; `max_age` in nanoseconds.
pub ghost struct CookieView {
    pub name: Seq<char>,
    pub value: Seq<char>,
    pub path: Option<Seq<char>>,
    pub domain: Option<Seq<char>>,
    pub max_age: Option<nat>,
    pub http_only: bool,
    pub secure: bool,
    pub same_site: Option<SameSite>,
}

impl View for CookieDirective {
    type V = CookieView;

    open spec fn view(&self) -> CookieView {
        CookieView {
            name: self.name@,
            value: self.value@,
            path: text::optional(self.path),
            domain: text::optional(self.domain),
            max_age: time::optional_span(self.max_age),
            http_only: self.http_only,
            secure: self.secure,
            same_site: self.same_site,
        }
    }
}

/// What a list of directives says.
pub open spec fn cookie_views(cookies: Seq<CookieDirective>) -> Seq<CookieView> {
    cookies.map_values(|cookie: CookieDirective| cookie@)
}

/// A cookie carrying `value` in the conservative posture: `HttpOnly`, `Secure`, `SameSite=Lax`.
pub open spec fn fresh_cookie(name: Seq<char>, value: Seq<char>) -> CookieView {
    CookieView {
        name,
        value,
        path: None,
        domain: None,
        max_age: None,
        http_only: true,
        secure: true,
        same_site: Some(SameSite::Lax),
    }
}

/// An attribute with a value, or nothing when there is none.
pub open spec fn attribute(label: Seq<char>, value: Option<Seq<char>>) -> Seq<char> {
    match value {
        Some(value) => label + value,
        None => Seq::empty(),
    }
}

/// An attribute that is present or not.
pub open spec fn flag(label: Seq<char>, set: bool) -> Seq<char> {
    if set {
        label
    } else {
        Seq::empty()
    }
}

/// The `Set-Cookie` field value of RFC 6265 section 4.1, with the age in whole seconds.
pub open spec fn set_cookie(cookie: CookieView) -> Seq<char> {
    cookie.name + "="@ + cookie.value + attribute("; Path="@, cookie.path) + attribute(
        "; Domain="@,
        cookie.domain,
    ) + attribute(
        "; Max-Age="@,
        match cookie.max_age {
            Some(nanos) => Some(text::decimal(nanos / 1_000_000_000)),
            None => None,
        },
    ) + flag("; HttpOnly"@, cookie.http_only) + flag("; Secure"@, cookie.secure) + attribute(
        "; SameSite="@,
        match cookie.same_site {
            Some(same_site) => Some(same_site_text(same_site)),
            None => None,
        },
    )
}

impl CookieDirective {
    /// A cookie carrying `value`. It starts from the conservative posture (`HttpOnly`, `Secure`,
    /// `SameSite=Lax`), which callers relax explicitly.
    pub fn set(name: &str, value: &str) -> (cookie: CookieDirective)
        ensures
            cookie@ == fresh_cookie(name@, value@),
    {
        CookieDirective {
            name: String::from_str(name),
            value: String::from_str(value),
            path: None,
            domain: None,
            max_age: None,
            http_only: true,
            secure: true,
            same_site: Some(SameSite::Lax),
        }
    }

    /// A directive that removes `name` from the client: an empty value that expires at once.
    pub fn clear(name: &str) -> (cookie: CookieDirective)
        ensures
            cookie@ == (CookieView {
                max_age: Some(0nat),
                ..fresh_cookie(name@, Seq::empty())
            }),
    {
        CookieDirective {
            value: String::new(),
            max_age: Some(Duration::zero()),
            ..CookieDirective::set(name, "")
        }
    }

    pub fn with_path(self, path: &str) -> (cookie: CookieDirective)
        ensures
            cookie@ == (CookieView { path: Some(path@), ..self@ }),
    {
        CookieDirective { path: Some(String::from_str(path)), ..self }
    }

    pub fn with_domain(self, domain: &str) -> (cookie: CookieDirective)
        ensures
            cookie@ == (CookieView { domain: Some(domain@), ..self@ }),
    {
        CookieDirective { domain: Some(String::from_str(domain)), ..self }
    }

    /// Sets or clears the domain, for callers with an already optional value.
    pub fn with_domain_opt(self, domain: Option<String>) -> (cookie: CookieDirective)
        ensures
            cookie@ == (CookieView { domain: text::optional(domain), ..self@ }),
    {
        CookieDirective { domain, ..self }
    }

    pub fn with_max_age(self, max_age: Duration) -> (cookie: CookieDirective)
        ensures
            cookie@ == (CookieView { max_age: Some(max_age@), ..self@ }),
    {
        CookieDirective { max_age: Some(max_age), ..self }
    }

    pub fn with_http_only(self, http_only: bool) -> (cookie: CookieDirective)
        ensures
            cookie@ == (CookieView { http_only, ..self@ }),
    {
        CookieDirective { http_only, ..self }
    }

    pub fn with_secure(self, secure: bool) -> (cookie: CookieDirective)
        ensures
            cookie@ == (CookieView { secure, ..self@ }),
    {
        CookieDirective { secure, ..self }
    }

    pub fn with_same_site(self, same_site: Option<SameSite>) -> (cookie: CookieDirective)
        ensures
            cookie@ == (CookieView { same_site, ..self@ }),
    {
        CookieDirective { same_site, ..self }
    }

    /// Renders the `Set-Cookie` field value per RFC 6265 section 4.1.
    ///
    /// Cookie syntax is a wire format, no framework concern: an adapter without a typed cookie
    /// builder uses this directly.
    pub fn to_string(&self) -> (rendered: String)
        ensures
            rendered@ == set_cookie(self@),
    {
        let age = match &self.max_age {
            Some(max_age) => Some(text::to_decimal(max_age.as_secs())),
            None => None,
        };
        let same_site = match &self.same_site {
            Some(same_site) => Some(same_site.as_str()),
            None => None,
        };
        let mut out = String::from_str(self.name.as_str());
        out.append("=");
        out.append(self.value.as_str());
        push_attribute(&mut out, "; Path=", text::as_deref(&self.path));
        push_attribute(&mut out, "; Domain=", text::as_deref(&self.domain));
        push_attribute(&mut out, "; Max-Age=", text::as_deref(&age));
        push_flag(&mut out, "; HttpOnly", self.http_only);
        push_flag(&mut out, "; Secure", self.secure);
        push_attribute(&mut out, "; SameSite=", same_site);
        out
    }
}

fn push_attribute(out: &mut String, label: &str, value: Option<&str>)
    ensures
        final(out)@ == old(out)@ + attribute(label@, text::optional_str(value)),
{
    if let Some(value) = value {
        out.append(label);
        out.append(value);
    }
    assert(out@ =~= old(out)@ + attribute(label@, text::optional_str(value)));
}

fn push_flag(out: &mut String, label: &str, set: bool)
    ensures
        final(out)@ == old(out)@ + flag(label@, set),
{
    if set {
        out.append(label);
    }
    assert(out@ =~= old(out)@ + flag(label@, set));
}

impl Clone for CookieDirective {
    fn clone(&self) -> (copy: CookieDirective)
        ensures
            copy@ == self@,
    {
        CookieDirective {
            name: self.name.clone(),
            value: self.value.clone(),
            path: text::copy_optional(&self.path),
            domain: text::copy_optional(&self.domain),
            max_age: self.max_age,
            http_only: self.http_only,
            secure: self.secure,
            same_site: self.same_site,
        }
    }
}

/// What a browser tells its cookies apart by.
pub ghost struct CookieId {
    pub name: Seq<char>,
    pub path: Option<Seq<char>>,
    pub domain: Option<Seq<char>>,
}

impl CookieView {
    /// Which of the browser's cookies the directive is about.
    pub open spec fn id(self) -> CookieId {
        CookieId { name: self.name, path: self.path, domain: self.domain }
    }

    /// Whether the cookie is gone as soon as it arrives: its age is less than a second, which is
    /// the unit that ages are sent in.
    pub open spec fn expires_at_once(self) -> bool {
        self.max_age matches Some(age) && age < 1_000_000_000
    }
}

/// The cookies that a browser holds after it has applied the directives in order: each replaces
/// the cookie it is about, or removes it.
pub open spec fn held_after(jar: Map<CookieId, CookieView>, cookies: Seq<CookieView>) -> Map<
    CookieId,
    CookieView,
>
    decreases cookies.len(),
{
    if cookies.len() == 0 {
        jar
    } else {
        let before = held_after(jar, cookies.drop_last());
        let last = cookies.last();
        if last.expires_at_once() {
            before.remove(last.id())
        } else {
            before.insert(last.id(), last)
        }
    }
}

/// What a browser holds after two directives.
pub proof fn lemma_held_after_two(jar: Map<CookieId, CookieView>, cookies: Seq<CookieView>)
    requires
        cookies.len() == 2,
    ensures
        held_after(jar, cookies) == held_after(held_after(jar, seq![cookies[0]]), seq![cookies[1]]),
        cookies[0].expires_at_once() ==> held_after(jar, seq![cookies[0]]) == jar.remove(
            cookies[0].id(),
        ),
        !cookies[0].expires_at_once() ==> held_after(jar, seq![cookies[0]]) == jar.insert(
            cookies[0].id(),
            cookies[0],
        ),
        forall|held: Map<CookieId, CookieView>| #[trigger]
            held_after(held, seq![cookies[1]]) == if cookies[1].expires_at_once() {
                held.remove(cookies[1].id())
            } else {
                held.insert(cookies[1].id(), cookies[1])
            },
{
    reveal_with_fuel(held_after, 3);
    assert(cookies.drop_last() =~= seq![cookies[0]]);
    assert(seq![cookies[0]].drop_last() =~= Seq::<CookieView>::empty());
    assert(seq![cookies[1]].drop_last() =~= Seq::<CookieView>::empty());
}

/// A cookie that is set is held by the browser under its name, with its value, and out of reach of
/// scripts and of plain HTTP; one that is cleared is not held, whatever was held before.
pub proof fn set_is_held_and_clear_is_not(
    jar: Map<CookieId, CookieView>,
    name: &str,
    value: &str,
    set: CookieDirective,
    clear: CookieDirective,
)
    requires
        call_ensures(CookieDirective::set, (name, value), set),
        call_ensures(CookieDirective::clear, (name,), clear),
    ensures
        ({
            let id = CookieId { name: name@, path: None, domain: None };
            &&& held_after(jar, seq![set@]).contains_key(id)
            &&& held_after(jar, seq![set@])[id].value == value@
            &&& held_after(jar, seq![set@])[id].http_only && held_after(jar, seq![set@])[id].secure
            &&& held_after(jar, seq![set@])[id].same_site == Some(SameSite::Lax)
            &&& !held_after(jar, seq![clear@]).contains_key(id)
            &&& clear@.value.len() == 0
            &&& forall|other: CookieId|
                other != id ==> {
                    &&& #[trigger] held_after(jar, seq![set@]).contains_key(other)
                        == jar.contains_key(other)
                    &&& held_after(jar, seq![clear@]).contains_key(other) == jar.contains_key(other)
                }
        }),
{
    reveal_with_fuel(held_after, 2);
    assert(seq![set@].drop_last() =~= Seq::<CookieView>::empty());
    assert(seq![clear@].drop_last() =~= Seq::<CookieView>::empty());
}

/// The attributes with one more, where there is one.
pub open spec fn with_attribute(
    attributes: Seq<Seq<char>>,
    label: Seq<char>,
    value: Option<Seq<char>>,
) -> Seq<Seq<char>> {
    match value {
        Some(value) => attributes.push(label + value),
        None => attributes,
    }
}

proof fn lemma_with_attribute(
    attributes: Seq<Seq<char>>,
    label: Seq<char>,
    written: Seq<char>,
    value: Option<Seq<char>>,
)
    requires
        attributes.len() > 0,
        written == seq![';'] + label,
    ensures
        text::joined(with_attribute(attributes, label, value), ';') == text::joined(
            attributes,
            ';',
        ) + attribute(written, value),
{
    if let Some(value) = value {
        text::lemma_joined_push(attributes, ';', label + value);
        assert(text::joined(attributes, ';').push(';') + (label + value) =~= text::joined(
            attributes,
            ';',
        ) + attribute(written, Some(value)));
    } else {
        assert(text::joined(attributes, ';') + attribute(written, None::<Seq<char>>)
            =~= text::joined(attributes, ';'));
    }
}

/// A cookie is sent as its name, an equals sign and its value, and behind semicolons an attribute
/// for each restriction it has and for nothing else: a script cannot read it exactly when
/// `HttpOnly` is among them, and it goes over TLS only exactly when `Secure` is.
pub proof fn sent_cookie_says_its_restrictions(cookie: CookieDirective, sent: String)
    requires
        call_ensures(CookieDirective::to_string, (&cookie,), sent),
    ensures
        exists|parts: Seq<Seq<char>>|
            {
                &&& sent@ == #[trigger] text::joined(parts, ';')
                &&& parts.len() > 0 && parts[0] == cookie.name@.push('=') + cookie.value@
                &&& is_restricted(parts.drop_first(), cookie@)
            },
{
    let age = match cookie@.max_age {
        Some(nanos) => Some(text::decimal(nanos / 1_000_000_000)),
        None => None,
    };
    let same_site = match cookie@.same_site {
        Some(same_site) => Some(same_site_text(same_site)),
        None => None,
    };
    let on = Some(Seq::<char>::empty());
    let http_only = if cookie@.http_only { on } else { None };
    let secure = if cookie@.secure { on } else { None };
    reveal_strlit("=");
    reveal_strlit("; Path=");
    reveal_strlit(" Path=");
    reveal_strlit("; Domain=");
    reveal_strlit(" Domain=");
    reveal_strlit("; Max-Age=");
    reveal_strlit(" Max-Age=");
    reveal_strlit("; HttpOnly");
    reveal_strlit(" HttpOnly");
    reveal_strlit("; Secure");
    reveal_strlit(" Secure");
    reveal_strlit("; SameSite=");
    reveal_strlit(" SameSite=");
    assert("; Path="@ =~= seq![';'] + " Path="@);
    assert("; Domain="@ =~= seq![';'] + " Domain="@);
    assert("; Max-Age="@ =~= seq![';'] + " Max-Age="@);
    assert("; HttpOnly"@ =~= seq![';'] + " HttpOnly"@);
    assert("; Secure"@ =~= seq![';'] + " Secure"@);
    assert("; SameSite="@ =~= seq![';'] + " SameSite="@);
    let head = cookie.name@.push('=') + cookie.value@;
    assert(cookie.name@ + "="@ + cookie.value@ =~= head);
    let bare = seq![head];
    let one = with_attribute(bare, " Path="@, cookie@.path);
    let two = with_attribute(one, " Domain="@, cookie@.domain);
    let three = with_attribute(two, " Max-Age="@, age);
    let four = with_attribute(three, " HttpOnly"@, http_only);
    let five = with_attribute(four, " Secure"@, secure);
    let parts = with_attribute(five, " SameSite="@, same_site);
    lemma_with_attribute(bare, " Path="@, "; Path="@, cookie@.path);
    lemma_with_attribute(one, " Domain="@, "; Domain="@, cookie@.domain);
    lemma_with_attribute(two, " Max-Age="@, "; Max-Age="@, age);
    lemma_with_attribute(three, " HttpOnly"@, "; HttpOnly"@, http_only);
    lemma_with_attribute(four, " Secure"@, "; Secure"@, secure);
    lemma_with_attribute(five, " SameSite="@, "; SameSite="@, same_site);
    assert(attribute("; HttpOnly"@, http_only) =~= flag("; HttpOnly"@, cookie@.http_only));
    assert(attribute("; Secure"@, secure) =~= flag("; Secure"@, cookie@.secure));
    assert(" HttpOnly"@ + Seq::<char>::empty() =~= " HttpOnly"@);
    assert(" Secure"@ + Seq::<char>::empty() =~= " Secure"@);
    assert(sent@ =~= text::joined(parts, ';'));
    let attributes = parts.drop_first();
    lemma_restricted(attributes, cookie@, age, same_site);
}

/// Whether a list of attributes says what restricts a cookie: each restriction by the attribute of
/// its own, and nothing more.
pub open spec fn is_restricted(attributes: Seq<Seq<char>>, cookie: CookieView) -> bool {
    &&& attributes.contains(" HttpOnly"@) == cookie.http_only
    &&& attributes.contains(" Secure"@) == cookie.secure
    &&& cookie.path matches Some(path) ==> attributes.contains(" Path="@ + path)
    &&& cookie.domain matches Some(domain) ==> attributes.contains(" Domain="@ + domain)
    &&& cookie.max_age matches Some(age) ==> attributes.contains(
        " Max-Age="@ + text::decimal(age / 1_000_000_000),
    )
    &&& cookie.same_site matches Some(same_site) ==> attributes.contains(
        " SameSite="@ + match same_site {
            SameSite::Strict => "Strict"@,
            SameSite::Lax => "Lax"@,
            SameSite::Unrestricted => "None"@,
        },
    )
    &&& attributes.len() == count(cookie.path is Some) + count(cookie.domain is Some) + count(
        cookie.max_age is Some,
    ) + count(cookie.http_only) + count(cookie.secure) + count(cookie.same_site is Some)
}

/// One where something is there, and none where it is not.
pub open spec fn count(there: bool) -> nat {
    if there {
        1
    } else {
        0
    }
}

proof fn lemma_restricted(
    attributes: Seq<Seq<char>>,
    cookie: CookieView,
    age: Option<Seq<char>>,
    same_site: Option<Seq<char>>,
)
    requires
        age == (match cookie.max_age {
            Some(nanos) => Some(text::decimal(nanos / 1_000_000_000)),
            None => None,
        }),
        same_site == (match cookie.same_site {
            Some(same_site) => Some(same_site_text(same_site)),
            None => None,
        }),
        exists|head: Seq<char>|
            attributes == with_attribute(
                with_attribute(
                    with_attribute(
                        with_attribute(
                            with_attribute(
                                with_attribute(#[trigger] seq![head], " Path="@, cookie.path),
                                " Domain="@,
                                cookie.domain,
                            ),
                            " Max-Age="@,
                            age,
                        ),
                        " HttpOnly"@,
                        if cookie.http_only {
                            Some(Seq::empty())
                        } else {
                            None
                        },
                    ),
                    " Secure"@,
                    if cookie.secure {
                        Some(Seq::empty())
                    } else {
                        None
                    },
                ),
                " SameSite="@,
                same_site,
            ).drop_first(),
    ensures
        is_restricted(attributes, cookie),
{
    reveal_strlit(" Path=");
    reveal_strlit(" Domain=");
    reveal_strlit(" Max-Age=");
    reveal_strlit(" HttpOnly");
    reveal_strlit(" Secure");
    reveal_strlit(" SameSite=");
    assert(" HttpOnly"@ + Seq::<char>::empty() =~= " HttpOnly"@);
    assert(" Secure"@ + Seq::<char>::empty() =~= " Secure"@);
    let p = count(cookie.path is Some) as int;
    let d = p + count(cookie.domain is Some) as int;
    let a = d + count(cookie.max_age is Some) as int;
    let h = a + count(cookie.http_only) as int;
    let s = h + count(cookie.secure) as int;
    if cookie.path is Some {
        assert(attributes[0] == " Path="@ + cookie.path->Some_0);
    }
    if cookie.domain is Some {
        assert(attributes[p] == " Domain="@ + cookie.domain->Some_0);
    }
    if cookie.max_age is Some {
        assert(attributes[d] == " Max-Age="@ + age->Some_0);
    }
    if cookie.http_only {
        assert(attributes[a] == " HttpOnly"@);
    }
    if cookie.secure {
        assert(attributes[h] == " Secure"@);
    }
    if cookie.same_site is Some {
        assert(attributes[s] == " SameSite="@ + same_site->Some_0);
    }
    assert forall|i: int| 0 <= i < attributes.len() implies {
        &&& (#[trigger] attributes[i])[1] == 'H' ==> cookie.http_only
        &&& attributes[i][1] == 'S' && attributes[i][2] == 'e' ==> cookie.secure
    } by {}
    if attributes.contains(" HttpOnly"@) {
        let i = choose|i: int| 0 <= i < attributes.len() && attributes[i] == " HttpOnly"@;
        assert(attributes[i][1] == 'H');
    }
    if attributes.contains(" Secure"@) {
        let i = choose|i: int| 0 <= i < attributes.len() && attributes[i] == " Secure"@;
        assert(attributes[i][1] == 'S' && attributes[i][2] == 'e');
    }
}

/// Each setter changes its own attribute and leaves the rest of the cookie as it was.
pub proof fn setters_change_one_attribute(
    cookie: CookieDirective,
    given: &str,
    domain: Option<String>,
    age: Duration,
    switch: bool,
    same_site: Option<SameSite>,
    path: CookieDirective,
    at: CookieDirective,
    at_most: CookieDirective,
    aged: CookieDirective,
    hidden: CookieDirective,
    secured: CookieDirective,
    sited: CookieDirective,
)
    requires
        call_ensures(CookieDirective::with_path, (cookie, given), path),
        call_ensures(CookieDirective::with_domain, (cookie, given), at),
        call_ensures(CookieDirective::with_domain_opt, (cookie, domain), at_most),
        call_ensures(CookieDirective::with_max_age, (cookie, age), aged),
        call_ensures(CookieDirective::with_http_only, (cookie, switch), hidden),
        call_ensures(CookieDirective::with_secure, (cookie, switch), secured),
        call_ensures(CookieDirective::with_same_site, (cookie, same_site), sited),
    ensures
        path@ == (CookieView { path: Some(given@), ..cookie@ }),
        at@ == (CookieView { domain: Some(given@), ..cookie@ }),
        at_most@ == (CookieView { domain: text::optional(domain), ..cookie@ }),
        aged@ == (CookieView { max_age: Some(age@), ..cookie@ }),
        hidden@ == (CookieView { http_only: switch, ..cookie@ }),
        secured@ == (CookieView { secure: switch, ..cookie@ }),
        sited@ == (CookieView { same_site, ..cookie@ }),
{
}

/// A copy of a cookie is the same cookie.
pub proof fn copied_cookie_is_the_same(cookie: CookieDirective, copy: CookieDirective)
    requires
        call_ensures(<CookieDirective as Clone>::clone, (&cookie,), copy),
    ensures
        copy@ == cookie@,
{
}

/// A same-site mode is written as the attribute value that it stands for.
pub proof fn same_site_is_written_by_its_name(mode: SameSite, name: &'static str, text: String)
    requires
        call_ensures(SameSite::as_str, (&mode,), name),
        call_ensures(SameSite::to_string, (&mode,), text),
    ensures
        text@ == name@,
        mode is Strict ==> name@ == "Strict"@,
        mode is Lax ==> name@ == "Lax"@,
        mode is Unrestricted ==> name@ == "None"@,
{
}

} // verus!
