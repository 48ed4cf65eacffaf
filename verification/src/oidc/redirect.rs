//! Where a user may be sent after a successful login.
use vstd::prelude::*;

use crate::encoding;
use crate::error::{AuthError, AuthErrorView};
use crate::text;

verus! {

/// Where a user may be sent after a successful login.
///
/// The destination an application asks for may have come from a `?next=` parameter, so it is
/// validated before the login starts.
#[derive(Debug)]
pub enum RedirectPolicy {
    /// Only same-origin paths. The default, and correct for almost every service.
    RelativeOnly,
    /// Same-origin paths, plus absolute URLs whose origin is listed.
    Allowlist(Vec<String>),
}

/// Whether some character of `s` is a control character, which can split a header and inject a
/// second one.
pub open spec fn has_control(s: Seq<char>) -> bool {
    exists|i: int| 0 <= i < s.len() && text::is_control(#[trigger] s[i])
}

/// Whether `url` lies under `origin`. The match ends at a boundary of the origin, so that
/// `https://evil.example.com` does not pass for an allow-listed `https://evil.example`.
pub open spec fn within_origin(url: Seq<char>, origin: Seq<char>) -> bool {
    match text::after_prefix(url, text::without_trailing(origin, '/')) {
        Some(rest) => rest.len() == 0 || rest[0] == '/' || rest[0] == '?' || rest[0] == '#',
        None => false,
    }
}

/// Whether `destination` is a path that a browser could read as another origin: `//host` is
/// protocol-relative, and `/\host` is the same through a backslash, which several browsers
/// normalise to `/`.
pub open spec fn protocol_relative(destination: Seq<char>) -> bool {
    text::has_prefix(destination, "//"@) || text::has_prefix(destination, "/\\"@)
}

impl RedirectPolicy {
    /// The origins that are listed, if any may be.
    pub open spec fn origins(self) -> Option<Seq<Seq<char>>> {
        match self {
            RedirectPolicy::RelativeOnly => None,
            RedirectPolicy::Allowlist(origins) => Some(text::texts(origins@)),
        }
    }

    /// Why a destination is refused, or nothing when it is permitted.
    pub open spec fn objection(self, destination: Seq<char>) -> Option<Seq<char>> {
        if has_control(destination) {
            Some("contains a control character"@)
        } else if text::has_prefix(destination, "/"@) {
            if protocol_relative(destination) {
                Some("protocol-relative url"@)
            } else {
                None
            }
        } else {
            match self.origins() {
                None => Some("only relative paths are permitted"@),
                Some(origins) => if exists|i: int|
                    0 <= i < origins.len() && within_origin(destination, #[trigger] origins[i]) {
                    None
                } else {
                    Some("origin is not allow-listed"@)
                },
            }
        }
    }

    pub fn validate(&self, destination: &str) -> (verdict: Result<(), AuthError>)
        ensures
            match verdict {
                Ok(_) => self.objection(destination@) is None,
                Err(error) => self.objection(destination@) matches Some(reason) && error@
                    == rejection(destination@, reason),
            },
    {
        if text::has_control(destination) {
            return Err(reject(destination, "contains a control character"));
        }
        if text::starts_with(destination, "/") {
            if text::starts_with(destination, "//") || text::starts_with(destination, "/\\") {
                return Err(reject(destination, "protocol-relative url"));
            }
            return Ok(());
        }
        match self {
            RedirectPolicy::RelativeOnly => Err(
                reject(destination, "only relative paths are permitted"),
            ),
            RedirectPolicy::Allowlist(origins) => {
                let mut at: usize = 0;
                while at < origins.len()
                    invariant
                        at <= origins.len(),
                        self.origins() == Some(text::texts(origins@)),
                        !has_control(destination@),
                        !text::has_prefix(destination@, "/"@),
                        forall|i: int|
                            0 <= i < at ==> !within_origin(
                                destination@,
                                #[trigger] text::texts(origins@)[i],
                            ),
                    decreases origins.len() - at,
                {
                    assert(text::texts(origins@)[at as int] == origins@[at as int]@);
                    if is_within_origin(destination, origins[at].as_str()) {
                        let ghost listed = self.origins()->Some_0;
                        assert(within_origin(destination@, listed[at as int]));
                        return Ok(());
                    }
                    at += 1;
                }
                Err(reject(destination, "origin is not allow-listed"))
            },
        }
    }
}

impl Clone for RedirectPolicy {
    fn clone(&self) -> (copy: RedirectPolicy)
        ensures
            copy.origins() == self.origins(),
    {
        match self {
            RedirectPolicy::RelativeOnly => RedirectPolicy::RelativeOnly,
            RedirectPolicy::Allowlist(origins) => RedirectPolicy::Allowlist(
                text::copy_strings(origins),
            ),
        }
    }
}

impl Default for RedirectPolicy {
    fn default() -> (policy: RedirectPolicy)
        ensures
            policy is RelativeOnly,
    {
        RedirectPolicy::RelativeOnly
    }
}

/// The failure that reports a refused destination.
pub open spec fn rejection(destination: Seq<char>, reason: Seq<char>) -> AuthErrorView {
    AuthErrorView::MalformedCredential {
        detail: "rejected login redirect "@ + encoding::quoted(destination) + ": "@ + reason,
    }
}

fn reject(destination: &str, reason: &str) -> (error: AuthError)
    ensures
        error@ == rejection(destination@, reason@),
{
    let detail = text::join("rejected login redirect ", encoding::quote(destination).as_str());
    let detail = text::join(detail.as_str(), ": ");
    AuthError::malformed_credential(text::join(detail.as_str(), reason).as_str())
}

/// Whether `url` sits under `origin`, matching on an origin boundary.
fn is_within_origin(url: &str, origin: &str) -> (within: bool)
    ensures
        within == within_origin(url@, origin@),
{
    match text::strip_prefix(url, text::trim_end_matches(origin, '/')) {
        Some(rest) => {
            if rest.unicode_len() == 0 {
                return true;
            }
            let first = rest.get_char(0);
            first == '/' || first == '?' || first == '#'
        },
        None => false,
    }
}

/// A permitted destination cannot leave the origins it is meant for: it holds no control
/// character, and it is either a path whose second character is neither a slash nor a backslash,
/// or a listed origin followed by nothing or by a path, a query or a fragment.
pub proof fn permitted_destination_stays_in_reach(policy: RedirectPolicy, destination: Seq<char>)
    requires
        policy.objection(destination) is None,
    ensures
        forall|i: int|
            0 <= i < destination.len() ==> !text::is_control(#[trigger] destination[i]),
        ({
            ||| destination.len() > 0 && destination[0] == '/' && (destination.len() > 1 ==> (
            destination[1] != '/' && destination[1] != '\\'))
            ||| exists|i: int|
                0 <= i < policy.origins().unwrap().len() && policy.origins() is Some
                    && within_origin(destination, #[trigger] policy.origins().unwrap()[i])
        }),
{
    reveal_strlit("/");
    reveal_strlit("//");
    reveal_strlit("/\\");
    if text::has_prefix(destination, "/"@) {
        assert(destination.subrange(0, 1)[0] == destination[0]);
        if destination.len() > 1 {
            if destination[1] == '/' {
                assert(destination.subrange(0, 2) =~= "//"@);
            }
            if destination[1] == '\\' {
                assert(destination.subrange(0, 2) =~= "/\\"@);
            }
        }
    }
}

/// The default policy permits paths only.
pub proof fn default_policy_permits_paths_only(destination: Seq<char>)
    requires
        RedirectPolicy::RelativeOnly.objection(destination) is None,
    ensures
        destination.len() > 0 && destination[0] == '/',
{
    reveal_strlit("/");
    assert(destination.subrange(0, 1)[0] == destination[0]);
}

proof fn lemma_paths(destination: Seq<char>)
    ensures
        text::has_prefix(destination, "/"@) == (destination.len() > 0 && destination[0] == '/'),
        protocol_relative(destination) == (destination.len() > 1 && destination[0] == '/' && (
        destination[1] == '/' || destination[1] == '\\')),
{
    reveal_strlit("/");
    reveal_strlit("//");
    reveal_strlit("/\\");
    if destination.len() > 0 {
        assert(destination.subrange(0, 1)[0] == destination[0]);
        if destination[0] == '/' {
            assert(destination.subrange(0, 1) =~= "/"@);
        }
    }
    if destination.len() > 1 {
        assert(destination.subrange(0, 2)[0] == destination[0]);
        assert(destination.subrange(0, 2)[1] == destination[1]);
        if destination[0] == '/' && destination[1] == '/' {
            assert(destination.subrange(0, 2) =~= "//"@);
        }
        if destination[0] == '/' && destination[1] == '\\' {
            assert(destination.subrange(0, 2) =~= "/\\"@);
        }
    }
}

/// Whether a destination is a path of the same origin: it starts with a slash and not with two, nor
/// with a slash and a backslash.
pub open spec fn is_own_path(destination: Seq<char>) -> bool {
    &&& destination.len() > 0 && destination[0] == '/'
    &&& destination.len() > 1 ==> destination[1] != '/' && destination[1] != '\\'
}

/// Every path of the same origin is permitted, under every policy, and under the default policy
/// nothing else is. A destination with a control character, or one that a browser would read as
/// another host, is refused under every policy, as a malformed request.
pub proof fn own_paths_are_permitted(
    policy: RedirectPolicy,
    destination: &str,
    verdict: Result<(), AuthError>,
)
    requires
        call_ensures(RedirectPolicy::validate, (&policy, destination), verdict),
    ensures
        ({
            let clean = forall|i: int|
                0 <= i < destination@.len() ==> {
                    let code = #[trigger] destination@[i] as u32;
                    code > 0x1f && !(0x7f <= code <= 0x9f)
                };
            &&& clean && is_own_path(destination@) ==> verdict is Ok
            &&& !clean ==> verdict is Err
            &&& destination@.len() > 0 && destination@[0] == '/' && !is_own_path(destination@)
                ==> verdict is Err
            &&& policy is RelativeOnly && !is_own_path(destination@) ==> verdict is Err
        }),
        verdict is Err ==> verdict->Err_0@.status() == 400,
{
    lemma_paths(destination@);
    if !(forall|i: int|
        0 <= i < destination@.len() ==> {
            let code = #[trigger] destination@[i] as u32;
            code > 0x1f && !(0x7f <= code <= 0x9f)
        }) {
        let i = choose|i: int|
            0 <= i < destination@.len() && !({
                let code = #[trigger] destination@[i] as u32;
                code > 0x1f && !(0x7f <= code <= 0x9f)
            });
        assert(text::is_control(destination@[i]));
    }
}

proof fn lemma_without_trailing(bare: Seq<char>, slashes: Seq<char>)
    requires
        bare.len() > 0 ==> bare.last() != '/',
        forall|i: int| 0 <= i < slashes.len() ==> #[trigger] slashes[i] == '/',
    ensures
        text::without_trailing(bare + slashes, '/') == bare,
    decreases slashes.len(),
{
    if slashes.len() == 0 {
        assert(bare + slashes =~= bare);
    } else {
        let fewer = slashes.drop_last();
        assert forall|i: int| 0 <= i < fewer.len() implies #[trigger] fewer[i] == '/' by {
            assert(fewer[i] == slashes[i]);
        }
        assert((bare + slashes).last() == slashes.last());
        assert((bare + slashes).drop_last() =~= bare + fewer);
        lemma_without_trailing(bare, fewer);
    }
}

/// A URL under a listed origin is permitted, whether the origin is listed with a slash at its end
/// or not. Where one origin is listed, a URL that goes on behind it with anything but a path, a
/// query or a fragment is another host's, and is refused.
pub proof fn listed_origin_is_permitted(
    origins: Vec<String>,
    destination: &str,
    verdict: Result<(), AuthError>,
    at: int,
    bare: Seq<char>,
    slashes: Seq<char>,
    rest: Seq<char>,
)
    requires
        call_ensures(
            RedirectPolicy::validate,
            (&RedirectPolicy::Allowlist(origins), destination),
            verdict,
        ),
        0 <= at < origins.len(),
        origins@[at]@ == bare + slashes,
        bare.len() > 0 && bare.last() != '/' && bare[0] != '/',
        forall|i: int| 0 <= i < slashes.len() ==> #[trigger] slashes[i] == '/',
        destination@ == bare + rest,
        forall|i: int|
            0 <= i < destination@.len() ==> !text::is_control(#[trigger] destination@[i]),
    ensures
        rest.len() == 0 || rest[0] == '/' || rest[0] == '?' || rest[0] == '#' ==> verdict is Ok,
        origins.len() == 1 && rest.len() > 0 && rest[0] != '/' && rest[0] != '?' && rest[0] != '#'
            ==> verdict is Err,
{
    lemma_paths(destination@);
    lemma_without_trailing(bare, slashes);
    assert(destination@[0] == bare[0]);
    assert(destination@.subrange(0, bare.len() as int) =~= bare);
    assert(destination@.subrange(bare.len() as int, destination@.len() as int) =~= rest);
    let policy = RedirectPolicy::Allowlist(origins);
    let listed = policy.origins()->Some_0;
    assert(listed[at] == bare + slashes);
    assert(within_origin(destination@, listed[at]) == (rest.len() == 0 || rest[0] == '/' || rest[0]
        == '?' || rest[0] == '#'));
}

/// A URL under none of the listed origins is refused.
pub proof fn unlisted_origin_is_refused(
    origins: Vec<String>,
    destination: &str,
    verdict: Result<(), AuthError>,
)
    requires
        call_ensures(
            RedirectPolicy::validate,
            (&RedirectPolicy::Allowlist(origins), destination),
            verdict,
        ),
        destination@.len() > 0 && destination@[0] != '/',
        forall|i: int, bare: Seq<char>, slashes: Seq<char>, rest: Seq<char>|
            0 <= i < origins.len() && #[trigger] origins@[i]@ == #[trigger] (bare + slashes)
                && destination@ == #[trigger] (bare + rest) && (forall|j: int|
                0 <= j < slashes.len() ==> #[trigger] slashes[j] == '/') ==> rest.len() > 0
                && rest[0] != '/' && rest[0] != '?' && rest[0] != '#',
    ensures
        verdict is Err,
{
    lemma_paths(destination@);
    let policy = RedirectPolicy::Allowlist(origins);
    let listed = policy.origins()->Some_0;
    assert forall|i: int| 0 <= i < listed.len() implies !within_origin(
        destination@,
        #[trigger] listed[i],
    ) by {
        let bare = text::without_trailing(listed[i], '/');
        assert(listed[i] == origins@[i]@);
        lemma_trailing_run(listed[i]);
        let slashes = listed[i].subrange(bare.len() as int, listed[i].len() as int);
        assert(listed[i] =~= bare + slashes);
        if text::has_prefix(destination@, bare) {
            let rest = destination@.subrange(bare.len() as int, destination@.len() as int);
            assert(destination@ =~= bare + rest);
            assert(origins@[i]@ == bare + slashes);
        }
    }
}

proof fn lemma_trailing_run(s: Seq<char>)
    ensures
        text::without_trailing(s, '/').len() <= s.len(),
        s.subrange(0, text::without_trailing(s, '/').len() as int) == text::without_trailing(s, '/'),
        forall|i: int|
            text::without_trailing(s, '/').len() <= i < s.len() ==> #[trigger] s[i] == '/',
    decreases s.len(),
{
    if s.len() > 0 && s.last() == '/' {
        let front = s.drop_last();
        lemma_trailing_run(front);
        let bare = text::without_trailing(front, '/');
        assert(s.subrange(0, bare.len() as int) =~= front.subrange(0, bare.len() as int));
        assert forall|i: int| bare.len() <= i < s.len() implies #[trigger] s[i] == '/' by {
            if i < front.len() {
                assert(front[i] == s[i]);
            }
        }
    } else {
        assert(s.subrange(0, s.len() as int) =~= s);
    }
}

/// Unless it is told otherwise, a login goes nowhere but to a path of its own site.
pub proof fn paths_are_the_default(
    policy: RedirectPolicy,
    destination: &str,
    verdict: Result<(), AuthError>,
)
    requires
        call_ensures(<RedirectPolicy as Default>::default, (), policy),
        call_ensures(RedirectPolicy::validate, (&policy, destination), verdict),
        verdict is Ok,
    ensures
        destination@.len() > 0 && destination@[0] == '/',
        destination@.len() > 1 ==> destination@[1] != '/' && destination@[1] != '\\',
{
    lemma_paths(destination@);
}

/// No policy lets a control character pass, and whoever asked for a destination that is refused is
/// told that the request was wrong.
pub proof fn control_characters_are_refused(
    policy: RedirectPolicy,
    destination: &str,
    verdict: Result<(), AuthError>,
    at: int,
)
    requires
        call_ensures(RedirectPolicy::validate, (&policy, destination), verdict),
        0 <= at < destination@.len(),
    ensures
        destination@[at] < ' ' ==> verdict is Err,
        '\u{7f}' <= destination@[at] <= '\u{9f}' ==> verdict is Err,
        verdict is Err ==> verdict->Err_0@.status() == 400,
{
    text::lemma_control(destination@[at]);
}

} // verus!
