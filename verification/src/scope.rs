//! Request scoping: an application's own notion of the realm a request targets, and the rule that
//! derives one from a request.
//!
//! Single-tenant services use [`NoScope`] and never think about it again.
use vstd::prelude::*;

use crate::request::AuthRequest;
use crate::text;

verus! {

/// Which realm a request authenticates against. Keys credential caches and names session cookies.
pub trait AuthScope: Clone + Send + Sync + 'static {
    /// The scope as it is written in logs.
    fn label(&self) -> (label: String);

    /// Whether this scope requires no authentication at all. A request to a public scope that
    /// presents nothing is anonymous, which authorization can tell from a signed-in user.
    fn is_public(&self) -> (public: bool)
        default_ensures
            !public,
    {
        false
    }

    /// A stable discriminator mixed into credential-cache keys, so a credential validated for one
    /// tenant can never be served from cache for another. `None` for single-realm deployments.
    fn cache_discriminator(&self) -> (discriminator: Option<&str>)
        default_ensures
            discriminator is None,
    {
        None
    }

    /// The name of the session cookie for this scope: its label, unless the scope says otherwise.
    fn session_cookie_name(&self) -> (name: String)
        default_ensures
            exists|label: String| #[trigger]
                call_ensures(Self::label, (self,), label) && name@ == label@,
    {
        self.label()
    }
}

/// Derives the scope of a request. Supplied by the application.
pub trait ScopeResolver: Send + Sync + 'static {
    type Scope: AuthScope;

    fn resolve(&self, request: &AuthRequest) -> (scope: Self::Scope);
}

/// The scope of a single-tenant service: one realm, never public.
///
/// Public routes in a single-tenant service are better handled by not wrapping them in the
/// middleware at all; [`AuthScope::is_public`] exists for services whose public routes are
/// interleaved with protected ones.
#[derive(Clone, Copy, Debug, PartialEq, Eq, Hash, Default)]
pub struct NoScope;

impl AuthScope for NoScope {
    fn label(&self) -> (label: String)
        ensures
            label@ == "session"@,
    {
        String::from_str("session")
    }
}

/// Resolves every request to [`NoScope`].
#[derive(Clone, Copy, Debug, Default)]
pub struct SingleScope;

impl ScopeResolver for SingleScope {
    type Scope = NoScope;

    fn resolve(&self, _request: &AuthRequest) -> (scope: NoScope) {
        NoScope
    }
}

/// Whether `public` is what the scope says of itself.
pub open spec fn says_public<S: AuthScope>(scope: S, public: bool) -> bool {
    call_ensures(S::is_public, (&scope,), public)
}

/// Whether `label` is how the scope is written.
pub open spec fn says_label<S: AuthScope>(scope: S, label: Seq<char>) -> bool {
    exists|text: String| #[trigger] call_ensures(S::label, (&scope,), text) && text@ == label
}

/// Whether `discriminator` is the scope's cache discriminator.
pub open spec fn says_discriminator<S: AuthScope>(
    scope: S,
    discriminator: Option<Seq<char>>,
) -> bool {
    exists|found: Option<&str>| #[trigger]
        call_ensures(S::cache_discriminator, (&scope,), found) && text::optional_str(found)
            == discriminator
}

/// Whether `name` is the scope's session cookie name.
pub open spec fn says_cookie_name<S: AuthScope>(scope: S, name: Seq<char>) -> bool {
    exists|text: String| #[trigger]
        call_ensures(S::session_cookie_name, (&scope,), text) && text@ == name
}

/// The single realm of a single-tenant service is never public, has no discriminator, and its
/// session cookie is named after it.
pub proof fn single_realm_is_never_public(
    public: bool,
    label: Seq<char>,
    discriminator: Option<Seq<char>>,
    cookie: Seq<char>,
)
    requires
        says_public(NoScope, public),
        says_label(NoScope, label),
        says_discriminator(NoScope, discriminator),
        says_cookie_name(NoScope, cookie),
    ensures
        !public,
        discriminator is None,
        label == "session"@,
        cookie == label,
{
}

} // verus!
