//! Session representation and the cookie settings that carry it.
use vstd::prelude::*;

use crate::cookie::{self, CookieDirective, CookieId, CookieView, SameSite};
use crate::error::{AuthError, AuthErrorView};
use crate::text;
use crate::time::{self, Duration, SystemTime};

verus! {

/// An authenticated browser session.
#[derive(Debug)]
pub struct Session {
    /// The ID token minted by the provider. Verified again on each request and not trusted, so a
    /// revoked or expired token stops working without any server-side state.
    pub id_token: String,
    /// When the underlying token expires, when the provider reported it.
    pub expires_at: Option<SystemTime>,
}

/// What a [`Session`] says.
pub ghost struct SessionView {
    pub id_token: Seq<char>,
    pub expires_at: Option<nat>,
}

impl View for Session {
    type V = SessionView;

    open spec fn view(&self) -> SessionView {
        SessionView { id_token: self.id_token@, expires_at: time::optional_moment(self.expires_at) }
    }
}

impl Clone for Session {
    fn clone(&self) -> (copy: Session)
        ensures
            copy@ == self@,
    {
        Session { id_token: self.id_token.clone(), expires_at: self.expires_at }
    }
}

/// Converts a [`Session`] to and from the opaque string stored in the cookie.
///
/// Browsers cap a cookie at roughly 4KB, and an ID token carrying group memberships can exceed it,
/// so encrypting the payload or storing an opaque handle is a predictable alternative to
/// [`IdTokenCodec`].
pub trait SessionCodec: Send + Sync + 'static {
    fn encode(&self, session: &Session) -> (raw: Result<String, AuthError>);

    fn decode(&self, raw: &str) -> (session: Result<Session, AuthError>);
}

/// Stores the ID token verbatim as the cookie value.
#[derive(Clone, Copy, Debug, Default)]
pub struct IdTokenCodec;

impl SessionCodec for IdTokenCodec {
    fn encode(&self, session: &Session) -> (raw: Result<String, AuthError>)
        ensures
            raw is Ok,
            raw->Ok_0@ == session@.id_token,
    {
        Ok(session.id_token.clone())
    }

    fn decode(&self, raw: &str) -> (session: Result<Session, AuthError>)
        ensures
            match session {
                Ok(session) => raw@.len() > 0 && session@ == (SessionView {
                    id_token: raw@,
                    expires_at: None,
                }),
                Err(error) => raw@.len() == 0 && error@ == (AuthErrorView::Unauthenticated {
                    detail: "empty session cookie"@,
                }),
            },
    {
        if raw.unicode_len() == 0 {
            return Err(AuthError::unauthenticated("empty session cookie"));
        }
        Ok(Session { id_token: String::from_str(raw), expires_at: None })
    }
}

/// What [`IdTokenCodec`] reads back from what it wrote is the ID token.
pub proof fn id_token_codec_round_trips(
    codec: IdTokenCodec,
    session: Session,
    raw: &str,
    written: Result<String, AuthError>,
    read: Result<Session, AuthError>,
)
    requires
        session@.id_token.len() > 0,
        call_ensures(IdTokenCodec::encode, (&codec, &session), written),
        written is Ok && raw@ == written->Ok_0@,
        call_ensures(IdTokenCodec::decode, (&codec, raw), read),
    ensures
        read is Ok,
        read->Ok_0@.id_token == session@.id_token,
{
}

/// How a cookie this crate emits should be scoped and protected.
///
/// `secure` is configurable, because a browser never sends a secure cookie back over plain HTTP,
/// so local development against `http://localhost` would not work with it.
#[derive(Debug)]
pub struct CookieSettings {
    pub name: String,
    pub path: String,
    pub domain: Option<String>,
    pub max_age: Duration,
    pub secure: bool,
    pub same_site: Option<SameSite>,
}

/// What [`CookieSettings`] say.
pub ghost struct SettingsView {
    pub name: Seq<char>,
    pub path: Seq<char>,
    pub domain: Option<Seq<char>>,
    pub max_age: nat,
    pub secure: bool,
    pub same_site: Option<SameSite>,
}

impl View for CookieSettings {
    type V = SettingsView;

    open spec fn view(&self) -> SettingsView {
        SettingsView {
            name: self.name@,
            path: self.path@,
            domain: text::optional(self.domain),
            max_age: self.max_age@,
            secure: self.secure,
            same_site: self.same_site,
        }
    }
}

impl SettingsView {
    /// Settings for a cookie that lives for `secs` seconds: for the whole site, over TLS only, and
    /// `Lax`. `Strict` would withhold the cookie on the cross-site navigation by which the
    /// provider returns the user.
    pub open spec fn standard(name: Seq<char>, secs: nat) -> SettingsView {
        SettingsView {
            name,
            path: "/"@,
            domain: None,
            max_age: secs * 1_000_000_000,
            secure: true,
            same_site: Some(SameSite::Lax),
        }
    }

    /// Which of a browser's cookies the settings are about.
    pub open spec fn address(self) -> CookieId {
        CookieId { name: self.name, path: Some(self.path), domain: self.domain }
    }

    /// Whether a cookie is protected as the settings say, and out of reach of scripts.
    pub open spec fn protects(self, cookie: CookieView) -> bool {
        cookie.http_only && cookie.secure == self.secure && cookie.same_site == self.same_site
    }

    /// The cookie that carries `value`. Always `HttpOnly`: nothing in these cookies has a
    /// legitimate reason to be readable from JavaScript.
    pub open spec fn setting(self, value: Seq<char>) -> CookieView {
        CookieView {
            path: Some(self.path),
            domain: self.domain,
            max_age: Some(self.max_age),
            http_only: true,
            secure: self.secure,
            same_site: self.same_site,
            ..cookie::fresh_cookie(self.name, value)
        }
    }

    /// The cookie that removes it from the client: empty, of no age, and addressed alike.
    pub open spec fn clearing(self) -> CookieView {
        CookieView {
            path: Some(self.path),
            domain: self.domain,
            max_age: Some(0),
            secure: self.secure,
            same_site: self.same_site,
            ..cookie::fresh_cookie(self.name, Seq::empty())
        }
    }
}

impl CookieSettings {
    /// Settings for the session cookie, which lives for a day.
    pub fn session(name: &str) -> (settings: CookieSettings)
        ensures
            settings@ == SettingsView::standard(name@, 86_400),
    {
        CookieSettings::standard(name, 86_400)
    }

    /// Settings for the short-lived login-protection cookie, which holds the CSRF token, the nonce
    /// and the PKCE verifier.
    ///
    /// Ten minutes is ample for a human to complete a login and bounds how long a stolen verifier
    /// is useful.
    pub fn protection(name: &str) -> (settings: CookieSettings)
        ensures
            settings@ == SettingsView::standard(name@, 600),
    {
        CookieSettings::standard(name, 600)
    }

    fn standard(name: &str, secs: u64) -> (settings: CookieSettings)
        ensures
            settings@ == SettingsView::standard(name@, secs as nat),
    {
        CookieSettings {
            name: String::from_str(name),
            path: String::from_str("/"),
            domain: None,
            max_age: Duration::from_secs(secs),
            secure: true,
            same_site: Some(SameSite::Lax),
        }
    }

    pub fn with_path(self, path: &str) -> (settings: CookieSettings)
        ensures
            settings@ == (SettingsView { path: path@, ..self@ }),
    {
        CookieSettings { path: String::from_str(path), ..self }
    }

    pub fn with_domain(self, domain: Option<String>) -> (settings: CookieSettings)
        ensures
            settings@ == (SettingsView { domain: text::optional(domain), ..self@ }),
    {
        CookieSettings { domain, ..self }
    }

    pub fn with_max_age(self, max_age: Duration) -> (settings: CookieSettings)
        ensures
            settings@ == (SettingsView { max_age: max_age@, ..self@ }),
    {
        CookieSettings { max_age, ..self }
    }

    /// Set `false` only for local development over plain HTTP.
    pub fn with_secure(self, secure: bool) -> (settings: CookieSettings)
        ensures
            settings@ == (SettingsView { secure, ..self@ }),
    {
        CookieSettings { secure, ..self }
    }

    pub fn with_same_site(self, same_site: Option<SameSite>) -> (settings: CookieSettings)
        ensures
            settings@ == (SettingsView { same_site, ..self@ }),
    {
        CookieSettings { same_site, ..self }
    }

    /// Builds the `Set-Cookie` directive carrying `value`.
    pub fn set(&self, value: &str) -> (cookie: CookieDirective)
        ensures
            cookie@ == self@.setting(value@),
    {
        let cookie = CookieDirective::set(self.name.as_str(), value);
        let cookie = cookie.with_path(self.path.as_str());
        let cookie = cookie.with_domain_opt(text::copy_optional(&self.domain));
        let cookie = cookie.with_max_age(self.max_age);
        let cookie = cookie.with_http_only(true);
        let cookie = cookie.with_secure(self.secure);
        cookie.with_same_site(self.same_site)
    }

    /// Builds the directive that removes this cookie from the client.
    pub fn clear(&self) -> (cookie: CookieDirective)
        ensures
            cookie@ == self@.clearing(),
    {
        let cookie = CookieDirective::clear(self.name.as_str());
        let cookie = cookie.with_path(self.path.as_str());
        let cookie = cookie.with_domain_opt(text::copy_optional(&self.domain));
        let cookie = cookie.with_secure(self.secure);
        cookie.with_same_site(self.same_site)
    }
}

impl Clone for CookieSettings {
    fn clone(&self) -> (copy: CookieSettings)
        ensures
            copy@ == self@,
    {
        CookieSettings {
            name: self.name.clone(),
            path: self.path.clone(),
            domain: text::copy_optional(&self.domain),
            max_age: self.max_age,
            secure: self.secure,
            same_site: self.same_site,
        }
    }
}

/// Clearing a cookie addresses the one that was set: same name, path and domain.
pub proof fn clearing_targets_the_cookie_that_was_set(settings: SettingsView, value: Seq<char>)
    ensures
        settings.clearing().name == settings.setting(value).name,
        settings.clearing().path == settings.setting(value).path,
        settings.clearing().domain == settings.setting(value).domain,
        settings.clearing().max_age == Some(0nat),
        settings.setting(value).http_only && settings.clearing().http_only,
{
}

/// A browser that is sent the cookie holds its value for as long as the settings say, and one that
/// is sent the removal does not hold the cookie, whatever it held before.
pub proof fn settings_address_one_cookie(
    jar: Map<CookieId, CookieView>,
    settings: CookieSettings,
    value: &str,
    set: CookieDirective,
    clear: CookieDirective,
)
    requires
        call_ensures(CookieSettings::set, (&settings, value), set),
        call_ensures(CookieSettings::clear, (&settings,), clear),
        settings@.max_age >= 1_000_000_000,
    ensures
        ({
            let held = cookie::held_after(jar, seq![set@]);
            let left = cookie::held_after(held, seq![clear@]);
            let id = CookieId {
                name: settings@.name,
                path: Some(settings@.path),
                domain: settings@.domain,
            };
            &&& held.contains_key(id) && held[id].value == value@
            &&& held[id].max_age == Some(settings@.max_age)
            &&& settings@.protects(set@) && settings@.protects(clear@)
            &&& !left.contains_key(id)
            &&& forall|other: CookieId|
                other != id ==> #[trigger] left.contains_key(other) == jar.contains_key(other)
        }),
{
    cookie::lemma_held_after_two(jar, seq![set@, clear@]);
}

/// Each setting changes itself alone.
pub proof fn settings_change_one_by_one(
    settings: CookieSettings,
    path: &str,
    domain: Option<String>,
    age: Duration,
    secure: bool,
    same_site: Option<SameSite>,
    with_path: CookieSettings,
    with_domain: CookieSettings,
    with_age: CookieSettings,
    with_secure: CookieSettings,
    with_same_site: CookieSettings,
)
    requires
        call_ensures(CookieSettings::with_path, (settings, path), with_path),
        call_ensures(CookieSettings::with_domain, (settings, domain), with_domain),
        call_ensures(CookieSettings::with_max_age, (settings, age), with_age),
        call_ensures(CookieSettings::with_secure, (settings, secure), with_secure),
        call_ensures(CookieSettings::with_same_site, (settings, same_site), with_same_site),
    ensures
        with_path@ == (SettingsView { path: path@, ..settings@ }),
        with_domain@ == (SettingsView { domain: text::optional(domain), ..settings@ }),
        with_age@ == (SettingsView { max_age: age@, ..settings@ }),
        with_secure@ == (SettingsView { secure, ..settings@ }),
        with_same_site@ == (SettingsView { same_site, ..settings@ }),
{
}

/// What [`IdTokenCodec`] writes is the ID token itself, whatever its expiry, and an empty cookie is
/// no session.
pub proof fn id_token_is_written_verbatim(
    codec: IdTokenCodec,
    session: Session,
    written: Result<String, AuthError>,
    raw: &str,
    read: Result<Session, AuthError>,
)
    requires
        call_ensures(IdTokenCodec::encode, (&codec, &session), written),
        call_ensures(IdTokenCodec::decode, (&codec, raw), read),
    ensures
        written is Ok && written->Ok_0@ == session.id_token@,
        (read is Ok) == (raw@.len() > 0),
        read is Ok ==> read->Ok_0.id_token@ == raw@ && read->Ok_0.expires_at is None,
        read is Err ==> read->Err_0@.status() == 401,
{
    if read is Ok {
        assert(read->Ok_0@.expires_at is None);
    }
}

/// The cookies of a login are named as asked, sent for the whole site over TLS only, withheld from
/// cross-site requests but for navigations, and live for a day and for ten minutes.
pub proof fn cookies_are_conservative_by_default(
    name: &str,
    session: CookieSettings,
    protection: CookieSettings,
)
    requires
        call_ensures(CookieSettings::session, (name,), session),
        call_ensures(CookieSettings::protection, (name,), protection),
    ensures
        session@.name == name@ && protection@.name == name@,
        session@.path == "/"@ && protection@.path == "/"@,
        session@.domain is None && protection@.domain is None,
        session@.secure && protection@.secure,
        session@.same_site == Some(SameSite::Lax) && protection@.same_site == Some(SameSite::Lax),
        session@.max_age == 24 * 60 * 60 * 1_000_000_000,
        protection@.max_age == 10 * 60 * 1_000_000_000,
{
}

} // verus!
