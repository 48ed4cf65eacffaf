//! The authentication failure type.
//!
//! Failures are described by what they mean, and each framework adapter renders them.
use vstd::prelude::*;

use crate::cookie::{self, CookieDirective, CookieView};
use crate::text;

verus! {

/// Why authentication did not produce a principal.
///
/// Each variant separates a client-facing message, returned in the HTTP response, from an
/// operator-facing detail that is logged and never sent to the client.
#[derive(Debug)]
pub enum AuthError {
    /// No usable credential was presented: a `401`. A browser flow usually answers with
    /// [`AuthError::Redirect`] instead, to start an interactive login.
    Unauthenticated { detail: String },
    /// A credential was presented but is invalid, expired or revoked: a `401`.
    InvalidCredential { detail: String },
    /// A credential was presented but could not be parsed: a `400`, because the client can fix it
    /// by sending a well-formed request.
    MalformedCredential { detail: String },
    /// The principal authenticated, but not for the scope this request targets: a `403`.
    ScopeDenied { detail: String },
    /// Interactive login is required. The adapter emits a `302` to `location` and applies
    /// `cookies`.
    Redirect { location: String, cookies: Vec<CookieDirective> },
    /// The configured provider cannot serve this mechanism at all: a `501`.
    Unsupported { detail: String },
    /// A dependency needed to decide the request was unreachable or failed, so the answer is
    /// unknown rather than negative: a `503`.
    Upstream { detail: String },
    /// Misconfiguration or an internal fault: a `500`.
    Internal { detail: String },
}

/// What an [`AuthError`] says.
pub ghost enum AuthErrorView {
    Unauthenticated { detail: Seq<char> },
    InvalidCredential { detail: Seq<char> },
    MalformedCredential { detail: Seq<char> },
    ScopeDenied { detail: Seq<char> },
    Redirect { location: Seq<char>, cookies: Seq<CookieView> },
    Unsupported { detail: Seq<char> },
    Upstream { detail: Seq<char> },
    Internal { detail: Seq<char> },
}

impl View for AuthError {
    type V = AuthErrorView;

    open spec fn view(&self) -> AuthErrorView {
        match *self {
            AuthError::Unauthenticated { detail } => AuthErrorView::Unauthenticated { detail: detail@ },
            AuthError::InvalidCredential { detail } => AuthErrorView::InvalidCredential { detail: detail@ },
            AuthError::MalformedCredential { detail } => AuthErrorView::MalformedCredential { detail: detail@ },
            AuthError::ScopeDenied { detail } => AuthErrorView::ScopeDenied { detail: detail@ },
            AuthError::Redirect { location, cookies } => AuthErrorView::Redirect {
                location: location@,
                cookies: cookie::cookie_views(cookies@),
            },
            AuthError::Unsupported { detail } => AuthErrorView::Unsupported { detail: detail@ },
            AuthError::Upstream { detail } => AuthErrorView::Upstream { detail: detail@ },
            AuthError::Internal { detail } => AuthErrorView::Internal { detail: detail@ },
        }
    }
}

impl AuthErrorView {
    /// The HTTP status of each kind of failure.
    pub open spec fn status(self) -> u16 {
        match self {
            AuthErrorView::Unauthenticated { .. } => 401,
            AuthErrorView::InvalidCredential { .. } => 401,
            AuthErrorView::MalformedCredential { .. } => 400,
            AuthErrorView::ScopeDenied { .. } => 403,
            AuthErrorView::Redirect { .. } => 302,
            AuthErrorView::Unsupported { .. } => 501,
            AuthErrorView::Upstream { .. } => 503,
            AuthErrorView::Internal { .. } => 500,
        }
    }

    /// The client-facing message of each kind of failure.
    pub open spec fn client_message(self) -> Seq<char> {
        match self {
            AuthErrorView::Unauthenticated { .. } => "Authentication required"@,
            AuthErrorView::InvalidCredential { .. } => "Invalid or expired credentials"@,
            AuthErrorView::MalformedCredential { .. } => "Malformed credentials"@,
            AuthErrorView::ScopeDenied { .. } => "Not authorised for this resource"@,
            AuthErrorView::Redirect { .. } => "Redirecting to sign in"@,
            AuthErrorView::Unsupported { .. } => "Authentication method not supported"@,
            AuthErrorView::Upstream { .. } => "Authentication service unavailable"@,
            AuthErrorView::Internal { .. } => "Internal authentication error"@,
        }
    }

    /// The operator-facing detail; for a redirect, where it leads.
    pub open spec fn detail(self) -> Seq<char> {
        match self {
            AuthErrorView::Unauthenticated { detail } => detail,
            AuthErrorView::InvalidCredential { detail } => detail,
            AuthErrorView::MalformedCredential { detail } => detail,
            AuthErrorView::ScopeDenied { detail } => detail,
            AuthErrorView::Redirect { location, .. } => location,
            AuthErrorView::Unsupported { detail } => detail,
            AuthErrorView::Upstream { detail } => detail,
            AuthErrorView::Internal { detail } => detail,
        }
    }

    /// Whether the failure is the service's fault.
    pub open spec fn is_service_fault(self) -> bool {
        self is Upstream || self is Internal
    }

    /// The same kind of failure with another detail.
    pub open spec fn with_detail(self, detail: Seq<char>) -> AuthErrorView {
        match self {
            AuthErrorView::Unauthenticated { .. } => AuthErrorView::Unauthenticated { detail },
            AuthErrorView::InvalidCredential { .. } => AuthErrorView::InvalidCredential { detail },
            AuthErrorView::MalformedCredential { .. } => AuthErrorView::MalformedCredential { detail },
            AuthErrorView::ScopeDenied { .. } => AuthErrorView::ScopeDenied { detail },
            AuthErrorView::Redirect { location, cookies } => AuthErrorView::Redirect { location: detail, cookies },
            AuthErrorView::Unsupported { .. } => AuthErrorView::Unsupported { detail },
            AuthErrorView::Upstream { .. } => AuthErrorView::Upstream { detail },
            AuthErrorView::Internal { .. } => AuthErrorView::Internal { detail },
        }
    }

    /// What introduces the detail in a log line.
    pub open spec fn label(self) -> Seq<char> {
        match self {
            AuthErrorView::Unauthenticated { .. } => "unauthenticated: "@,
            AuthErrorView::InvalidCredential { .. } => "invalid credential: "@,
            AuthErrorView::MalformedCredential { .. } => "malformed credential: "@,
            AuthErrorView::ScopeDenied { .. } => "scope denied: "@,
            AuthErrorView::Redirect { .. } => "redirect to "@,
            AuthErrorView::Unsupported { .. } => "unsupported: "@,
            AuthErrorView::Upstream { .. } => "upstream failure: "@,
            AuthErrorView::Internal { .. } => "internal error: "@,
        }
    }
}

impl AuthError {
    pub fn unauthenticated(detail: &str) -> (error: AuthError)
        ensures
            error@ == (AuthErrorView::Unauthenticated { detail: detail@ }),
    {
        AuthError::Unauthenticated { detail: String::from_str(detail) }
    }

    pub fn invalid_credential(detail: &str) -> (error: AuthError)
        ensures
            error@ == (AuthErrorView::InvalidCredential { detail: detail@ }),
    {
        AuthError::InvalidCredential { detail: String::from_str(detail) }
    }

    pub fn malformed_credential(detail: &str) -> (error: AuthError)
        ensures
            error@ == (AuthErrorView::MalformedCredential { detail: detail@ }),
    {
        AuthError::MalformedCredential { detail: String::from_str(detail) }
    }

    pub fn scope_denied(detail: &str) -> (error: AuthError)
        ensures
            error@ == (AuthErrorView::ScopeDenied { detail: detail@ }),
    {
        AuthError::ScopeDenied { detail: String::from_str(detail) }
    }

    pub fn unsupported(detail: &str) -> (error: AuthError)
        ensures
            error@ == (AuthErrorView::Unsupported { detail: detail@ }),
    {
        AuthError::Unsupported { detail: String::from_str(detail) }
    }

    pub fn upstream(detail: &str) -> (error: AuthError)
        ensures
            error@ == (AuthErrorView::Upstream { detail: detail@ }),
    {
        AuthError::Upstream { detail: String::from_str(detail) }
    }

    pub fn internal(detail: &str) -> (error: AuthError)
        ensures
            error@ == (AuthErrorView::Internal { detail: detail@ }),
    {
        AuthError::Internal { detail: String::from_str(detail) }
    }

    pub fn redirect(location: &str, cookies: Vec<CookieDirective>) -> (error: AuthError)
        ensures
            error@ == (AuthErrorView::Redirect {
                location: location@,
                cookies: cookie::cookie_views(cookies@),
            }),
    {
        AuthError::Redirect { location: String::from_str(location), cookies }
    }

    /// The HTTP status an adapter should render this as.
    pub fn status(&self) -> (status: u16)
        ensures
            status == self@.status(),
    {
        match self {
            AuthError::Unauthenticated { .. } => 401,
            AuthError::InvalidCredential { .. } => 401,
            AuthError::MalformedCredential { .. } => 400,
            AuthError::ScopeDenied { .. } => 403,
            AuthError::Redirect { .. } => 302,
            AuthError::Unsupported { .. } => 501,
            AuthError::Upstream { .. } => 503,
            AuthError::Internal { .. } => 500,
        }
    }

    /// The message safe to return to the client. It depends on the kind of failure alone, never on
    /// the operator detail, which may name internal hosts, configuration or upstream errors.
    pub fn client_message(&self) -> (message: &'static str)
        ensures
            message@ == self@.client_message(),
    {
        match self {
            AuthError::Unauthenticated { .. } => "Authentication required",
            AuthError::InvalidCredential { .. } => "Invalid or expired credentials",
            AuthError::MalformedCredential { .. } => "Malformed credentials",
            AuthError::ScopeDenied { .. } => "Not authorised for this resource",
            AuthError::Redirect { .. } => "Redirecting to sign in",
            AuthError::Unsupported { .. } => "Authentication method not supported",
            AuthError::Upstream { .. } => "Authentication service unavailable",
            AuthError::Internal { .. } => "Internal authentication error",
        }
    }

    /// The operator-facing detail, for logs only.
    pub fn detail(&self) -> (detail: &str)
        ensures
            detail@ == self@.detail(),
    {
        match self {
            AuthError::Unauthenticated { detail } => detail.as_str(),
            AuthError::InvalidCredential { detail } => detail.as_str(),
            AuthError::MalformedCredential { detail } => detail.as_str(),
            AuthError::ScopeDenied { detail } => detail.as_str(),
            AuthError::Redirect { location, .. } => location.as_str(),
            AuthError::Unsupported { detail } => detail.as_str(),
            AuthError::Upstream { detail } => detail.as_str(),
            AuthError::Internal { detail } => detail.as_str(),
        }
    }

    /// Whether the failure is the service's fault rather than the client's, and so warrants an
    /// error-level log and an alert.
    pub fn is_service_fault(&self) -> (fault: bool)
        ensures
            fault == self@.is_service_fault(),
    {
        match self {
            AuthError::Upstream { .. } => true,
            AuthError::Internal { .. } => true,
            _ => false,
        }
    }

    /// The failure as a log line: what kind it is, and the operator detail.
    pub fn to_string(&self) -> (line: String)
        ensures
            line@ == self@.label() + self@.detail(),
    {
        let label = match self {
            AuthError::Unauthenticated { .. } => "unauthenticated: ",
            AuthError::InvalidCredential { .. } => "invalid credential: ",
            AuthError::MalformedCredential { .. } => "malformed credential: ",
            AuthError::ScopeDenied { .. } => "scope denied: ",
            AuthError::Redirect { .. } => "redirect to ",
            AuthError::Unsupported { .. } => "unsupported: ",
            AuthError::Upstream { .. } => "upstream failure: ",
            AuthError::Internal { .. } => "internal error: ",
        };
        text::join(label, self.detail())
    }
}

/// What reaches the client says nothing of the operator detail: replacing the detail changes
/// neither the message nor the status nor whose fault the failure is.
pub proof fn client_message_hides_the_detail(error: AuthErrorView, detail: Seq<char>)
    ensures
        error.with_detail(detail).detail() == detail,
        error.with_detail(detail).client_message() == error.client_message(),
        error.with_detail(detail).status() == error.status(),
        error.with_detail(detail).is_service_fault() == error.is_service_fault(),
{
}

/// Each kind of failure is reported under its own HTTP status, and only what went wrong on the
/// service's side counts as its fault. The detail is for the operator.
pub proof fn failures_are_reported_by_kind(
    error: AuthError,
    status: u16,
    message: &'static str,
    detail: &str,
    fault: bool,
    line: String,
)
    requires
        call_ensures(AuthError::status, (&error,), status),
        call_ensures(AuthError::client_message, (&error,), message),
        call_ensures(AuthError::detail, (&error,), detail),
        call_ensures(AuthError::is_service_fault, (&error,), fault),
        call_ensures(AuthError::to_string, (&error,), line),
    ensures
        match error {
            AuthError::Unauthenticated { detail: d } => status == 401 && detail@ == d@ && !fault,
            AuthError::InvalidCredential { detail: d } => status == 401 && detail@ == d@ && !fault,
            AuthError::MalformedCredential { detail: d } => status == 400 && detail@ == d@ && !fault,
            AuthError::ScopeDenied { detail: d } => status == 403 && detail@ == d@ && !fault,
            AuthError::Redirect { location, .. } => status == 302 && detail@ == location@ && !fault,
            AuthError::Unsupported { detail: d } => status == 501 && detail@ == d@ && !fault,
            AuthError::Upstream { detail: d } => status == 503 && detail@ == d@ && fault,
            AuthError::Internal { detail: d } => status == 500 && detail@ == d@ && fault,
        },
        line@.len() >= detail@.len(),
        line@.subrange(line@.len() - detail@.len(), line@.len() as int) == detail@,
{
    assert(line@.subrange(line@.len() - detail@.len(), line@.len() as int) =~= detail@);
}

/// Failures of one kind have one message for the client, and failures of different kinds have
/// different ones.
pub proof fn client_is_told_the_kind_alone(
    one: AuthError,
    other: AuthError,
    message: &'static str,
    other_message: &'static str,
)
    requires
        call_ensures(AuthError::client_message, (&one,), message),
        call_ensures(AuthError::client_message, (&other,), other_message),
    ensures
        (message@ == other_message@) == ({
            ||| one is Unauthenticated && other is Unauthenticated
            ||| one is InvalidCredential && other is InvalidCredential
            ||| one is MalformedCredential && other is MalformedCredential
            ||| one is ScopeDenied && other is ScopeDenied
            ||| one is Redirect && other is Redirect
            ||| one is Unsupported && other is Unsupported
            ||| one is Upstream && other is Upstream
            ||| one is Internal && other is Internal
        }),
{
    reveal_strlit("Authentication required");
    reveal_strlit("Invalid or expired credentials");
    reveal_strlit("Malformed credentials");
    reveal_strlit("Not authorised for this resource");
    reveal_strlit("Redirecting to sign in");
    reveal_strlit("Authentication method not supported");
    reveal_strlit("Authentication service unavailable");
    reveal_strlit("Internal authentication error");
    assert("Authentication required"@.len() == 23);
    assert("Invalid or expired credentials"@.len() == 30);
    assert("Malformed credentials"@.len() == 21);
    assert("Not authorised for this resource"@.len() == 32);
    assert("Redirecting to sign in"@.len() == 22);
    assert("Authentication method not supported"@.len() == 35);
    assert("Authentication service unavailable"@.len() == 34);
    assert("Internal authentication error"@.len() == 29);
}

/// A failure is of the kind it was made as, with the detail it was given.
pub proof fn failure_is_what_it_was_made_as(
    detail: &str,
    cookies: Vec<CookieDirective>,
    unauthenticated: AuthError,
    invalid: AuthError,
    malformed: AuthError,
    denied: AuthError,
    unsupported: AuthError,
    upstream: AuthError,
    internal: AuthError,
    redirect: AuthError,
)
    requires
        call_ensures(AuthError::unauthenticated, (detail,), unauthenticated),
        call_ensures(AuthError::invalid_credential, (detail,), invalid),
        call_ensures(AuthError::malformed_credential, (detail,), malformed),
        call_ensures(AuthError::scope_denied, (detail,), denied),
        call_ensures(AuthError::unsupported, (detail,), unsupported),
        call_ensures(AuthError::upstream, (detail,), upstream),
        call_ensures(AuthError::internal, (detail,), internal),
        call_ensures(AuthError::redirect, (detail, cookies), redirect),
    ensures
        unauthenticated@ is Unauthenticated && unauthenticated@.detail() == detail@,
        invalid@ is InvalidCredential && invalid@.detail() == detail@,
        malformed@ is MalformedCredential && malformed@.detail() == detail@,
        denied@ is ScopeDenied && denied@.detail() == detail@,
        unsupported@ is Unsupported && unsupported@.detail() == detail@,
        upstream@ is Upstream && upstream@.detail() == detail@,
        internal@ is Internal && internal@.detail() == detail@,
        redirect@ == (AuthErrorView::Redirect {
            location: detail@,
            cookies: cookie::cookie_views(cookies@),
        }),
{
}

} // verus!
