//! Translating requests and rendering failures.
use authn_kit::adapters::{cookies_from_headers, error_to_response, translate_request};
use authn_kit::time::Duration;
use authn_kit::{AuthError, CookieDirective, Credential, SameSite};

fn pairs(list: &[(&str, &str)]) -> Vec<(String, String)> {
    list.iter()
        .map(|(name, value)| (name.to_string(), value.to_string()))
        .collect()
}

// ------------------------------------------------------ request translation

#[test]
fn translates_an_actix_request() {
    let translated = translate_request(
        "GET",
        "/admin/acme/workspaces",
        None,
        "org=acme&state=aGk=",
        &pairs(&[("X-Org-Id", "acme"), ("authorization", "Bearer good")]),
        &pairs(&[("session", "jwt-value")]),
    );

    assert_eq!(translated.method(), "GET");
    assert_eq!(translated.path(), "/admin/acme/workspaces");
    assert_eq!(translated.query(), "org=acme&state=aGk=");
    assert_eq!(translated.header("x-org-id"), Some("acme"));
    assert_eq!(translated.query_param("state"), Some("aGk="));
    assert_eq!(translated.cookie("session"), Some("jwt-value"));
    assert!(matches!(
        Credential::from_request(&translated),
        Credential::Bearer(_)
    ));
}

#[test]
fn repeated_fields_are_translated_in_order() {
    let translated = translate_request(
        "get",
        "/admin/acme/workspaces",
        Some("/admin/{org}/workspaces".to_string()),
        "",
        &pairs(&[("X-Org-Id", "acme"), ("x-org-id", "second")]),
        &pairs(&[("session", "older"), ("session", "newer")]),
    );

    assert_eq!(translated.method(), "GET");
    assert_eq!(translated.header("X-ORG-ID"), Some("acme"));
    assert_eq!(translated.header_all("x-org-id").len(), 2);
    assert_eq!(translated.path_param("{org}"), Some("acme"));
    assert_eq!(translated.cookie("session"), Some("newer"));

    let copy = translated.clone();
    assert_eq!(copy.header("x-org-id"), Some("acme"));
    assert_eq!(copy.cookie("session"), Some("newer"));
    assert_eq!(copy.path_param("{org}"), Some("acme"));
}

#[test]
fn cookie_headers_are_read_in_order() {
    let values = vec![
        "a=1; b=x=y;flag; =empty".to_string(),
        " c = 3 ".to_string(),
        "".to_string(),
    ];
    assert_eq!(
        cookies_from_headers(&values),
        pairs(&[("a", "1"), ("b", "x=y"), ("", "empty"), ("c ", " 3")])
    );
    assert!(cookies_from_headers(&Vec::new()).is_empty());
}

// --------------------------------------------------------- error rendering

#[test]
fn renders_each_error_with_its_status() {
    let cases = [
        (AuthError::unauthenticated("x"), 401),
        (AuthError::malformed_credential("x"), 400),
        (AuthError::scope_denied("x"), 403),
        (AuthError::unsupported("x"), 501),
        (AuthError::upstream("x"), 503),
        (AuthError::internal("x"), 500),
    ];

    for (error, expected) in cases {
        let response = error_to_response(&error);
        assert_eq!(response.status, expected);
        assert_eq!(response.message, Some(error.client_message()));
        assert_eq!(response.is_service_fault, error.is_service_fault());
        assert!(response.location.is_none() && response.cookies.is_empty());
    }
}

#[test]
fn rendered_body_carries_the_client_message_not_the_detail() {
    let error = AuthError::upstream("connect to https://internal-idp.svc refused");
    let body = error_to_response(&error).message.unwrap();

    assert!(body.contains("Authentication service unavailable"));
    assert!(!body.contains("internal-idp.svc"));
}

#[test]
fn renders_a_redirect_with_its_cookies() {
    let error = AuthError::redirect(
        "https://idp.example/authorize?x=1",
        vec![
            CookieDirective::set("protection", "state-value")
                .with_path("/app")
                .with_max_age(Duration::from_secs(600))
                .with_same_site(Some(SameSite::Strict)),
            CookieDirective::clear("session"),
        ],
    );

    let response = error_to_response(&error);

    assert_eq!(response.status, 302);
    assert_eq!(
        response.location.as_deref(),
        Some("https://idp.example/authorize?x=1")
    );
    assert_eq!(response.message, None);
    assert!(!response.is_service_fault);

    let cookies: Vec<String> = response.cookies.iter().map(|c| c.to_string()).collect();

    assert_eq!(cookies.len(), 2);
    let protection = cookies
        .iter()
        .find(|c| c.starts_with("protection="))
        .unwrap();
    assert!(protection.contains("Path=/app"));
    assert!(protection.contains("Max-Age=600"));
    assert!(protection.contains("HttpOnly"));
    assert!(protection.contains("Secure"));
    assert!(protection.contains("SameSite=Strict"));

    let session = cookies.iter().find(|c| c.starts_with("session=")).unwrap();
    assert!(session.contains("Max-Age=0"));
}
