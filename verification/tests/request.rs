use authn_kit::AuthRequest;

#[test]
fn header_lookup_is_case_insensitive() {
    let request = AuthRequest::builder()
        .header("X-Org-Id", "acme")
        .header("x-org-id", "second")
        .build();

    assert_eq!(request.header("x-org-id"), Some("acme"));
    assert_eq!(request.header("X-ORG-ID"), Some("acme"));
    assert_eq!(request.header_all("X-Org-Id").len(), 2);
    assert_eq!(request.header("absent"), None);
}

#[test]
fn query_param_matches_whole_names_only() {
    let request = AuthRequest::builder()
        .query("other_org=wrong&org=right")
        .build();

    assert_eq!(request.query_param("org"), Some("right"));
    assert_eq!(request.query_param("other_org"), Some("wrong"));
    assert_eq!(request.query_param("or"), None);
}

#[test]
fn query_param_preserves_values_containing_equals() {
    let request = AuthRequest::builder()
        .query("state=aGVsbG8=&code=x")
        .build();

    assert_eq!(request.query_param("state"), Some("aGVsbG8="));
    assert_eq!(request.query_param("code"), Some("x"));
}

#[test]
fn path_param_aligns_pattern_against_path() {
    let request = AuthRequest::builder()
        .path("/admin/acme/workspaces")
        .route_pattern(Some("/admin/{org_id}/workspaces".to_string()))
        .build();

    assert_eq!(request.path_param("{org_id}"), Some("acme"));
    assert_eq!(request.path_param("{absent}"), None);
}

#[test]
fn path_param_is_none_without_a_route_pattern() {
    let request = AuthRequest::builder().path("/admin/acme").build();

    assert_eq!(request.path_param("{org_id}"), None);
}

#[test]
fn cookies_round_trip() {
    let request = AuthRequest::builder()
        .cookie("session", "jwt-value")
        .build();

    assert_eq!(request.cookie("session"), Some("jwt-value"));
    assert_eq!(request.cookie("absent"), None);
}

#[test]
fn builder_normalises_method_and_header_names() {
    let request = AuthRequest::builder()
        .method("get")
        .path("/p")
        .query("flag&a=1&a=2")
        .header("ACCEPT", "x")
        .cookie("c", "first")
        .cookie("c", "second")
        .build();

    assert_eq!(request.method(), "GET");
    assert_eq!(request.path(), "/p");
    assert_eq!(request.route_pattern(), None);
    assert_eq!(request.header_all("accept"), ["x".to_string()]);
    assert_eq!(request.header_all("absent").len(), 0);
    assert_eq!(request.query_param("a"), Some("1"));
    assert_eq!(request.query_param("flag"), None);
    assert_eq!(request.cookie("c"), Some("second"));
}

#[test]
fn path_param_needs_a_segment_at_its_place() {
    let request = AuthRequest::builder()
        .path("/admin")
        .route_pattern(Some("/admin/{org_id}".to_string()))
        .build();

    assert_eq!(request.path_param("{org_id}"), None);
    assert_eq!(request.path_param("admin"), Some("admin"));
}
