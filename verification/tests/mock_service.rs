use outrider::test_utils::{
    namespace_document, namespace_json, not_found_document, not_found_json, MockService,
    NOT_FOUND_BODY,
};

#[test]
fn mock_answers_exact_paths_by_method() {
    let mock = MockService::new()
        .on_get("/api/v1/namespaces/a", 200, "get-a")
        .on_post("/api/v1/namespaces/a", 201, "post-a");
    assert_eq!(mock.find_response("GET", "/api/v1/namespaces/a"), Some((200, "get-a".to_string())));
    assert_eq!(
        mock.find_response("POST", "/api/v1/namespaces/a"),
        Some((201, "post-a".to_string()))
    );
    assert_eq!(mock.find_response("PATCH", "/api/v1/namespaces/a"), None);
    assert_eq!(mock.find_response("get", "/api/v1/namespaces/a"), None);
}

#[test]
fn mock_prefers_the_exact_path_over_a_prefix() {
    let mock = MockService::new()
        .on_get("/api", 200, "prefix")
        .on_get("/api/v1", 200, "exact");
    assert_eq!(mock.find_response("GET", "/api/v1"), Some((200, "exact".to_string())));
    assert_eq!(mock.find_response("GET", "/api"), Some((200, "prefix".to_string())));
}

#[test]
fn mock_falls_back_to_a_registered_prefix() {
    let mock = MockService::new().on_get("/api/v1/namespaces", 200, "list");
    assert_eq!(
        mock.find_response("GET", "/api/v1/namespaces/foo"),
        Some((200, "list".to_string()))
    );
    assert_eq!(mock.find_response("GET", "/api/v1/name"), None);
    assert_eq!(mock.find_response("POST", "/api/v1/namespaces/foo"), None);
}

#[test]
fn mock_takes_the_first_registered_prefix() {
    let mock = MockService::new().on_get("/a", 200, "first").on_get("/a/b", 200, "second");
    assert_eq!(mock.find_response("GET", "/a/b/c"), Some((200, "first".to_string())));
}

#[test]
fn mock_replaces_an_earlier_answer() {
    let mock = MockService::new().on_get("/a", 200, "old").on_get("/a", 500, "new");
    assert_eq!(mock.find_response("GET", "/a"), Some((500, "new".to_string())));
}

#[test]
fn mock_answers_404_to_what_is_not_registered() {
    let mock = MockService::default();
    let (status, body) = mock.respond("GET", "/anything");
    assert_eq!(status, 404);
    assert_eq!(body, NOT_FOUND_BODY);
    assert_eq!(
        body,
        r#"{"kind":"Status","apiVersion":"v1","status":"Failure","message":"not found","reason":"NotFound","code":404}"#
    );
    let mock = mock.on_get("/a", 200, "ok");
    assert_eq!(mock.respond("GET", "/a"), (200, "ok".to_string()));
}

#[test]
fn namespace_json_is_the_namespace_document() {
    assert_eq!(
        namespace_json("test-ns"),
        r#"{"apiVersion":"v1","kind":"Namespace","metadata":{"name":"test-ns","uid":"test-uid"}}"#
    );
    let value: serde_json::Value = serde_json::from_str(&namespace_json("test-ns")).unwrap();
    assert_eq!(value["kind"], "Namespace");
    assert_eq!(value["metadata"]["name"], "test-ns");
    assert_eq!(value["metadata"]["uid"], "test-uid");
}

#[test]
fn namespace_json_escapes_the_name() {
    let json = namespace_json("a\"b\\c\n");
    assert_eq!(
        json,
        r#"{"apiVersion":"v1","kind":"Namespace","metadata":{"name":"a\"b\\c\n","uid":"test-uid"}}"#
    );
    let value: serde_json::Value = serde_json::from_str(&json).unwrap();
    assert_eq!(value["metadata"]["name"], "a\"b\\c\n");
}

#[test]
fn not_found_json_is_the_status_document() {
    let json = not_found_json("namespaces", "new-ns");
    assert_eq!(
        json,
        r#"{"apiVersion":"v1","code":404,"kind":"Status","message":"namespaces \"new-ns\" not found","reason":"NotFound","status":"Failure"}"#
    );
    let value: serde_json::Value = serde_json::from_str(&json).unwrap();
    assert_eq!(value["code"], 404);
    assert_eq!(value["message"], "namespaces \"new-ns\" not found");
    assert_eq!(value["reason"], "NotFound");
}

#[test]
fn documents_put_the_literal_in_place() {
    assert_eq!(
        namespace_document("\"x\""),
        r#"{"apiVersion":"v1","kind":"Namespace","metadata":{"name":"x","uid":"test-uid"}}"#
    );
    assert_eq!(
        not_found_document("\"m\""),
        r#"{"apiVersion":"v1","code":404,"kind":"Status","message":"m","reason":"NotFound","status":"Failure"}"#
    );
}
