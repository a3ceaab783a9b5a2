use outrider::error::{ApiError, OutriderError};
use outrider::kubernetes::namespaces::{ensure_namespace_exists, namespace_created, NamespaceStep};
use outrider::test_utils::{namespace_json, MockService};

/// Asks the table as a client would, and reports the answer as the outcome of the call.
fn call(mock: &MockService, method: &str, path: &str) -> Result<(), ApiError> {
    let (status, body) = mock.respond(method, path);
    if status < 300 {
        Ok(())
    } else {
        Err(ApiError { code: Some(status), message: body })
    }
}

/// Makes sure of the namespace against the table.
fn ensure(mock: &MockService, namespace: &str) -> Result<(), OutriderError> {
    let found = call(mock, "GET", &format!("/api/v1/namespaces/{}", namespace));
    match ensure_namespace_exists(namespace, found) {
        NamespaceStep::Exists => Ok(()),
        NamespaceStep::Create { name } => {
            assert_eq!(name, namespace);
            namespace_created(call(mock, "POST", "/api/v1/namespaces"))
        }
        NamespaceStep::Failed(error) => Err(error),
    }
}

#[test]
fn test_namespace_already_exists() {
    let mock =
        MockService::new().on_get("/api/v1/namespaces/test-ns", 200, &namespace_json("test-ns"));

    let result = ensure(&mock, "test-ns");

    assert!(result.is_ok());
}

#[test]
fn test_namespace_created_when_not_found() {
    let mock = MockService::new()
        // GET returns 404
        .on_get(
            "/api/v1/namespaces/new-ns",
            404,
            r#"{"kind":"Status","apiVersion":"v1","status":"Failure","reason":"NotFound","code":404}"#,
        )
        // POST creates the namespace
        .on_post("/api/v1/namespaces", 201, &namespace_json("new-ns"));

    let result = ensure(&mock, "new-ns");

    assert!(result.is_ok());
}

#[test]
fn test_namespace_error_propagates() {
    let mock = MockService::new()
        // Return a 500 error
        .on_get(
            "/api/v1/namespaces/error-ns",
            500,
            r#"{"kind":"Status","apiVersion":"v1","status":"Failure","reason":"InternalError","code":500}"#,
        );

    let result = ensure(&mock, "error-ns");

    assert!(result.is_err());
}

#[test]
fn namespace_found_needs_nothing() {
    assert!(matches!(ensure_namespace_exists("ns", Ok(())), NamespaceStep::Exists));
}

#[test]
fn namespace_not_found_is_created_under_its_name() {
    let missing = ApiError { code: Some(404), message: "not found".to_string() };
    match ensure_namespace_exists("fleet-secrets", Err(missing)) {
        NamespaceStep::Create { name } => assert_eq!(name, "fleet-secrets"),
        other => panic!("unexpected: {:?}", other),
    }
}

#[test]
fn namespace_lookup_failure_is_a_namespace_error() {
    let failure = ApiError { code: Some(500), message: "boom".to_string() };
    match ensure_namespace_exists("ns1", Err(failure)) {
        NamespaceStep::Failed(OutriderError::NamespaceError(text)) => {
            assert_eq!(text, "Failed to check/create namespace ns1: boom");
        }
        other => panic!("unexpected: {:?}", other),
    }
}

#[test]
fn namespace_lookup_failure_without_code_is_a_namespace_error() {
    let failure = ApiError { code: None, message: "connection refused".to_string() };
    let step = ensure_namespace_exists("ns1", Err(failure));
    match step {
        NamespaceStep::Failed(error) => assert_eq!(
            error.to_string(),
            "Namespace creation failed: Failed to check/create namespace ns1: connection refused"
        ),
        other => panic!("unexpected: {:?}", other),
    }
}

#[test]
fn namespace_only_404_means_missing() {
    for code in [400u16, 401, 403, 405, 409, 410, 500, 503] {
        let failure = ApiError { code: Some(code), message: "x".to_string() };
        assert!(matches!(ensure_namespace_exists("ns", Err(failure)), NamespaceStep::Failed(_)));
    }
}

#[test]
fn namespace_creation_failure_is_the_api_failure() {
    let failure = ApiError { code: Some(409), message: "already exists".to_string() };
    match namespace_created(Err(failure)) {
        Err(OutriderError::KubeError(failure)) => {
            assert_eq!(failure.code, Some(409));
            assert_eq!(failure.message, "already exists");
        }
        other => panic!("unexpected: {:?}", other),
    }
    assert!(namespace_created(Ok(())).is_ok());
}

#[test]
fn namespace_unregistered_lookup_leads_to_creation_attempt() {
    // Nothing registered: the table answers 404 to the lookup and to the creation.
    let result = ensure(&MockService::new(), "ns");
    match result {
        Err(OutriderError::KubeError(failure)) => assert_eq!(failure.code, Some(404)),
        other => panic!("unexpected: {:?}", other),
    }
}
