use outrider::constants::crd::{POLL_INTERVAL_SECS, POLL_MAX_INTERVAL_SECS};
use outrider::error::{ApiError, OutriderError};
use outrider::kubernetes::crd::{
    check_cluster_crd_exists, wait_for_cluster_crd, ApiGroup, ApiResource, CrdStep,
};

fn resource(kind: &str, version: &str) -> ApiResource {
    ApiResource { kind: kind.to_string(), version: version.to_string() }
}

fn group(name: &str, resources: Vec<ApiResource>) -> ApiGroup {
    ApiGroup { name: name.to_string(), recommended_resources: resources }
}

#[test]
fn test_crd_exists_returns_true() {
    // What discovery yields for /apis/provisioning.cattle.io/v1 with the clusters resource.
    let discovered = vec![group("provisioning.cattle.io", vec![resource("Cluster", "v1")])];

    let result = check_cluster_crd_exists(Ok(discovered));

    assert!(result.is_ok());
    assert!(result.unwrap());
}

#[test]
fn test_crd_not_found_returns_false() {
    // When the API group doesn't exist/have the CRD
    let result = check_cluster_crd_exists(Ok(Vec::new()));

    assert!(result.is_ok());
    assert!(!result.unwrap());
}

#[test]
fn crd_needs_group_kind_and_version_together() {
    let cases = vec![
        vec![group("provisioning.cattle.io", vec![resource("Cluster", "v2")])],
        vec![group("provisioning.cattle.io", vec![resource("Clusters", "v1")])],
        vec![group("management.cattle.io", vec![resource("Cluster", "v1")])],
        vec![group("provisioning.cattle.io", Vec::new())],
        vec![
            group("provisioning.cattle.io", vec![resource("Other", "v1")]),
            group("x", vec![resource("Cluster", "v1")]),
        ],
    ];
    for discovered in cases {
        assert!(!check_cluster_crd_exists(Ok(discovered)).unwrap());
    }
}

#[test]
fn crd_is_found_among_other_groups_and_resources() {
    let discovered = vec![
        group("apps", vec![resource("Deployment", "v1")]),
        group(
            "provisioning.cattle.io",
            vec![resource("Other", "v1"), resource("Cluster", "v1")],
        ),
    ];
    assert!(check_cluster_crd_exists(Ok(discovered)).unwrap());
}

#[test]
fn crd_discovery_failure_is_the_api_failure() {
    let failure = ApiError { code: Some(503), message: "unavailable".to_string() };
    match check_cluster_crd_exists(Err(failure)) {
        Err(OutriderError::KubeError(failure)) => assert_eq!(failure.code, Some(503)),
        other => panic!("unexpected: {:?}", other),
    }
}

#[test]
fn crd_wait_backs_off_10_20_40_60_60() {
    let mut wait = wait_for_cluster_crd();
    assert_eq!(wait.interval(), POLL_INTERVAL_SECS);
    let mut slept = Vec::new();
    for _ in 0..6 {
        match wait.step(Ok(false)) {
            CrdStep::RetryAfter { seconds } => slept.push(seconds),
            CrdStep::Available => panic!("not available"),
        }
    }
    assert_eq!(slept, vec![10, 20, 40, 60, 60, 60]);
    assert_eq!(wait.interval(), POLL_MAX_INTERVAL_SECS);
}

#[test]
fn crd_wait_retries_on_errors_too() {
    let mut wait = wait_for_cluster_crd();
    let failure = ApiError { code: None, message: "down".to_string() };
    assert_eq!(
        wait.step(Err(OutriderError::KubeError(failure))),
        CrdStep::RetryAfter { seconds: 10 }
    );
    assert_eq!(wait.step(Ok(false)), CrdStep::RetryAfter { seconds: 20 });
}

#[test]
fn crd_wait_ends_when_available() {
    let mut wait = wait_for_cluster_crd();
    assert_eq!(wait.step(Ok(true)), CrdStep::Available);
    assert_eq!(wait.interval(), 10);
    let mut wait = wait_for_cluster_crd();
    wait.step(Ok(false));
    wait.step(Ok(false));
    assert_eq!(wait.step(Ok(true)), CrdStep::Available);
    assert_eq!(wait.interval(), 40);
}
