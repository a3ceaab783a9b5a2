use std::collections::{BTreeMap, BTreeSet};

use outrider::config::Config;
use outrider::constants::annotations;
use outrider::error::{ApiError, OutriderError};
use outrider::kubernetes::client::ConnectError;
use outrider::sync::copy::{
    copy_secret_to_cluster, CopyInput, CopyRequest, CopyStage, SecretCopy,
};
use outrider::types::cluster::{Cluster, ClusterSpec, ClusterStatus};
use outrider::types::meta::ObjectMeta;
use outrider::types::secret::Secret;
use outrider::types::string_map::StringMap;

const KUBECONFIG: &str = "apiVersion: v1
kind: Config
clusters:
- name: c1
  cluster:
    server: https://10.0.0.1:6443
contexts: []
users: []
";

/// A cluster kept in memory: its namespaces, its secrets, and what was asked of it.
struct FakeCluster {
    namespaces: BTreeSet<String>,
    secrets: BTreeMap<(String, String), Secret>,
    asked: Vec<String>,
    fail_on: Option<&'static str>,
}

impl FakeCluster {
    fn new() -> Self {
        FakeCluster {
            namespaces: BTreeSet::new(),
            secrets: BTreeMap::new(),
            asked: Vec::new(),
            fail_on: None,
        }
    }

    fn failure(&self, what: &str) -> Option<ApiError> {
        if self.fail_on == Some(what) {
            Some(ApiError { code: Some(500), message: format!("{} failed", what) })
        } else {
            None
        }
    }

    /// Answers one request of a copy, or hands back how the copy ended.
    fn answer(&mut self, request: CopyRequest) -> Result<CopyInput, Result<(), OutriderError>> {
        match request {
            CopyRequest::InferConfig => {
                self.asked.push("infer".to_string());
                Ok(CopyInput::ConfigInferred(Ok("https://mgmt/k8s/clusters/local".to_string())))
            }
            CopyRequest::GetKubeconfigSecret { namespace, name } => {
                self.asked.push(format!("credentials {}/{}", namespace, name));
                let mut data = StringMap::new();
                data.insert("value".to_string(), KUBECONFIG.as_bytes().to_vec());
                let secret = Secret { data: Some(data), ..Default::default() };
                Ok(CopyInput::KubeconfigSecretFetched(Ok(secret)))
            }
            CopyRequest::ConnectAmbient { cluster_url } => {
                let url = cluster_url.unwrap_or_default();
                self.asked.push(format!("connect {}", url));
                Ok(CopyInput::Connected(match self.fail_on {
                    Some("connect") => Err(ConnectError::Client("no route".to_string())),
                    _ => Ok(()),
                }))
            }
            CopyRequest::ConnectKubeconfig { kubeconfig } => {
                let parsed: kube::config::Kubeconfig = serde_yaml::from_str(&kubeconfig).unwrap();
                self.asked.push(format!("connect {}", parsed.clusters[0].name));
                Ok(CopyInput::Connected(Ok(())))
            }
            CopyRequest::GetNamespace { name } => {
                self.asked.push(format!("get namespace {}", name));
                Ok(CopyInput::NamespaceFetched(match self.failure("get namespace") {
                    Some(failure) => Err(failure),
                    None if self.namespaces.contains(&name) => Ok(()),
                    None => Err(ApiError { code: Some(404), message: "not found".to_string() }),
                }))
            }
            CopyRequest::CreateNamespace { name } => {
                self.asked.push(format!("create namespace {}", name));
                Ok(CopyInput::NamespaceCreated(match self.failure("create namespace") {
                    Some(failure) => Err(failure),
                    None => {
                        self.namespaces.insert(name);
                        Ok(())
                    }
                }))
            }
            CopyRequest::ApplySecret { name, namespace, secret, field_manager, force } => {
                self.asked.push(format!(
                    "apply {}/{} as {} force={}",
                    namespace, name, field_manager, force
                ));
                Ok(CopyInput::SecretApplied(match self.failure("apply") {
                    Some(failure) => Err(failure),
                    None => {
                        self.secrets.insert((namespace, name), secret);
                        Ok(())
                    }
                }))
            }
            CopyRequest::Done(outcome) => Err(outcome),
        }
    }

    /// Carries one copy through.
    fn copy(&mut self, secret: &Secret, cluster: &Cluster, config: &Config) -> Result<(), OutriderError> {
        let (mut copy, mut request): (SecretCopy, CopyRequest) =
            copy_secret_to_cluster(secret, cluster, config);
        loop {
            match self.answer(request) {
                Ok(input) => request = copy.step(input).unwrap(),
                Err(outcome) => {
                    assert_eq!(copy.stage(), CopyStage::Finished);
                    return outcome;
                }
            }
        }
    }
}

fn source_secret(name: &str, extra: &[(&str, &str)]) -> Secret {
    let mut annotations = StringMap::new();
    annotations.insert(annotations::ENABLED.to_string(), "true".to_string());
    for (key, value) in extra {
        annotations.insert(key.to_string(), value.to_string());
    }
    let mut data = StringMap::new();
    data.insert("password".to_string(), b"secret123".to_vec());
    let mut labels = StringMap::new();
    labels.insert("app".to_string(), "web".to_string());
    Secret {
        metadata: ObjectMeta {
            name: Some(name.to_string()),
            namespace: Some("app".to_string()),
            labels: Some(labels),
            annotations: Some(annotations),
            ..Default::default()
        },
        data: Some(data),
        type_: Some("Opaque".to_string()),
        ..Default::default()
    }
}

fn target(name: &str) -> Cluster {
    Cluster {
        metadata: ObjectMeta {
            name: Some(name.to_string()),
            namespace: Some("fleet-default".to_string()),
            ..Default::default()
        },
        spec: ClusterSpec { kubernetes_version: None, local: None, display_name: None },
        status: Some(ClusterStatus { cluster_name: format!("c-{}", name), ..Default::default() }),
    }
}

fn config(testing_mode: bool) -> Config {
    Config { default_target_namespace: "fleet-secrets".to_string(), testing_mode }
}

#[test]
fn copy_ensures_the_namespace_and_applies_without_operator_annotations() {
    // Secret s1 in app, enabled, no override, default namespace fleet-secrets, cluster c1.
    let mut c1 = FakeCluster::new();
    let secret = source_secret("s1", &[("team", "a")]);
    let outcome = c1.copy(&secret, &target("c1"), &config(false));
    assert!(outcome.is_ok());
    assert_eq!(
        c1.asked,
        vec![
            "credentials fleet-default/c1-kubeconfig",
            "connect c1",
            "get namespace fleet-secrets",
            "create namespace fleet-secrets",
            "apply fleet-secrets/s1 as outrider force=true",
        ]
    );
    assert!(c1.namespaces.contains("fleet-secrets"));
    assert_eq!(c1.secrets.len(), 1);
    let written = &c1.secrets[&("fleet-secrets".to_string(), "s1".to_string())];
    assert_eq!(written.metadata.name.as_deref(), Some("s1"));
    assert_eq!(written.metadata.namespace.as_deref(), Some("fleet-secrets"));
    let annotations = written.metadata.annotations.as_ref().unwrap();
    assert!(!annotations.contains_key(annotations::ENABLED));
    assert_eq!(annotations.get("team").unwrap(), "a");
    assert_eq!(annotations.len(), 1);
    assert_eq!(written.metadata.labels, secret.metadata.labels);
    assert_eq!(written.data, secret.data);
    assert_eq!(written.type_, secret.type_);
}

#[test]
fn copy_twice_leaves_one_object_and_creates_the_namespace_once() {
    let mut c1 = FakeCluster::new();
    let secret = source_secret("s1", &[]);
    assert!(c1.copy(&secret, &target("c1"), &config(false)).is_ok());
    let after_first = c1.secrets.len();
    let first = format!("{:?}", c1.secrets);
    assert!(c1.copy(&secret, &target("c1"), &config(false)).is_ok());
    assert_eq!(c1.secrets.len(), after_first);
    assert_eq!(format!("{:?}", c1.secrets), first);
    assert_eq!(c1.asked.iter().filter(|asked| asked.starts_with("create namespace")).count(), 1);
    assert_eq!(c1.asked.iter().filter(|asked| asked.starts_with("apply")).count(), 2);
}

#[test]
fn copy_goes_to_the_namespace_that_the_secret_names() {
    let mut c1 = FakeCluster::new();
    c1.namespaces.insert("custom".to_string());
    let secret = source_secret("s1", &[(annotations::NAMESPACE, "custom")]);
    assert!(c1.copy(&secret, &target("c1"), &config(false)).is_ok());
    assert!(c1.secrets.contains_key(&("custom".to_string(), "s1".to_string())));
    assert!(!c1.asked.iter().any(|asked| asked.starts_with("create namespace")));
    let written = &c1.secrets[&("custom".to_string(), "s1".to_string())];
    assert_eq!(written.metadata.annotations.as_ref().unwrap().len(), 0);
}

#[test]
fn copy_in_testing_mode_connects_by_the_replaced_url() {
    let mut c1 = FakeCluster::new();
    let secret = source_secret("s1", &[]);
    assert!(c1.copy(&secret, &target("c1"), &config(true)).is_ok());
    assert_eq!(c1.asked[0], "infer");
    assert_eq!(c1.asked[1], "connect https://mgmt/k8s/clusters/c-c1");
    assert_eq!(c1.asked[2], "get namespace fleet-secrets");
}

#[test]
fn copy_ends_with_the_failure_of_any_step() {
    let secret = source_secret("s1", &[]);

    let mut c1 = FakeCluster::new();
    c1.fail_on = Some("connect");
    match c1.copy(&secret, &target("c1"), &config(true)) {
        Err(OutriderError::KubeconfigError(text)) => {
            assert_eq!(text, "Failed to create client: no route")
        }
        other => panic!("unexpected: {:?}", other),
    }
    assert!(!c1.asked.iter().any(|asked| asked.starts_with("get namespace")));

    let mut c1 = FakeCluster::new();
    c1.fail_on = Some("get namespace");
    match c1.copy(&secret, &target("c1"), &config(false)) {
        Err(OutriderError::NamespaceError(text)) => assert_eq!(
            text,
            "Failed to check/create namespace fleet-secrets: get namespace failed"
        ),
        other => panic!("unexpected: {:?}", other),
    }
    assert!(c1.secrets.is_empty());

    let mut c1 = FakeCluster::new();
    c1.fail_on = Some("create namespace");
    match c1.copy(&secret, &target("c1"), &config(false)) {
        Err(OutriderError::KubeError(failure)) => {
            assert_eq!(failure.message, "create namespace failed")
        }
        other => panic!("unexpected: {:?}", other),
    }
    assert!(!c1.asked.iter().any(|asked| asked.starts_with("apply")));

    let mut c1 = FakeCluster::new();
    c1.fail_on = Some("apply");
    match c1.copy(&secret, &target("c1"), &config(false)) {
        Err(OutriderError::KubeError(failure)) => assert_eq!(failure.message, "apply failed"),
        other => panic!("unexpected: {:?}", other),
    }
    assert!(c1.namespaces.contains("fleet-secrets"));
}

#[test]
fn copy_ends_when_credentials_are_malformed() {
    let secret = source_secret("s1", &[]);
    let (mut copy, request) = copy_secret_to_cluster(&secret, &target("c1"), &config(false));
    assert!(matches!(request, CopyRequest::GetKubeconfigSecret { .. }));
    assert_eq!(copy.stage(), CopyStage::AwaitCredentials);
    let mut data = StringMap::new();
    data.insert("value".to_string(), b"clusters: 5".to_vec());
    let fetched = Secret { data: Some(data), ..Default::default() };
    match copy.step(CopyInput::KubeconfigSecretFetched(Ok(fetched))) {
        Some(CopyRequest::Done(Err(OutriderError::KubeconfigError(text)))) => {
            assert!(text.starts_with("Failed to parse kubeconfig: "))
        }
        other => panic!("unexpected: {:?}", other),
    }
    assert_eq!(copy.stage(), CopyStage::Finished);
    assert!(copy.step(CopyInput::Connected(Ok(()))).is_none());
}

#[test]
fn copy_refuses_answers_that_it_did_not_ask_for() {
    let secret = source_secret("s1", &[]);
    let (mut copy, request) = copy_secret_to_cluster(&secret, &target("c1"), &config(true));
    assert!(matches!(request, CopyRequest::InferConfig));
    assert_eq!(copy.target_namespace(), "fleet-secrets");
    assert!(copy.step(CopyInput::Connected(Ok(()))).is_none());
    assert!(copy.step(CopyInput::NamespaceFetched(Ok(()))).is_none());
    assert!(copy.step(CopyInput::SecretApplied(Ok(()))).is_none());
    assert_eq!(copy.stage(), CopyStage::AwaitConfig);
    let answer = CopyInput::ConfigInferred(Ok("https://mgmt/other".to_string()));
    match copy.step(answer) {
        Some(CopyRequest::ConnectAmbient { cluster_url }) => assert!(cluster_url.is_none()),
        other => panic!("unexpected: {:?}", other),
    }
}
