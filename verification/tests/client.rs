use outrider::config::Config;
use outrider::error::{ApiError, OutriderError};
use outrider::kubernetes::client::{
    client_connected, cluster_url_parsed, create_client_from_kubeconfig, create_downstream_client,
    create_testing_client, find_stored_kubeconfig, get_cluster_kubeconfig, kubeconfig_decoded,
    kubeconfig_parsed, ClientSource, ConnectError,
};
use outrider::types::cluster::{Cluster, ClusterSpec, ClusterStatus};
use outrider::types::meta::ObjectMeta;
use outrider::types::secret::Secret;
use outrider::types::string_map::StringMap;

const KUBECONFIG: &str = "apiVersion: v1
kind: Config
clusters:
- name: downstream
  cluster:
    server: https://10.0.0.1:6443
contexts:
- name: downstream
  context:
    cluster: downstream
    user: admin
current-context: downstream
users:
- name: admin
  user:
    token: abc
";

fn downstream(name: &str, namespace: Option<&str>, internal: Option<&str>) -> Cluster {
    Cluster {
        metadata: ObjectMeta {
            name: Some(name.to_string()),
            namespace: namespace.map(|namespace| namespace.to_string()),
            ..Default::default()
        },
        spec: ClusterSpec { kubernetes_version: None, local: None, display_name: None },
        status: internal.map(|internal| ClusterStatus {
            cluster_name: internal.to_string(),
            ..Default::default()
        }),
    }
}

fn credentials(data: Option<Vec<(&str, Vec<u8>)>>) -> Secret {
    Secret {
        data: data.map(|entries| {
            let mut map = StringMap::new();
            for (key, value) in entries {
                map.insert(key.to_string(), value);
            }
            map
        }),
        ..Default::default()
    }
}

fn kubeconfig_error(result: Result<impl std::fmt::Debug, OutriderError>) -> String {
    match result {
        Err(OutriderError::KubeconfigError(text)) => text,
        other => panic!("unexpected: {:?}", other),
    }
}

#[test]
fn client_source_in_testing_mode_is_ambient() {
    let config = Config { default_target_namespace: "ns".to_string(), testing_mode: true };
    let source = create_downstream_client(&downstream("c1", Some("fleet-default"), None), &config);
    assert!(matches!(source, ClientSource::Ambient));
}

#[test]
fn client_source_in_production_is_the_credentials_object() {
    let config = Config { default_target_namespace: "ns".to_string(), testing_mode: false };
    match create_downstream_client(&downstream("c1", Some("fleet-default"), Some("c-1")), &config) {
        ClientSource::Stored { namespace, name } => {
            assert_eq!(namespace, "fleet-default");
            assert_eq!(name, "c1-kubeconfig");
        }
        other => panic!("unexpected: {:?}", other),
    }
}

#[test]
fn client_source_falls_back_to_the_system_namespace() {
    let config = Config { default_target_namespace: "ns".to_string(), testing_mode: false };
    let mut cluster = downstream("c1", None, Some("c-1"));
    cluster.status.as_mut().unwrap().client_secret_name = Some("custom".to_string());
    match create_downstream_client(&cluster, &config) {
        ClientSource::Stored { namespace, name } => {
            assert_eq!(namespace, "cattle-system");
            assert_eq!(name, "custom");
        }
        other => panic!("unexpected: {:?}", other),
    }
}

#[test]
fn testing_client_replaces_the_local_segment() {
    let cluster = downstream("c1", None, Some("c-12345"));
    let ambient = "https://rancher.example.com/k8s/clusters/local".to_string();
    let url = create_testing_client(&cluster, Ok(ambient)).unwrap().unwrap();
    assert_eq!(url, "https://rancher.example.com/k8s/clusters/c-12345");
    let uri: http::Uri = url.parse().unwrap();
    assert_eq!(uri.path(), "/k8s/clusters/c-12345");
}

#[test]
fn testing_client_uses_the_cluster_name_without_status() {
    let cluster = downstream("c1", None, None);
    let url = create_testing_client(&cluster, Ok("https://h/k8s/clusters/local".to_string()))
        .unwrap()
        .unwrap();
    assert_eq!(url, "https://h/k8s/clusters/c1");
}

#[test]
fn testing_client_replaces_only_the_last_segment() {
    let cluster = downstream("c1", None, Some("c-12345"));
    let ambient = "https://localhost:8443/k8s/clusters/local".to_string();
    let url = create_testing_client(&cluster, Ok(ambient)).unwrap().unwrap();
    assert_eq!(url, "https://localhost:8443/k8s/clusters/c-12345");
    let cluster = downstream("c1", None, Some("c-9"));
    let ambient = "https://local/local/local".to_string();
    let url = create_testing_client(&cluster, Ok(ambient)).unwrap().unwrap();
    assert_eq!(url, "https://local/local/c-9");
}

#[test]
fn testing_client_leaves_other_urls_alone() {
    let cluster = downstream("c1", None, Some("c-9"));
    for ambient in [
        "https://rancher.example.com/k8s/clusters/c-1",
        "https://localhost:6443/",
        "https://h/k8s/clusters/local/",
        "https://h/k8s/clusters/locals",
        "https://h/k8s/clusters/xlocal",
        "",
    ] {
        assert!(create_testing_client(&cluster, Ok(ambient.to_string())).unwrap().is_none());
    }
}

#[test]
fn testing_client_replaces_a_bare_local() {
    let cluster = downstream("c1", None, Some("example.com"));
    let url = create_testing_client(&cluster, Ok("local".to_string())).unwrap().unwrap();
    assert_eq!(url, "example.com");
}

#[test]
fn testing_client_refuses_an_invalid_url() {
    let cluster = downstream("c1", None, Some("bad name"));
    let ambient = "https://h/k8s/clusters/local".to_string();
    let text = kubeconfig_error(create_testing_client(&cluster, Ok(ambient)));
    assert_eq!(text, "Invalid URL: invalid uri character");
}

#[test]
fn testing_client_refuses_an_empty_url() {
    let cluster = downstream("c1", None, Some(""));
    let text = kubeconfig_error(create_testing_client(&cluster, Ok("local".to_string())));
    assert_eq!(text, "Invalid URL: empty string");
}

#[test]
fn testing_client_passes_the_inference_failure_on() {
    let cluster = downstream("c1", None, None);
    let text = kubeconfig_error(create_testing_client(&cluster, Err("no config".to_string())));
    assert_eq!(text, "Failed to infer config: no config");
}

#[test]
fn cluster_url_parsed_takes_either_outcome() {
    let url = cluster_url_parsed("https://h/a".to_string(), None).unwrap();
    assert_eq!(url, "https://h/a");
    let text = kubeconfig_error(cluster_url_parsed("x".to_string(), Some("why".to_string())));
    assert_eq!(text, "Invalid URL: why");
}

#[test]
fn kubeconfig_is_read_from_the_value_key() {
    let cluster = downstream("c1", None, None);
    let fetched = credentials(Some(vec![
        ("other", b"x".to_vec()),
        ("value", KUBECONFIG.as_bytes().to_vec()),
    ]));
    assert_eq!(get_cluster_kubeconfig(&cluster, Ok(fetched)).unwrap(), KUBECONFIG);
}

#[test]
fn kubeconfig_keeps_non_ascii_text() {
    let cluster = downstream("c1", None, None);
    let fetched = credentials(Some(vec![("value", "n\u{e4}me: \u{1f511}".as_bytes().to_vec())]));
    assert_eq!(get_cluster_kubeconfig(&cluster, Ok(fetched)).unwrap(), "n\u{e4}me: \u{1f511}");
}

#[test]
fn kubeconfig_fetch_failure_names_the_cluster() {
    let cluster = downstream("c1", None, None);
    let failure = ApiError { code: Some(404), message: "secrets \"x\" not found".to_string() };
    let text = kubeconfig_error(get_cluster_kubeconfig(&cluster, Err(failure)));
    assert_eq!(text, "Failed to get kubeconfig secret for cluster c1: secrets \"x\" not found");
}

#[test]
fn kubeconfig_without_data_is_refused() {
    let cluster = downstream("c1", None, None);
    let text = kubeconfig_error(get_cluster_kubeconfig(&cluster, Ok(credentials(None))));
    assert_eq!(text, "Kubeconfig secret for cluster c1 has no data");
}

#[test]
fn kubeconfig_without_value_key_is_refused() {
    let cluster = downstream("c1", None, None);
    let fetched = credentials(Some(vec![("token", b"x".to_vec())]));
    let text = kubeconfig_error(get_cluster_kubeconfig(&cluster, Ok(fetched)));
    assert_eq!(text, "Kubeconfig secret for cluster c1 does not contain 'value' key");
    let text = kubeconfig_error(get_cluster_kubeconfig(&cluster, Ok(credentials(Some(vec![])))));
    assert_eq!(text, "Kubeconfig secret for cluster c1 does not contain 'value' key");
}

#[test]
fn kubeconfig_that_is_not_utf8_is_refused() {
    let cluster = downstream("c1", None, None);
    let fetched = credentials(Some(vec![("value", vec![b'a', 0xff, b'b'])]));
    let text = kubeconfig_error(get_cluster_kubeconfig(&cluster, Ok(fetched)));
    assert_eq!(
        text,
        "Failed to decode kubeconfig for cluster c1: invalid utf-8 sequence of 1 bytes from index 1"
    );
}

#[test]
fn stored_kubeconfig_is_found_as_bytes() {
    let fetched = credentials(Some(vec![("value", vec![1, 2, 3])]));
    assert_eq!(find_stored_kubeconfig("c1", Ok(fetched)).unwrap(), vec![1, 2, 3]);
}

#[test]
fn kubeconfig_decoded_takes_either_outcome() {
    assert_eq!(kubeconfig_decoded("c1", Ok("text".to_string())).unwrap(), "text");
    let text = kubeconfig_error(kubeconfig_decoded("c1", Err("why".to_string())));
    assert_eq!(text, "Failed to decode kubeconfig for cluster c1: why");
}

#[test]
fn kubeconfig_text_is_parsed() {
    let checked = create_client_from_kubeconfig(KUBECONFIG.to_string()).unwrap();
    assert_eq!(checked, KUBECONFIG);
    let kubeconfig: kube::config::Kubeconfig = serde_yaml::from_str(&checked).unwrap();
    assert_eq!(kubeconfig.current_context.as_deref(), Some("downstream"));
    assert_eq!(kubeconfig.clusters.len(), 1);
    assert_eq!(kubeconfig.clusters[0].name, "downstream");
}

#[test]
fn kubeconfig_text_of_another_shape_is_refused() {
    let text = kubeconfig_error(create_client_from_kubeconfig("clusters: 5".to_string()));
    assert!(text.starts_with("Failed to parse kubeconfig: "));
    assert!(text.len() > "Failed to parse kubeconfig: ".len());
    let error = OutriderError::KubeconfigError(text.clone());
    assert_eq!(error.to_string(), format!("Failed to parse kubeconfig: {}", text));
}

#[test]
fn kubeconfig_text_that_is_no_yaml_is_refused() {
    let text = kubeconfig_error(create_client_from_kubeconfig("{ clusters: [".to_string()));
    assert!(text.starts_with("Failed to parse kubeconfig: "));
}

#[test]
fn kubeconfig_parsed_takes_either_outcome() {
    let checked = kubeconfig_parsed("a: b".to_string(), None).unwrap();
    assert_eq!(checked, "a: b");
    let text = kubeconfig_error(kubeconfig_parsed("x".to_string(), Some("why".to_string())));
    assert_eq!(text, "Failed to parse kubeconfig: why");
}

#[test]
fn connection_failures_are_malformed_credentials() {
    assert!(client_connected(Ok(())).is_ok());
    let text = kubeconfig_error(client_connected(Err(ConnectError::Config("a".to_string()))));
    assert_eq!(text, "Failed to create config: a");
    let text = kubeconfig_error(client_connected(Err(ConnectError::Client("b".to_string()))));
    assert_eq!(text, "Failed to create client: b");
}
