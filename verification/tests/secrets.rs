use outrider::config::Config;
use outrider::constants::annotations;
use outrider::error::{ApiError, OutriderError};
use outrider::sync::secrets::{
    create_downstream_secret, get_enabled_secrets, get_target_namespace, is_secret_enabled,
};
use outrider::types::meta::ObjectMeta;
use outrider::types::secret::Secret;
use outrider::types::string_map::StringMap;

fn string_map(pairs: &[(&str, &str)]) -> StringMap<String> {
    let mut map = StringMap::new();
    for (key, value) in pairs {
        map.insert(key.to_string(), value.to_string());
    }
    map
}

fn make_secret(name: &str, namespace: &str, annotations: Option<StringMap<String>>) -> Secret {
    let mut data = StringMap::new();
    data.insert("password".to_string(), "secret123".as_bytes().to_vec());
    Secret {
        metadata: ObjectMeta {
            name: Some(name.to_string()),
            namespace: Some(namespace.to_string()),
            annotations,
            ..Default::default()
        },
        data: Some(data),
        type_: Some("Opaque".to_string()),
        ..Default::default()
    }
}

fn make_config(default_namespace: &str) -> Config {
    Config { default_target_namespace: default_namespace.to_string(), testing_mode: false }
}

#[test]
fn test_is_secret_enabled_true() {
    let secret =
        make_secret("my-secret", "default", Some(string_map(&[(annotations::ENABLED, "true")])));

    assert!(is_secret_enabled(&secret));
}

#[test]
fn test_is_secret_enabled_false_value() {
    let secret =
        make_secret("my-secret", "default", Some(string_map(&[(annotations::ENABLED, "false")])));

    assert!(!is_secret_enabled(&secret));
}

#[test]
fn test_is_secret_enabled_no_annotation() {
    let secret = make_secret("my-secret", "default", None);
    assert!(!is_secret_enabled(&secret));
}

#[test]
fn test_is_secret_enabled_wrong_annotation() {
    let secret =
        make_secret("my-secret", "default", Some(string_map(&[("some.other/annotation", "true")])));

    assert!(!is_secret_enabled(&secret));
}

#[test]
fn test_get_target_namespace_from_annotation() {
    let secret = make_secret(
        "my-secret",
        "default",
        Some(string_map(&[(annotations::NAMESPACE, "custom-namespace")])),
    );
    let config = make_config("default-ns");

    assert_eq!(get_target_namespace(&secret, &config), "custom-namespace");
}

#[test]
fn test_get_target_namespace_fallback_to_config() {
    let secret = make_secret("my-secret", "default", None);
    let config = make_config("default-ns");

    assert_eq!(get_target_namespace(&secret, &config), "default-ns");
}

#[test]
fn test_create_downstream_secret_filters_outrider_annotations() {
    let secret = make_secret(
        "my-secret",
        "source-ns",
        Some(string_map(&[
            (annotations::ENABLED, "true"),
            (annotations::NAMESPACE, "target-ns"),
            ("keep.this/annotation", "value"),
        ])),
    );

    let downstream = create_downstream_secret(&secret, "target-ns");

    let annotations = downstream.metadata.annotations.unwrap();
    assert!(!annotations.contains_key(annotations::ENABLED));
    assert!(!annotations.contains_key(annotations::NAMESPACE));
    assert_eq!(annotations.get("keep.this/annotation").unwrap(), "value");
}

#[test]
fn test_create_downstream_secret_sets_target_namespace() {
    let secret = make_secret("my-secret", "source-ns", None);

    let downstream = create_downstream_secret(&secret, "target-ns");

    assert_eq!(downstream.metadata.namespace.unwrap(), "target-ns");
}

#[test]
fn test_create_downstream_secret_preserves_data() {
    let secret = make_secret("my-secret", "source-ns", None);

    let downstream = create_downstream_secret(&secret, "target-ns");

    assert_eq!(downstream.data, secret.data);
    assert_eq!(downstream.type_, secret.type_);
}

#[test]
fn test_create_downstream_secret_preserves_name() {
    let secret = make_secret("my-secret", "source-ns", None);

    let downstream = create_downstream_secret(&secret, "target-ns");

    assert_eq!(downstream.metadata.name.unwrap(), "my-secret");
}

#[test]
fn enabled_value_must_be_exactly_true() {
    for value in ["True", "TRUE", "yes", "1", "", " true", "true ", "truee"] {
        let secret =
            make_secret("s", "default", Some(string_map(&[(annotations::ENABLED, value)])));
        assert!(!is_secret_enabled(&secret));
    }
}

#[test]
fn enabled_with_empty_annotations_is_false() {
    let secret = make_secret("s", "default", Some(StringMap::new()));
    assert!(!is_secret_enabled(&secret));
}

#[test]
fn target_namespace_override_wins_over_default() {
    let secret = make_secret(
        "s",
        "default",
        Some(string_map(&[(annotations::ENABLED, "true"), (annotations::NAMESPACE, "")])),
    );
    // An override that is present is taken as it is, even where it is empty.
    assert_eq!(get_target_namespace(&secret, &make_config("default-ns")), "");
}

#[test]
fn target_namespace_ignores_other_annotations() {
    let secret =
        make_secret("s", "default", Some(string_map(&[("outrider.geeko.me/namespaces", "x")])));
    assert_eq!(get_target_namespace(&secret, &make_config("fleet-secrets")), "fleet-secrets");
}

#[test]
fn downstream_drops_every_operator_annotation() {
    let secret = make_secret(
        "s",
        "src",
        Some(string_map(&[
            ("outrider.geeko.me/", "bare prefix"),
            ("outrider.geeko.me/custom", "x"),
            ("outrider.geeko.me", "no slash"),
            ("xoutrider.geeko.me/enabled", "inside"),
            ("other", "kept"),
        ])),
    );
    let downstream = create_downstream_secret(&secret, "dst");
    let annotations = downstream.metadata.annotations.unwrap();
    assert_eq!(annotations.len(), 3);
    assert!(!annotations.contains_key("outrider.geeko.me/"));
    assert!(!annotations.contains_key("outrider.geeko.me/custom"));
    assert_eq!(annotations.get("outrider.geeko.me").unwrap(), "no slash");
    assert_eq!(annotations.get("xoutrider.geeko.me/enabled").unwrap(), "inside");
    assert_eq!(annotations.get("other").unwrap(), "kept");
}

#[test]
fn downstream_keeps_labels_payload_type_and_immutability() {
    let mut secret = make_secret("s", "src", Some(string_map(&[(annotations::ENABLED, "true")])));
    secret.metadata.labels = Some(string_map(&[("app", "web"), ("outrider.geeko.me/label", "l")]));
    secret.string_data = Some(string_map(&[("user", "admin")]));
    secret.immutable = Some(true);
    secret.metadata.generate_name = Some("gen-".to_string());

    let downstream = create_downstream_secret(&secret, "dst");

    assert_eq!(downstream.metadata.labels, secret.metadata.labels);
    assert_eq!(downstream.data, secret.data);
    assert_eq!(downstream.string_data, secret.string_data);
    assert_eq!(downstream.type_, Some("Opaque".to_string()));
    assert_eq!(downstream.immutable, Some(true));
    assert_eq!(downstream.metadata.generate_name, None);
    assert_eq!(downstream.metadata.annotations.unwrap().len(), 0);
}

#[test]
fn downstream_without_annotations_has_none() {
    let secret = make_secret("s", "src", None);
    assert!(create_downstream_secret(&secret, "dst").metadata.annotations.is_none());
}

#[test]
fn enabled_secrets_are_filtered_in_order() {
    let listing = vec![
        make_secret("a", "ns", Some(string_map(&[(annotations::ENABLED, "true")]))),
        make_secret("b", "ns", Some(string_map(&[(annotations::ENABLED, "false")]))),
        make_secret("c", "ns", None),
        make_secret("d", "ns", Some(string_map(&[(annotations::ENABLED, "true")]))),
    ];
    let enabled = get_enabled_secrets(Ok(listing)).unwrap();
    let names: Vec<String> = enabled.iter().map(|secret| secret.name_any()).collect();
    assert_eq!(names, vec!["a".to_string(), "d".to_string()]);
}

#[test]
fn enabled_secrets_of_a_failed_listing_is_the_failure() {
    let failure = ApiError { code: Some(500), message: "boom".to_string() };
    match get_enabled_secrets(Err(failure)) {
        Err(OutriderError::KubeError(failure)) => {
            assert_eq!(failure.code, Some(500));
            assert_eq!(failure.message, "boom");
        }
        other => panic!("unexpected: {:?}", other),
    }
}

#[test]
fn enabled_secrets_of_an_empty_listing_is_empty() {
    assert!(get_enabled_secrets(Ok(Vec::new())).unwrap().is_empty());
}
