use outrider::config::{Config, ConfigError};

fn var(value: &str) -> Option<String> {
    Some(value.to_string())
}

#[test]
fn test_from_env_success() {
    let config = Config::from_env(var("my-namespace"), None).unwrap();
    assert_eq!(config.default_target_namespace, "my-namespace");
    assert!(!config.testing_mode);
}

#[test]
fn test_from_env_with_testing_mode() {
    let config = Config::from_env(var("my-namespace"), var("true")).unwrap();
    assert_eq!(config.default_target_namespace, "my-namespace");
    assert!(config.testing_mode);
}

#[test]
fn test_from_env_missing_namespace() {
    let result = Config::from_env(None, None);
    assert!(result.is_err());
    assert!(result.unwrap_err().to_string().contains("DEFAULT_TARGET_NAMESPACE"));
}

#[test]
fn test_from_env_invalid_testing_mode() {
    let config = Config::from_env(var("my-namespace"), var("not-a-bool")).unwrap();
    // Invalid bool parses to false
    assert!(!config.testing_mode);
}

#[test]
fn from_env_testing_mode_false_is_off() {
    let config = Config::from_env(var("ns"), var("false")).unwrap();
    assert!(!config.testing_mode);
}

#[test]
fn from_env_testing_mode_is_exact() {
    for value in ["True", "TRUE", "1", "yes", " true", "true ", ""] {
        let config = Config::from_env(var("ns"), var(value)).unwrap();
        assert!(!config.testing_mode);
    }
}

#[test]
fn from_env_missing_namespace_even_with_testing_mode() {
    let result = Config::from_env(None, var("true"));
    assert_eq!(result.unwrap_err(), ConfigError::MissingDefaultTargetNamespace);
}

#[test]
fn from_env_error_text_is_exact() {
    assert_eq!(
        ConfigError::MissingDefaultTargetNamespace.to_string(),
        "DEFAULT_TARGET_NAMESPACE environment variable not set"
    );
}

#[test]
fn from_env_empty_namespace_is_kept() {
    let config = Config::from_env(var(""), None).unwrap();
    assert_eq!(config.default_target_namespace, "");
}
