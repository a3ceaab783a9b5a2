//! The operator's configuration, as the environment gives it.

use vstd::prelude::*;
use vstd::string::*;
use crate::text::str_eq;

verus! {

/// Name of the variable that holds the default target namespace.
pub const DEFAULT_TARGET_NAMESPACE: &'static str = "DEFAULT_TARGET_NAMESPACE";

/// Name of the variable that switches the testing mode on.
pub const TESTING_MODE: &'static str = "TESTING_MODE";

/// What the operator is configured with.
#[derive(Debug)]
pub struct Config {
    /// The namespace that secrets are copied into where they name none themselves.
    pub default_target_namespace: String,
    /// Whether downstream clients are derived from the ambient connection
    /// descriptor in place of stored credentials.
    pub testing_mode: bool,
}

/// What a `Config` holds, as mathematical values.
pub struct ConfigView {
    pub default_target_namespace: Seq<char>,
    pub testing_mode: bool,
}

impl View for Config {
    type V = ConfigView;

    open spec fn view(&self) -> ConfigView {
        ConfigView {
            default_target_namespace: self.default_target_namespace@,
            testing_mode: self.testing_mode,
        }
    }
}

/// Why no configuration could be made.
#[derive(Debug, PartialEq, Eq, Structural, Clone, Copy)]
pub enum ConfigError {
    /// The variable for the default target namespace is not set.
    MissingDefaultTargetNamespace,
}

impl ConfigError {
    /// The error in words.
    pub fn to_string(&self) -> (text: String)
        ensures
            text@ == DEFAULT_TARGET_NAMESPACE@ + " environment variable not set"@,
    {
        let mut text = DEFAULT_TARGET_NAMESPACE.to_owned();
        text.append(" environment variable not set");
        text
    }
}

/// Whether the text of the testing-mode variable switches the mode on.
/// Only `true` does: any other text, `false` included, leaves it off.
pub open spec fn testing_mode_of(value: Option<Seq<char>>) -> bool {
    value == Some("true"@)
}

impl Config {
    /// The configuration for the given values of the two variables
    /// `DEFAULT_TARGET_NAMESPACE` and `TESTING_MODE`, `None` standing for a
    /// variable that is not set. The first is required. The second switches the
    /// testing mode on where it is `true`, and is never an error.
    pub fn from_env(default_target_namespace: Option<String>, testing_mode: Option<String>) -> (made:
        Result<Config, ConfigError>)
        ensures
            match made {
                Ok(config) => default_target_namespace.deep_view() == Some(
                    config@.default_target_namespace,
                ) && config@.testing_mode == testing_mode_of(testing_mode.deep_view()),
                Err(error) => default_target_namespace is None && error
                    == ConfigError::MissingDefaultTargetNamespace,
            },
    {
        match default_target_namespace {
            Some(namespace) => {
                let testing = match &testing_mode {
                    Some(value) => str_eq(value.as_str(), "true"),
                    None => false,
                };
                Ok(Config { default_target_namespace: namespace, testing_mode: testing })
            },
            None => Err(ConfigError::MissingDefaultTargetNamespace),
        }
    }
}

impl Clone for Config {
    fn clone(&self) -> (copy: Self)
        ensures
            copy@ == self@,
    {
        Config {
            default_target_namespace: self.default_target_namespace.clone(),
            testing_mode: self.testing_mode,
        }
    }
}

} // verus!
