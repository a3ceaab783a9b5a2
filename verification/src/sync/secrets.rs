//! Which secrets are distributed, where they go, and what is written there.

use vstd::prelude::*;
use vstd::string::*;
use crate::config::{Config, ConfigView};
use crate::constants::annotations::{
    is_operator_owned, lemma_recognized_keys_are_owned, operator_owned, ENABLED, NAMESPACE, PREFIX,
};
use crate::error::{ApiError, OutriderError};
use crate::text::str_eq;
use crate::types::meta::{ObjectMeta, ObjectMetaView};
use crate::types::secret::{Secret, SecretView};

verus! {

impl SecretView {
    /// The secret carries the enabling annotation with the value `true` exactly.
    pub open spec fn is_enabled(self) -> bool {
        self.metadata.annotation(ENABLED@) == Some("true"@)
    }

    /// The namespace that the secret is copied into: the one that its annotation
    /// names, else the configured default.
    pub open spec fn target_namespace(self, config: ConfigView) -> Seq<char> {
        match self.metadata.annotation(NAMESPACE@) {
            Some(namespace) => namespace,
            None => config.default_target_namespace,
        }
    }

    /// The object that is written downstream for this secret: the same name,
    /// labels, payload, type and immutability, in the target namespace, with the
    /// operator's own annotations taken out and every other one kept.
    pub open spec fn downstream(self, target_namespace: Seq<char>) -> SecretView {
        SecretView {
            metadata: ObjectMetaView {
                name: self.metadata.name,
                generate_name: None,
                namespace: Some(target_namespace),
                labels: self.metadata.labels,
                annotations: match self.metadata.annotations {
                    Some(annotations) => Some(annotations.remove_keys(operator_owned())),
                    None => None,
                },
            },
            data: self.data,
            string_data: self.string_data,
            type_: self.type_,
            immutable: self.immutable,
        }
    }
}

/// The enabled secrets of a listing, in the listing's order.
pub open spec fn enabled_secrets(listing: Seq<SecretView>) -> Seq<SecretView> {
    listing.filter(|secret: SecretView| secret.is_enabled())
}

/// Whether the secret carries the enabling annotation with the value `true`.
pub fn is_secret_enabled(secret: &Secret) -> (enabled: bool)
    ensures
        enabled == secret@.is_enabled(),
{
    match secret.metadata.annotation(ENABLED) {
        Some(value) => str_eq(value.as_str(), "true"),
        None => false,
    }
}

/// The namespace that the secret is copied into in every downstream cluster.
pub fn get_target_namespace<'a>(secret: &'a Secret, config: &'a Config) -> (namespace: &'a str)
    ensures
        namespace@ == secret@.target_namespace(config@),
{
    match secret.metadata.annotation(NAMESPACE) {
        Some(namespace) => namespace.as_str(),
        None => config.default_target_namespace.as_str(),
    }
}

/// The object that is written into the target namespace for this secret.
pub fn create_downstream_secret(secret: &Secret, target_namespace: &str) -> (copy: Secret)
    ensures
        copy@ == secret@.downstream(target_namespace@),
{
    assert(Set::new(|key: Seq<char>| PREFIX@.is_prefix_of(key)) =~= operator_owned());
    let annotations = match &secret.metadata.annotations {
        Some(annotations) => Some(annotations.without_prefix(PREFIX)),
        None => None,
    };
    let labels = match &secret.metadata.labels {
        Some(labels) => Some(labels.clone()),
        None => None,
    };
    let data = match &secret.data {
        Some(data) => Some(data.clone()),
        None => None,
    };
    let string_data = match &secret.string_data {
        Some(string_data) => Some(string_data.clone()),
        None => None,
    };
    Secret {
        metadata: ObjectMeta {
            name: secret.metadata.name.clone(),
            generate_name: None,
            namespace: Some(target_namespace.to_owned()),
            labels,
            annotations,
        },
        data,
        string_data,
        type_: secret.type_.clone(),
        immutable: secret.immutable,
    }
}

/// The enabled secrets of a listing. A listing that failed is passed on as the
/// failure of the API call.
pub fn get_enabled_secrets(listing: Result<Vec<Secret>, ApiError>) -> (enabled: Result<
    Vec<Secret>,
    OutriderError,
>)
    ensures
        match (listing, enabled) {
            (Ok(items), Ok(kept)) => kept.deep_view() == enabled_secrets(items.deep_view()),
            (Err(failure), Err(error)) => error@ == OutriderError::KubeError(failure)@,
            _ => false,
        },
{
    match listing {
        Ok(items) => {
            let ghost keep = |secret: SecretView| secret.is_enabled();
            let mut kept: Vec<Secret> = Vec::new();
            let mut i: usize = 0;
            assert(items.deep_view().take(0) =~= Seq::empty());
            assert(kept.deep_view() =~= Seq::empty());
            while i < items.len()
                invariant
                    i <= items.len(),
                    keep == |secret: SecretView| secret.is_enabled(),
                    kept.deep_view() == items.deep_view().take(i as int).filter(keep),
                decreases items.len() - i,
            {
                let ghost before = kept.deep_view();
                proof {
                    let upto = items.deep_view().take(i + 1);
                    assert(upto.drop_last() =~= items.deep_view().take(i as int));
                    assert(upto.last() == items[i as int]@);
                    reveal_with_fuel(Seq::filter, 2);
                }
                if is_secret_enabled(&items[i]) {
                    kept.push(items[i].clone());
                    assert(kept.deep_view() =~= before.push(items[i as int]@));
                }
                i += 1;
            }
            assert(items.deep_view().take(i as int) =~= items.deep_view());
            Ok(kept)
        },
        Err(failure) => Err(OutriderError::KubeError(failure)),
    }
}

/// The copy carries none of the operator's own annotations, and so neither of
/// the two that the operator reads. Every other annotation is carried
/// unchanged, and so are the labels, the payload, the type and the immutability.
pub proof fn lemma_downstream_keeps_all_but_owned(
    secret: SecretView,
    target_namespace: Seq<char>,
    key: Seq<char>,
)
    ensures
        ({
            let copy = secret.downstream(target_namespace);
            &&& is_operator_owned(key) ==> copy.metadata.annotation(key) is None
            &&& !is_operator_owned(key) ==> copy.metadata.annotation(key)
                == secret.metadata.annotation(key)
            &&& copy.metadata.annotation(ENABLED@) is None
            &&& copy.metadata.annotation(NAMESPACE@) is None
            &&& copy.metadata.labels == secret.metadata.labels
            &&& copy.metadata.name == secret.metadata.name
            &&& copy.metadata.namespace == Some(target_namespace)
            &&& copy.data == secret.data
            &&& copy.string_data == secret.string_data
            &&& copy.type_ == secret.type_
            &&& copy.immutable == secret.immutable
        }),
{
    lemma_recognized_keys_are_owned();
}

} // verus!
