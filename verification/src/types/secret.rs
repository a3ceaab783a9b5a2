//! The secret resource that is copied between clusters.

use vstd::prelude::*;
use vstd::string::*;
use crate::types::meta::{ObjectMeta, ObjectMetaView};
use crate::types::string_map::StringMap;

verus! {

/// A secret: its identity, its payload of bytes, its type tag and whether it may change.
#[derive(Debug)]
pub struct Secret {
    pub metadata: ObjectMeta,
    pub data: Option<StringMap<Vec<u8>>>,
    pub string_data: Option<StringMap<String>>,
    pub type_: Option<String>,
    pub immutable: Option<bool>,
}

/// What a `Secret` holds, as mathematical values.
pub struct SecretView {
    pub metadata: ObjectMetaView,
    pub data: Option<Map<Seq<char>, Seq<u8>>>,
    pub string_data: Option<Map<Seq<char>, Seq<char>>>,
    pub type_: Option<Seq<char>>,
    pub immutable: Option<bool>,
}

impl View for Secret {
    type V = SecretView;

    open spec fn view(&self) -> SecretView {
        SecretView {
            metadata: self.metadata@,
            data: self.data.deep_view(),
            string_data: self.string_data.deep_view(),
            type_: self.type_.deep_view(),
            immutable: self.immutable,
        }
    }
}

impl DeepView for Secret {
    type V = SecretView;

    open spec fn deep_view(&self) -> SecretView {
        self@
    }
}

impl Secret {
    /// The most useful name at hand for the secret.
    pub fn name_any(&self) -> (name: String)
        ensures
            name@ == self@.metadata.name_any(),
    {
        self.metadata.name_any()
    }

    /// The namespace that the secret lives in.
    pub fn namespace(&self) -> (namespace: Option<String>)
        ensures
            namespace.deep_view() == self@.metadata.namespace,
    {
        self.metadata.namespace.clone()
    }
}

impl Default for Secret {
    fn default() -> (secret: Self)
        ensures
            secret@ == (SecretView {
                metadata: ObjectMetaView {
                    name: None,
                    generate_name: None,
                    namespace: None,
                    labels: None,
                    annotations: None,
                },
                data: None,
                string_data: None,
                type_: None,
                immutable: None,
            }),
    {
        Secret {
            metadata: ObjectMeta::default(),
            data: None,
            string_data: None,
            type_: None,
            immutable: None,
        }
    }
}

impl Clone for Secret {
    fn clone(&self) -> (copy: Self)
        ensures
            copy@ == self@,
    {
        Secret {
            metadata: self.metadata.clone(),
            data: match &self.data {
                Some(data) => Some(data.clone()),
                None => None,
            },
            string_data: match &self.string_data {
                Some(string_data) => Some(string_data.clone()),
                None => None,
            },
            type_: self.type_.clone(),
            immutable: self.immutable,
        }
    }
}

} // verus!
