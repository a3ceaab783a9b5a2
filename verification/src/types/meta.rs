//! The metadata that every resource carries.

use vstd::prelude::*;
use vstd::string::*;
use crate::types::string_map::StringMap;

verus! {

/// Identity, labels and annotations of a resource.
#[derive(Debug)]
pub struct ObjectMeta {
    pub name: Option<String>,
    pub generate_name: Option<String>,
    pub namespace: Option<String>,
    pub labels: Option<StringMap<String>>,
    pub annotations: Option<StringMap<String>>,
}

/// What an `ObjectMeta` holds, as mathematical values.
pub struct ObjectMetaView {
    pub name: Option<Seq<char>>,
    pub generate_name: Option<Seq<char>>,
    pub namespace: Option<Seq<char>>,
    pub labels: Option<Map<Seq<char>, Seq<char>>>,
    pub annotations: Option<Map<Seq<char>, Seq<char>>>,
}

impl ObjectMetaView {
    /// The name, else the name prefix, else the empty string.
    pub open spec fn name_any(self) -> Seq<char> {
        match self.name {
            Some(name) => name,
            None => match self.generate_name {
                Some(prefix) => prefix,
                None => Seq::empty(),
            },
        }
    }

    /// The value of the annotation `key`, if the resource carries it.
    pub open spec fn annotation(self, key: Seq<char>) -> Option<Seq<char>> {
        match self.annotations {
            Some(annotations) => if annotations.contains_key(key) {
                Some(annotations[key])
            } else {
                None
            },
            None => None,
        }
    }
}

impl View for ObjectMeta {
    type V = ObjectMetaView;

    open spec fn view(&self) -> ObjectMetaView {
        ObjectMetaView {
            name: self.name.deep_view(),
            generate_name: self.generate_name.deep_view(),
            namespace: self.namespace.deep_view(),
            labels: self.labels.deep_view(),
            annotations: self.annotations.deep_view(),
        }
    }
}

impl DeepView for ObjectMeta {
    type V = ObjectMetaView;

    open spec fn deep_view(&self) -> ObjectMetaView {
        self@
    }
}

impl ObjectMeta {
    /// The most useful name at hand: the name, else the name prefix, else nothing.
    pub fn name_any(&self) -> (name: String)
        ensures
            name@ == self@.name_any(),
    {
        match &self.name {
            Some(name) => name.clone(),
            None => match &self.generate_name {
                Some(prefix) => prefix.clone(),
                None => String::new(),
            },
        }
    }

    /// The value of the annotation `key`, if the resource carries it.
    pub fn annotation(&self, key: &str) -> (value: Option<&String>)
        ensures
            value.deep_view() == self@.annotation(key@),
    {
        match &self.annotations {
            Some(annotations) => annotations.get(key),
            None => None,
        }
    }
}

impl Default for ObjectMeta {
    fn default() -> (meta: Self)
        ensures
            meta@ == (ObjectMetaView {
                name: None,
                generate_name: None,
                namespace: None,
                labels: None,
                annotations: None,
            }),
    {
        ObjectMeta {
            name: None,
            generate_name: None,
            namespace: None,
            labels: None,
            annotations: None,
        }
    }
}

impl Clone for ObjectMeta {
    fn clone(&self) -> (copy: Self)
        ensures
            copy@ == self@,
    {
        ObjectMeta {
            name: self.name.clone(),
            generate_name: self.generate_name.clone(),
            namespace: self.namespace.clone(),
            labels: match &self.labels {
                Some(labels) => Some(labels.clone()),
                None => None,
            },
            annotations: match &self.annotations {
                Some(annotations) => Some(annotations.clone()),
                None => None,
            },
        }
    }
}

} // verus!
