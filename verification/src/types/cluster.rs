//! The downstream-cluster resource and what can be read off it.

use vstd::prelude::*;
use vstd::string::*;
use crate::text::{join, str_eq};
use crate::types::meta::{ObjectMeta, ObjectMetaView};

verus! {

/// What was asked of a cluster.
#[derive(Debug)]
pub struct ClusterSpec {
    pub kubernetes_version: Option<String>,
    pub local: Option<bool>,
    pub display_name: Option<String>,
}

/// What a `ClusterSpec` holds, as mathematical values.
pub struct ClusterSpecView {
    pub kubernetes_version: Option<Seq<char>>,
    pub local: Option<bool>,
    pub display_name: Option<Seq<char>>,
}

/// One observation on a cluster: its type, its status, and a message.
#[derive(Debug)]
pub struct Condition {
    pub condition_type: String,
    pub status: String,
    pub message: Option<String>,
}

/// What a `Condition` holds, as mathematical values.
pub struct ConditionView {
    pub condition_type: Seq<char>,
    pub status: Seq<char>,
    pub message: Option<Seq<char>>,
}

/// What is known of a cluster.
#[derive(Debug)]
pub struct ClusterStatus {
    pub client_secret_name: Option<String>,
    pub cluster_name: String,
    pub ready: Option<bool>,
    pub conditions: Option<Vec<Condition>>,
}

/// What a `ClusterStatus` holds, as mathematical values.
pub struct ClusterStatusView {
    pub client_secret_name: Option<Seq<char>>,
    pub cluster_name: Seq<char>,
    pub ready: Option<bool>,
    pub conditions: Option<Seq<ConditionView>>,
}

/// A downstream cluster as the management cluster describes it.
#[derive(Debug)]
pub struct Cluster {
    pub metadata: ObjectMeta,
    pub spec: ClusterSpec,
    pub status: Option<ClusterStatus>,
}

/// What a `Cluster` holds, as mathematical values.
pub struct ClusterView {
    pub metadata: ObjectMetaView,
    pub spec: ClusterSpecView,
    pub status: Option<ClusterStatusView>,
}

impl View for ClusterSpec {
    type V = ClusterSpecView;

    open spec fn view(&self) -> ClusterSpecView {
        ClusterSpecView {
            kubernetes_version: self.kubernetes_version.deep_view(),
            local: self.local,
            display_name: self.display_name.deep_view(),
        }
    }
}

impl View for Condition {
    type V = ConditionView;

    open spec fn view(&self) -> ConditionView {
        ConditionView {
            condition_type: self.condition_type@,
            status: self.status@,
            message: self.message.deep_view(),
        }
    }
}

impl DeepView for Condition {
    type V = ConditionView;

    open spec fn deep_view(&self) -> ConditionView {
        self@
    }
}

impl View for ClusterStatus {
    type V = ClusterStatusView;

    open spec fn view(&self) -> ClusterStatusView {
        ClusterStatusView {
            client_secret_name: self.client_secret_name.deep_view(),
            cluster_name: self.cluster_name@,
            ready: self.ready,
            conditions: self.conditions.deep_view(),
        }
    }
}

impl DeepView for ClusterStatus {
    type V = ClusterStatusView;

    open spec fn deep_view(&self) -> ClusterStatusView {
        self@
    }
}

impl View for Cluster {
    type V = ClusterView;

    open spec fn view(&self) -> ClusterView {
        ClusterView {
            metadata: self.metadata@,
            spec: self.spec@,
            status: self.status.deep_view(),
        }
    }
}

impl DeepView for Cluster {
    type V = ClusterView;

    open spec fn deep_view(&self) -> ClusterView {
        self@
    }
}

impl ConditionView {
    /// The condition says that the cluster is ready.
    pub open spec fn is_ready_true(self) -> bool {
        self.condition_type == "Ready"@ && self.status == "True"@
    }
}

/// Some condition of the list has type `Ready` and status `True`.
pub open spec fn any_ready_true(conditions: Seq<ConditionView>) -> bool {
    exists|i: int| 0 <= i < conditions.len() && (#[trigger] conditions[i]).is_ready_true()
}

impl ClusterView {
    /// Some condition of the status has type `Ready` and status `True`.
    pub open spec fn is_ready(self) -> bool {
        match self.status {
            Some(status) => match status.conditions {
                Some(conditions) => any_ready_true(conditions),
                None => false,
            },
            None => false,
        }
    }

    /// The cluster is the management cluster itself.
    pub open spec fn is_local(self) -> bool {
        self.metadata.name_any() == "local"@
    }

    /// The cluster can receive secrets: it is ready and is not the management cluster.
    pub open spec fn is_sync_target(self) -> bool {
        self.is_ready() && !self.is_local()
    }

    /// The name of the object that holds the cluster's credentials.
    pub open spec fn kubeconfig_secret_name(self) -> Seq<char> {
        match self.status {
            Some(status) => match status.client_secret_name {
                Some(name) => name,
                None => self.metadata.name_any() + "-kubeconfig"@,
            },
            None => self.metadata.name_any() + "-kubeconfig"@,
        }
    }

    /// The identifier by which the fleet manager knows the cluster.
    pub open spec fn internal_name(self) -> Seq<char> {
        match self.status {
            Some(status) => status.cluster_name,
            None => self.metadata.name_any(),
        }
    }
}

/// Whether some condition of the list has type `Ready` and status `True`.
pub fn holds_ready_true(conditions: &Vec<Condition>) -> (found: bool)
    ensures
        found == any_ready_true(conditions.deep_view()),
{
    let mut i: usize = 0;
    while i < conditions.len()
        invariant
            i <= conditions.len(),
            forall|j: int| 0 <= j < i ==> !(#[trigger] conditions.deep_view()[j]).is_ready_true(),
        decreases conditions.len() - i,
    {
        if str_eq(conditions[i].condition_type.as_str(), "Ready") && str_eq(
            conditions[i].status.as_str(),
            "True",
        ) {
            assert(conditions.deep_view()[i as int].is_ready_true());
            return true;
        }
        i += 1;
    }
    false
}

impl Cluster {
    /// The most useful name at hand for the cluster.
    pub fn name_any(&self) -> (name: String)
        ensures
            name@ == self@.metadata.name_any(),
    {
        self.metadata.name_any()
    }

    /// The namespace that the cluster object lives in.
    pub fn namespace(&self) -> (namespace: Option<String>)
        ensures
            namespace.deep_view() == self@.metadata.namespace,
    {
        self.metadata.namespace.clone()
    }

    /// Whether the status conditions hold one of type `Ready` with status `True`.
    /// A cluster without status or without conditions is not ready.
    pub fn is_ready(&self) -> (ready: bool)
        ensures
            ready == self@.is_ready(),
    {
        match &self.status {
            Some(status) => match &status.conditions {
                Some(conditions) => holds_ready_true(conditions),
                None => false,
            },
            None => false,
        }
    }

    /// Whether this is the management cluster itself, which is named `local`.
    pub fn is_local(&self) -> (local: bool)
        ensures
            local == self@.is_local(),
    {
        let name = self.metadata.name_any();
        str_eq(name.as_str(), "local")
    }

    /// The name of the object that holds the cluster's credentials: the one that the
    /// status names, else the cluster's name followed by `-kubeconfig`.
    pub fn kubeconfig_secret_name(&self) -> (name: String)
        ensures
            name@ == self@.kubeconfig_secret_name(),
    {
        match &self.status {
            Some(status) => match &status.client_secret_name {
                Some(name) => name.clone(),
                None => join(self.metadata.name_any().as_str(), "-kubeconfig"),
            },
            None => join(self.metadata.name_any().as_str(), "-kubeconfig"),
        }
    }

    /// The identifier by which the fleet manager knows the cluster: the one in the
    /// status, else the cluster's name.
    pub fn internal_name(&self) -> (name: String)
        ensures
            name@ == self@.internal_name(),
    {
        match &self.status {
            Some(status) => status.cluster_name.clone(),
            None => self.metadata.name_any(),
        }
    }
}

impl Default for ClusterStatus {
    fn default() -> (status: Self)
        ensures
            status@ == (ClusterStatusView {
                client_secret_name: None,
                cluster_name: Seq::empty(),
                ready: None,
                conditions: None,
            }),
    {
        ClusterStatus {
            client_secret_name: None,
            cluster_name: String::new(),
            ready: None,
            conditions: None,
        }
    }
}

impl Clone for ClusterSpec {
    fn clone(&self) -> (copy: Self)
        ensures
            copy@ == self@,
    {
        ClusterSpec {
            kubernetes_version: self.kubernetes_version.clone(),
            local: self.local,
            display_name: self.display_name.clone(),
        }
    }
}

impl Clone for Condition {
    fn clone(&self) -> (copy: Self)
        ensures
            copy@ == self@,
    {
        Condition {
            condition_type: self.condition_type.clone(),
            status: self.status.clone(),
            message: self.message.clone(),
        }
    }
}

impl Clone for ClusterStatus {
    fn clone(&self) -> (copy: Self)
        ensures
            copy@ == self@,
    {
        let conditions = match &self.conditions {
            Some(conditions) => {
                let mut copies: Vec<Condition> = Vec::new();
                let mut i: usize = 0;
                while i < conditions.len()
                    invariant
                        i <= conditions.len(),
                        copies.len() == i,
                        forall|j: int| 0 <= j < i ==> (#[trigger] copies[j])@ == conditions[j]@,
                    decreases conditions.len() - i,
                {
                    copies.push(conditions[i].clone());
                    i += 1;
                }
                assert(copies.deep_view() =~= conditions.deep_view());
                Some(copies)
            },
            None => None,
        };
        ClusterStatus {
            client_secret_name: self.client_secret_name.clone(),
            cluster_name: self.cluster_name.clone(),
            ready: self.ready,
            conditions,
        }
    }
}

impl Clone for Cluster {
    fn clone(&self) -> (copy: Self)
        ensures
            copy@ == self@,
    {
        Cluster {
            metadata: self.metadata.clone(),
            spec: self.spec.clone(),
            status: match &self.status {
                Some(status) => Some(status.clone()),
                None => None,
            },
        }
    }
}

} // verus!
