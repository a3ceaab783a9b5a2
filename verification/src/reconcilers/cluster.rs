//! What a changed cluster is reported as.

use vstd::prelude::*;
use vstd::string::*;
use crate::reconcilers::{Action, Reconciliation};
use crate::sync::manager::{SyncEvent, SyncEventView, SyncInputView};
use crate::sync::runs::reports_ready;
use crate::types::cluster::{Cluster, ClusterView};

verus! {

/// The event that a cluster in this state is reported as: none for the
/// management cluster itself; else that it became ready, or that it is not.
pub open spec fn cluster_event(cluster: ClusterView) -> Option<SyncEventView> {
    if cluster.is_local() {
        None
    } else if cluster.is_ready() {
        Some(SyncEventView::ClusterBecameReady { cluster })
    } else {
        Some(SyncEventView::ClusterBecameNotReady { name: cluster.metadata.name_any() })
    }
}

/// Looks at a cluster that changed: reports its readiness to the manager,
/// unless it is the management cluster, and waits for its next change.
pub fn reconcile(cluster: &Cluster) -> (reconciled: Reconciliation)
    ensures
        reconciled.event_view() == cluster_event(cluster@),
        reconciled.action == Action::AwaitChange,
{
    let name = cluster.name_any();
    if cluster.is_local() {
        return Reconciliation { event: None, action: Action::AwaitChange };
    }
    let event = if cluster.is_ready() {
        SyncEvent::ClusterBecameReady { cluster: cluster.clone() }
    } else {
        SyncEvent::ClusterBecameNotReady { name }
    };
    Reconciliation { event: Some(event), action: Action::AwaitChange }
}

/// A cluster is reported ready only where it is ready and is not the
/// management cluster: every event that comes of a cluster reports readiness
/// as the cluster's status has it.
pub proof fn lemma_only_targets_are_reported_ready(cluster: ClusterView)
    ensures
        cluster_event(cluster) is Some && cluster_event(cluster)->0 is ClusterBecameReady
            ==> cluster.is_sync_target(),
        cluster_event(cluster) matches Some(event) ==> reports_ready(SyncInputView::Event(event)),
{
}

} // verus!
