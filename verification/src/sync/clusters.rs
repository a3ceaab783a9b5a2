//! Which clusters of a listing can receive secrets.

use vstd::prelude::*;
use crate::error::{ApiError, OutriderError};
use crate::types::cluster::{Cluster, ClusterView};

verus! {

/// The clusters of a listing that can receive secrets, in the listing's order.
pub open spec fn ready_clusters(listing: Seq<ClusterView>) -> Seq<ClusterView> {
    listing.filter(|cluster: ClusterView| cluster.is_sync_target())
}

/// Whether the cluster is the management cluster itself.
pub fn is_local_cluster(cluster: &Cluster) -> (local: bool)
    ensures
        local == cluster@.is_local(),
{
    cluster.is_local()
}

/// Whether the cluster's status holds a condition `Ready` with status `True`.
pub fn is_cluster_ready(cluster: &Cluster) -> (ready: bool)
    ensures
        ready == cluster@.is_ready(),
{
    cluster.is_ready()
}

/// The ready clusters of a listing, the management cluster left out. A listing
/// that failed is passed on as the failure of the API call.
pub fn get_ready_clusters(listing: Result<Vec<Cluster>, ApiError>) -> (ready: Result<
    Vec<Cluster>,
    OutriderError,
>)
    ensures
        match (listing, ready) {
            (Ok(items), Ok(kept)) => kept.deep_view() == ready_clusters(items.deep_view()),
            (Err(failure), Err(error)) => error@ == OutriderError::KubeError(failure)@,
            _ => false,
        },
{
    match listing {
        Ok(items) => {
            let ghost keep = |cluster: ClusterView| cluster.is_sync_target();
            let mut kept: Vec<Cluster> = Vec::new();
            let mut i: usize = 0;
            assert(items.deep_view().take(0) =~= Seq::empty());
            assert(kept.deep_view() =~= Seq::empty());
            while i < items.len()
                invariant
                    i <= items.len(),
                    keep == |cluster: ClusterView| cluster.is_sync_target(),
                    kept.deep_view() == items.deep_view().take(i as int).filter(keep),
                decreases items.len() - i,
            {
                let ghost before = kept.deep_view();
                proof {
                    let upto = items.deep_view().take(i + 1);
                    assert(upto.drop_last() =~= items.deep_view().take(i as int));
                    assert(upto.last() == items[i as int]@);
                    reveal_with_fuel(Seq::filter, 2);
                }
                if items[i].is_ready() && !items[i].is_local() {
                    kept.push(items[i].clone());
                    assert(kept.deep_view() =~= before.push(items[i as int]@));
                }
                i += 1;
            }
            assert(items.deep_view().take(i as int) =~= items.deep_view());
            Ok(kept)
        },
        Err(failure) => Err(OutriderError::KubeError(failure)),
    }
}

} // verus!
