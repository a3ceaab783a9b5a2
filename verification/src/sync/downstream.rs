//! The world as a copy sees it, and what a copy leaves in it.
//!
//! A copy asks and is answered. To say what a copy comes to as a whole, this
//! file describes a world that answers: a management cluster that holds
//! credentials, and a downstream cluster that can or cannot be connected to and
//! that, once connected, refuses nothing.

use vstd::prelude::*;
use crate::config::ConfigView;
use crate::error::{ApiErrorView, OutriderErrorView};
use crate::kubernetes::client::{
    checked_kubeconfig, client_source, cluster_kubeconfig, kubeconfig_parse_error, testing_client,
    ClientSourceView, ConnectErrorView,
};
use crate::sync::copy::{CopyInputView, CopyRequestView, SecretCopyView};
use crate::types::cluster::ClusterView;
use crate::types::secret::SecretView;

verus! {

/// What a copy can ask about and change.
pub struct WorldView {
    /// The cluster URL of the ambient connection descriptor, or the text of the
    /// error that keeps the descriptor from being read.
    pub ambient: Result<Seq<char>, Seq<char>>,
    /// The secrets of the management cluster, by namespace and name.
    pub credentials: Map<(Seq<char>, Seq<char>), SecretView>,
    /// Whether a connection to the downstream cluster can be made.
    pub reachable: Result<(), ConnectErrorView>,
    /// The failure with which an object that is not there is reported.
    pub missing: ApiErrorView,
    /// The namespaces of the downstream cluster.
    pub namespaces: Set<Seq<char>>,
    /// The secrets of the downstream cluster, by namespace and name.
    pub secrets: Map<(Seq<char>, Seq<char>), SecretView>,
}

impl WorldView {
    /// How the world answers what a copy asks, and what it is afterwards. What
    /// is looked up is found or reported missing. A namespace that is created is
    /// there afterwards. A secret that is applied is there afterwards, in place
    /// of what was kept under its namespace and name. A copy that is done asks
    /// nothing more.
    pub open spec fn answer(self, request: CopyRequestView) -> Option<(WorldView, CopyInputView)> {
        match request {
            CopyRequestView::InferConfig => Some((self, CopyInputView::ConfigInferred(self.ambient))),
            CopyRequestView::GetKubeconfigSecret { namespace, name } => Some(
                (
                    self,
                    CopyInputView::KubeconfigSecretFetched(
                        if self.credentials.contains_key((namespace, name)) {
                            Ok(self.credentials[(namespace, name)])
                        } else {
                            Err(self.missing)
                        },
                    ),
                ),
            ),
            CopyRequestView::ConnectAmbient { .. } => Some(
                (self, CopyInputView::Connected(self.reachable)),
            ),
            CopyRequestView::ConnectKubeconfig { .. } => Some(
                (self, CopyInputView::Connected(self.reachable)),
            ),
            CopyRequestView::GetNamespace { name } => Some(
                (
                    self,
                    CopyInputView::NamespaceFetched(
                        if self.namespaces.contains(name) {
                            Ok(())
                        } else {
                            Err(self.missing)
                        },
                    ),
                ),
            ),
            CopyRequestView::CreateNamespace { name } => Some(
                (
                    WorldView { namespaces: self.namespaces.insert(name), ..self },
                    CopyInputView::NamespaceCreated(Ok(())),
                ),
            ),
            CopyRequestView::ApplySecret { name, namespace, secret, .. } => Some(
                (
                    WorldView { secrets: self.secrets.insert((namespace, name), secret), ..self },
                    CopyInputView::SecretApplied(Ok(())),
                ),
            ),
            CopyRequestView::Done(_) => None,
        }
    }
}

/// Carries a copy on in `world` for at most `steps` requests: the world as
/// the copy leaves it, and how the copy ended, if it did.
pub open spec fn drive(copy: SecretCopyView, request: CopyRequestView, world: WorldView, steps: nat) -> (
    WorldView,
    Option<Result<(), OutriderErrorView>>,
)
    decreases steps,
{
    match request {
        CopyRequestView::Done(outcome) => (world, Some(outcome)),
        _ => if steps == 0 {
            (world, None)
        } else {
            match world.answer(request) {
                Some((answered, input)) => match copy.step(input) {
                    Some((next, request)) => drive(next, request, answered, (steps - 1) as nat),
                    None => (answered, None),
                },
                None => (world, None),
            }
        },
    }
}

/// The most requests that a copy makes before it is done.
pub open spec fn longest_copy() -> nat {
    5
}

/// Copies `secret` into `cluster` in `world`: the world as the copy leaves
/// it, and how the copy ended.
pub open spec fn copy(secret: SecretView, cluster: ClusterView, config: ConfigView, world: WorldView) -> (
    WorldView,
    Option<Result<(), OutriderErrorView>>,
) {
    let (begun, request) = SecretCopyView::begin(secret, cluster, config);
    drive(begun, request, world, longest_copy())
}

/// The connection to `cluster` can be had in `world`: the cluster URL or
/// the stored connection descriptor is in order, and the cluster can be reached.
pub open spec fn connects(cluster: ClusterView, config: ConfigView, world: WorldView) -> bool {
    &&& world.reachable is Ok
    &&& match client_source(cluster, config) {
        ClientSourceView::Ambient => testing_client(cluster, world.ambient) is Ok,
        ClientSourceView::Stored { namespace, name } => {
            let fetched = if world.credentials.contains_key((namespace, name)) {
                Ok(world.credentials[(namespace, name)])
            } else {
                Err(world.missing)
            };
            match cluster_kubeconfig(cluster, fetched) {
                Ok(text) => checked_kubeconfig(text, kubeconfig_parse_error(text)) is Ok,
                Err(_) => false,
            }
        },
    }
}

/// A copy comes to an end, and succeeds exactly where the connection to the
/// cluster can be had. Where it succeeds, it leaves the target namespace in
/// place and the downstream object under the secret's name in it, and changes
/// nothing else: no other secret is added or changed. Where it fails, it
/// leaves the world as it was.
pub proof fn lemma_copy_outcome(secret: SecretView, cluster: ClusterView, config: ConfigView, world: WorldView)
    requires
        world.missing.is_not_found(),
    ensures
        ({
            let target = secret.target_namespace(config);
            let (after, outcome) = copy(secret, cluster, config, world);
            if connects(cluster, config, world) {
                &&& outcome == Some(Ok::<(), OutriderErrorView>(()))
                &&& after == (WorldView {
                    namespaces: world.namespaces.insert(target),
                    secrets: world.secrets.insert(
                        (target, secret.metadata.name_any()),
                        secret.downstream(target),
                    ),
                    ..world
                })
            } else {
                &&& outcome is Some
                &&& outcome->0 is Err
                &&& after == world
            }
        }),
{
    reveal_with_fuel(drive, 6);
    let target = secret.target_namespace(config);
    if world.namespaces.contains(target) {
        assert(world.namespaces.insert(target) =~= world.namespaces);
    }
}

/// A copy is idempotent. Made twice with the same secret, cluster and
/// configuration, it ends the second time as it ended the first time, and
/// leaves the world exactly as the first copy left it: one downstream object,
/// not two, and no failure for its being there already.
pub proof fn lemma_copy_is_idempotent(
    secret: SecretView,
    cluster: ClusterView,
    config: ConfigView,
    world: WorldView,
)
    requires
        world.missing.is_not_found(),
    ensures
        ({
            let (once, first) = copy(secret, cluster, config, world);
            let (twice, second) = copy(secret, cluster, config, once);
            &&& second == first
            &&& twice == once
        }),
{
    let target = secret.target_namespace(config);
    let place = (target, secret.metadata.name_any());
    let (once, first) = copy(secret, cluster, config, world);
    lemma_copy_outcome(secret, cluster, config, world);
    lemma_copy_outcome(secret, cluster, config, once);
    if connects(cluster, config, world) {
        assert(connects(cluster, config, once));
        assert(once.namespaces.insert(target) =~= once.namespaces);
        assert(once.secrets.insert(place, secret.downstream(target)) =~= once.secrets);
    }
}

} // verus!
