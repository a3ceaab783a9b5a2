//! The coordinator: one sequential consumer of events that decides what is copied where.
//!
//! The manager makes no call itself. It is driven: each call of `step` hands it
//! what happened last, and it answers with what is to be done next. Events are
//! taken only while nothing else is outstanding, so each event is handled to
//! its end before the next one is read.

use vstd::prelude::*;
use vstd::string::*;
use crate::config::{Config, ConfigView};
use crate::error::{ApiError, ApiErrorView, OutriderError, OutriderErrorView};
use crate::sync::clusters::{get_ready_clusters, ready_clusters};
use crate::sync::secrets::{enabled_secrets, get_enabled_secrets, is_secret_enabled};
use crate::types::cluster::{Cluster, ClusterView};
use crate::types::secret::{Secret, SecretView};
use crate::types::string_set::StringSet;

verus! {

/// What the watchers of secrets and clusters report to the manager.
#[derive(Debug)]
pub enum SyncEvent {
    /// A secret was created or updated.
    SecretChanged { secret: Secret },
    /// A cluster was seen ready.
    ClusterBecameReady { cluster: Cluster },
    /// A cluster was seen not ready.
    ClusterBecameNotReady { name: String },
}

/// What a `SyncEvent` holds, as mathematical values.
pub enum SyncEventView {
    SecretChanged { secret: SecretView },
    ClusterBecameReady { cluster: ClusterView },
    ClusterBecameNotReady { name: Seq<char> },
}

impl View for SyncEvent {
    type V = SyncEventView;

    open spec fn view(&self) -> SyncEventView {
        match self {
            SyncEvent::SecretChanged { secret } => SyncEventView::SecretChanged { secret: secret@ },
            SyncEvent::ClusterBecameReady { cluster } => SyncEventView::ClusterBecameReady {
                cluster: cluster@,
            },
            SyncEvent::ClusterBecameNotReady { name } => SyncEventView::ClusterBecameNotReady {
                name: name@,
            },
        }
    }
}

impl Clone for SyncEvent {
    fn clone(&self) -> (copy: Self)
        ensures
            copy@ == self@,
    {
        match self {
            SyncEvent::SecretChanged { secret } => SyncEvent::SecretChanged {
                secret: secret.clone(),
            },
            SyncEvent::ClusterBecameReady { cluster } => SyncEvent::ClusterBecameReady {
                cluster: cluster.clone(),
            },
            SyncEvent::ClusterBecameNotReady { name } => SyncEvent::ClusterBecameNotReady {
                name: name.clone(),
            },
        }
    }
}

/// One unit of work: one secret to be copied into one cluster.
#[derive(Debug)]
pub struct Distribution {
    pub secret: Secret,
    pub cluster: Cluster,
}

/// What a `Distribution` holds, as mathematical values.
pub struct DistributionView {
    pub secret: SecretView,
    pub cluster: ClusterView,
}

impl View for Distribution {
    type V = DistributionView;

    open spec fn view(&self) -> DistributionView {
        DistributionView { secret: self.secret@, cluster: self.cluster@ }
    }
}

impl DeepView for Distribution {
    type V = DistributionView;

    open spec fn deep_view(&self) -> DistributionView {
        self@
    }
}

impl Clone for Distribution {
    fn clone(&self) -> (copy: Self)
        ensures
            copy@ == self@,
    {
        Distribution { secret: self.secret.clone(), cluster: self.cluster.clone() }
    }
}

/// What the manager is handed: what happened since it last answered.
#[derive(Debug)]
pub enum SyncInput {
    /// The manager is started.
    Start,
    /// The next event was read.
    Event(SyncEvent),
    /// No event will come any more.
    Closed,
    /// The clusters were listed, or could not be.
    Clusters(Result<Vec<Cluster>, ApiError>),
    /// The secrets were listed, or could not be.
    Secrets(Result<Vec<Secret>, ApiError>),
    /// The copy that was asked for was attempted, and ended so.
    Copied(Result<(), OutriderError>),
}

/// What a `SyncInput` holds, as mathematical values.
pub enum SyncInputView {
    Start,
    Event(SyncEventView),
    Closed,
    Clusters(Result<Seq<ClusterView>, ApiErrorView>),
    Secrets(Result<Seq<SecretView>, ApiErrorView>),
    Copied(Result<(), OutriderErrorView>),
}

impl View for SyncInput {
    type V = SyncInputView;

    open spec fn view(&self) -> SyncInputView {
        match self {
            SyncInput::Start => SyncInputView::Start,
            SyncInput::Event(event) => SyncInputView::Event(event@),
            SyncInput::Closed => SyncInputView::Closed,
            SyncInput::Clusters(listing) => SyncInputView::Clusters(
                match listing {
                    Ok(clusters) => Ok(clusters.deep_view()),
                    Err(failure) => Err(failure@),
                },
            ),
            SyncInput::Secrets(listing) => SyncInputView::Secrets(
                match listing {
                    Ok(secrets) => Ok(secrets.deep_view()),
                    Err(failure) => Err(failure@),
                },
            ),
            SyncInput::Copied(outcome) => SyncInputView::Copied(
                match outcome {
                    Ok(_) => Ok(()),
                    Err(error) => Err(error@),
                },
            ),
        }
    }
}

/// What the manager asks for next.
#[derive(Debug)]
pub enum SyncRequest {
    /// Read the next event and hand it over.
    AwaitEvent,
    /// List the clusters of the management cluster and hand the listing over.
    ListClusters,
    /// List the secrets of the management cluster and hand the listing over.
    ListSecrets,
    /// Attempt this copy and hand over how it ended.
    Copy(Distribution),
    /// Nothing more: the manager has stopped.
    Stop,
}

/// What a `SyncRequest` holds, as mathematical values.
pub enum SyncRequestView {
    AwaitEvent,
    ListClusters,
    ListSecrets,
    Copy(DistributionView),
    Stop,
}

impl View for SyncRequest {
    type V = SyncRequestView;

    open spec fn view(&self) -> SyncRequestView {
        match self {
            SyncRequest::AwaitEvent => SyncRequestView::AwaitEvent,
            SyncRequest::ListClusters => SyncRequestView::ListClusters,
            SyncRequest::ListSecrets => SyncRequestView::ListSecrets,
            SyncRequest::Copy(distribution) => SyncRequestView::Copy(distribution@),
            SyncRequest::Stop => SyncRequestView::Stop,
        }
    }
}

/// Where the manager stands between two calls.
pub enum PhaseView {
    /// Not started yet.
    Created,
    /// Started; the clusters are being listed for the initial sync.
    InitialClusters,
    /// The secrets are being listed for the initial sync into these clusters.
    InitialSecrets { clusters: Seq<ClusterView> },
    /// Nothing is outstanding: the next event is awaited.
    Idle,
    /// The clusters are being listed for a secret that changed.
    SecretClusters { secret: SecretView },
    /// The secrets are being listed for a cluster that became ready.
    ClusterSecrets { cluster: ClusterView },
    /// A copy of a batch is being attempted; these are still to come. When the
    /// batch is through, the named clusters count as synced.
    Distributing { remaining: Seq<DistributionView>, mark: Seq<Seq<char>>, completes_initial_sync: bool },
    /// No event will come any more.
    Stopped,
}

/// The manager's state, as mathematical values.
pub struct SyncManagerView {
    pub config: ConfigView,
    /// Whether the initial sync has been carried through.
    pub initial_sync_done: bool,
    /// The clusters that have had all enabled secrets since they last became ready.
    pub synced_clusters: Set<Seq<char>>,
    pub phase: PhaseView,
}

/// One pair for each cluster, all with the same secret, in the clusters' order.
pub open spec fn secret_to_clusters(secret: SecretView, clusters: Seq<ClusterView>) -> Seq<
    DistributionView,
> {
    Seq::new(clusters.len(), |i: int| DistributionView { secret, cluster: clusters[i] })
}

/// One pair for each secret, all with the same cluster, in the secrets' order.
pub open spec fn secrets_to_cluster(secrets: Seq<SecretView>, cluster: ClusterView) -> Seq<
    DistributionView,
> {
    Seq::new(secrets.len(), |i: int| DistributionView { secret: secrets[i], cluster })
}

/// Every secret paired with every cluster: secret by secret, and for each
/// secret cluster by cluster.
pub open spec fn fan_out(secrets: Seq<SecretView>, clusters: Seq<ClusterView>) -> Seq<
    DistributionView,
>
    decreases secrets.len(),
{
    if secrets.len() == 0 {
        Seq::empty()
    } else {
        fan_out(secrets.drop_last(), clusters) + secret_to_clusters(secrets.last(), clusters)
    }
}

/// The names of the clusters, in their order.
pub open spec fn cluster_names(clusters: Seq<ClusterView>) -> Seq<Seq<char>> {
    Seq::new(clusters.len(), |i: int| clusters[i].metadata.name_any())
}

impl SyncManagerView {
    /// The state of a manager that was just made.
    pub open spec fn initial(config: ConfigView) -> SyncManagerView {
        SyncManagerView {
            config,
            initial_sync_done: false,
            synced_clusters: Set::empty(),
            phase: PhaseView::Created,
        }
    }

    /// The same state in another phase.
    pub open spec fn in_phase(self, phase: PhaseView) -> SyncManagerView {
        SyncManagerView { phase, ..self }
    }

    /// Goes on with a batch of which `remaining` is still to be attempted: asks
    /// for the first of them, or, where none is left, ends the batch and awaits
    /// the next event. At the end of a batch the clusters of `mark` are counted
    /// as synced, and an initial sync is counted as done.
    pub open spec fn distribute(
        self,
        remaining: Seq<DistributionView>,
        mark: Seq<Seq<char>>,
        completes_initial_sync: bool,
    ) -> (SyncManagerView, SyncRequestView) {
        if remaining.len() == 0 {
            (
                SyncManagerView {
                    config: self.config,
                    initial_sync_done: self.initial_sync_done || completes_initial_sync,
                    synced_clusters: self.synced_clusters.union(mark.to_set()),
                    phase: PhaseView::Idle,
                },
                SyncRequestView::AwaitEvent,
            )
        } else {
            (
                self.in_phase(
                    PhaseView::Distributing {
                        remaining: remaining.drop_first(),
                        mark,
                        completes_initial_sync,
                    },
                ),
                SyncRequestView::Copy(remaining[0]),
            )
        }
    }

    /// What an event leads to while nothing is outstanding.
    ///
    /// A changed secret is dropped until the initial sync is done, and is
    /// dropped where it is not enabled; otherwise it is sent to every cluster
    /// that is ready now. A ready cluster is left alone where it counts as
    /// synced and where it is the management cluster itself, which is never
    /// copied into; otherwise it gets every secret that is enabled now. A
    /// cluster that is not ready stops counting as synced.
    pub open spec fn handle_event(self, event: SyncEventView) -> (SyncManagerView, SyncRequestView) {
        match event {
            SyncEventView::SecretChanged { secret } => if self.initial_sync_done
                && secret.is_enabled() {
                (self.in_phase(PhaseView::SecretClusters { secret }), SyncRequestView::ListClusters)
            } else {
                (self, SyncRequestView::AwaitEvent)
            },
            SyncEventView::ClusterBecameReady { cluster } => if self.synced_clusters.contains(
                cluster.metadata.name_any(),
            ) || cluster.is_local() {
                (self, SyncRequestView::AwaitEvent)
            } else {
                (self.in_phase(PhaseView::ClusterSecrets { cluster }), SyncRequestView::ListSecrets)
            },
            SyncEventView::ClusterBecameNotReady { name } => (
                SyncManagerView { synced_clusters: self.synced_clusters.remove(name), ..self },
                SyncRequestView::AwaitEvent,
            ),
        }
    }

    /// The next state and the request that answers `input`, or `None` where
    /// `input` is not what the manager is waiting for in its phase.
    pub open spec fn step(self, input: SyncInputView) -> Option<(SyncManagerView, SyncRequestView)> {
        match (self.phase, input) {
            (PhaseView::Created, SyncInputView::Start) => Some(
                (self.in_phase(PhaseView::InitialClusters), SyncRequestView::ListClusters),
            ),
            (PhaseView::InitialClusters, SyncInputView::Clusters(Ok(listing))) => Some(
                (
                    self.in_phase(PhaseView::InitialSecrets { clusters: ready_clusters(listing) }),
                    SyncRequestView::ListSecrets,
                ),
            ),
            (PhaseView::InitialClusters, SyncInputView::Clusters(Err(_))) => Some(
                (self.in_phase(PhaseView::Idle), SyncRequestView::AwaitEvent),
            ),
            (PhaseView::InitialSecrets { clusters }, SyncInputView::Secrets(Ok(listing))) => Some(
                self.distribute(
                    fan_out(enabled_secrets(listing), clusters),
                    cluster_names(clusters),
                    true,
                ),
            ),
            (PhaseView::InitialSecrets { .. }, SyncInputView::Secrets(Err(_))) => Some(
                (self.in_phase(PhaseView::Idle), SyncRequestView::AwaitEvent),
            ),
            (PhaseView::Idle, SyncInputView::Event(event)) => Some(self.handle_event(event)),
            (PhaseView::Idle, SyncInputView::Closed) => Some(
                (self.in_phase(PhaseView::Stopped), SyncRequestView::Stop),
            ),
            (PhaseView::SecretClusters { secret }, SyncInputView::Clusters(Ok(listing))) => Some(
                self.distribute(
                    secret_to_clusters(secret, ready_clusters(listing)),
                    Seq::empty(),
                    false,
                ),
            ),
            (PhaseView::SecretClusters { .. }, SyncInputView::Clusters(Err(_))) => Some(
                (self.in_phase(PhaseView::Idle), SyncRequestView::AwaitEvent),
            ),
            (PhaseView::ClusterSecrets { cluster }, SyncInputView::Secrets(Ok(listing))) => Some(
                self.distribute(
                    secrets_to_cluster(enabled_secrets(listing), cluster),
                    seq![cluster.metadata.name_any()],
                    false,
                ),
            ),
            (PhaseView::ClusterSecrets { .. }, SyncInputView::Secrets(Err(_))) => Some(
                (self.in_phase(PhaseView::Idle), SyncRequestView::AwaitEvent),
            ),
            (
                PhaseView::Distributing { remaining, mark, completes_initial_sync },
                SyncInputView::Copied(_),
            ) => Some(self.distribute(remaining, mark, completes_initial_sync)),
            _ => None,
        }
    }
}

/// What of a batch is still to be attempted when the copies before `next` were.
pub open spec fn remaining_from(batch: Seq<DistributionView>, next: int) -> Seq<DistributionView> {
    if 0 <= next <= batch.len() {
        batch.skip(next)
    } else {
        Seq::empty()
    }
}

/// Where the manager stands between two calls.
#[derive(Debug)]
enum Phase {
    Created,
    InitialClusters,
    InitialSecrets { clusters: Vec<Cluster> },
    Idle,
    SecretClusters { secret: Secret },
    ClusterSecrets { cluster: Cluster },
    Distributing { batch: Vec<Distribution>, next: usize, mark: Vec<String>, completes_initial_sync: bool },
    Stopped,
}

impl View for Phase {
    type V = PhaseView;

    closed spec fn view(&self) -> PhaseView {
        match self {
            Phase::Created => PhaseView::Created,
            Phase::InitialClusters => PhaseView::InitialClusters,
            Phase::InitialSecrets { clusters } => PhaseView::InitialSecrets {
                clusters: clusters.deep_view(),
            },
            Phase::Idle => PhaseView::Idle,
            Phase::SecretClusters { secret } => PhaseView::SecretClusters { secret: secret@ },
            Phase::ClusterSecrets { cluster } => PhaseView::ClusterSecrets { cluster: cluster@ },
            Phase::Distributing { batch, next, mark, completes_initial_sync } => {
                PhaseView::Distributing {
                    remaining: remaining_from(batch.deep_view(), *next as int),
                    mark: mark.deep_view(),
                    completes_initial_sync: *completes_initial_sync,
                }
            },
            Phase::Stopped => PhaseView::Stopped,
        }
    }
}

/// The coordinator of all distribution: it owns the record of synced clusters
/// and the mark of the initial sync, and nothing else changes them.
#[derive(Debug)]
pub struct SyncManager {
    config: Config,
    initial_sync_done: bool,
    synced_clusters: StringSet,
    phase: Phase,
}

impl View for SyncManager {
    type V = SyncManagerView;

    closed spec fn view(&self) -> SyncManagerView {
        SyncManagerView {
            config: self.config@,
            initial_sync_done: self.initial_sync_done,
            synced_clusters: self.synced_clusters@,
            phase: self.phase@,
        }
    }
}

/// Appends one pair for each cluster, all with `secret`.
fn sync_secret_to_clusters(secret: &Secret, clusters: &Vec<Cluster>, batch: &mut Vec<Distribution>)
    ensures
        final(batch).deep_view() == old(batch).deep_view() + secret_to_clusters(
            secret@,
            clusters.deep_view(),
        ),
{
    let ghost before = batch.deep_view();
    let ghost pairs = secret_to_clusters(secret@, clusters.deep_view());
    let mut i: usize = 0;
    assert(before + pairs.take(0) =~= before);
    while i < clusters.len()
        invariant
            i <= clusters.len(),
            pairs == secret_to_clusters(secret@, clusters.deep_view()),
            batch.deep_view() == before + pairs.take(i as int),
        decreases clusters.len() - i,
    {
        let ghost so_far = batch.deep_view();
        batch.push(Distribution { secret: secret.clone(), cluster: clusters[i].clone() });
        assert(batch.deep_view() =~= so_far.push(pairs[i as int]));
        assert(before + pairs.take(i + 1) =~= (before + pairs.take(i as int)).push(pairs[i as int]));
        i += 1;
    }
    assert(pairs.take(i as int) =~= pairs);
}

/// One pair for each secret, all with `cluster`.
fn sync_secrets_to_cluster(secrets: &Vec<Secret>, cluster: &Cluster) -> (batch: Vec<Distribution>)
    ensures
        batch.deep_view() == secrets_to_cluster(secrets.deep_view(), cluster@),
{
    let ghost pairs = secrets_to_cluster(secrets.deep_view(), cluster@);
    let mut batch: Vec<Distribution> = Vec::new();
    let mut i: usize = 0;
    assert(batch.deep_view() =~= pairs.take(0));
    while i < secrets.len()
        invariant
            i <= secrets.len(),
            pairs == secrets_to_cluster(secrets.deep_view(), cluster@),
            batch.deep_view() == pairs.take(i as int),
        decreases secrets.len() - i,
    {
        let ghost so_far = batch.deep_view();
        batch.push(Distribution { secret: secrets[i].clone(), cluster: cluster.clone() });
        assert(batch.deep_view() =~= so_far.push(pairs[i as int]));
        assert(pairs.take(i + 1) =~= pairs.take(i as int).push(pairs[i as int]));
        i += 1;
    }
    assert(pairs.take(i as int) =~= pairs);
    batch
}

/// Every secret paired with every cluster, secret by secret.
fn sync_secrets_to_clusters(secrets: &Vec<Secret>, clusters: &Vec<Cluster>) -> (batch: Vec<
    Distribution,
>)
    ensures
        batch.deep_view() == fan_out(secrets.deep_view(), clusters.deep_view()),
{
    let mut batch: Vec<Distribution> = Vec::new();
    let mut i: usize = 0;
    assert(secrets.deep_view().take(0) =~= Seq::empty());
    assert(batch.deep_view() =~= Seq::empty());
    while i < secrets.len()
        invariant
            i <= secrets.len(),
            batch.deep_view() == fan_out(secrets.deep_view().take(i as int), clusters.deep_view()),
        decreases secrets.len() - i,
    {
        proof {
            let upto = secrets.deep_view().take(i + 1);
            assert(upto.drop_last() =~= secrets.deep_view().take(i as int));
            assert(upto.last() == secrets[i as int]@);
        }
        sync_secret_to_clusters(&secrets[i], clusters, &mut batch);
        i += 1;
    }
    assert(secrets.deep_view().take(i as int) =~= secrets.deep_view());
    batch
}

/// The names of the clusters, in their order.
fn names_of(clusters: &Vec<Cluster>) -> (names: Vec<String>)
    ensures
        names.deep_view() == cluster_names(clusters.deep_view()),
{
    let mut names: Vec<String> = Vec::new();
    let mut i: usize = 0;
    while i < clusters.len()
        invariant
            i <= clusters.len(),
            names.len() == i,
            forall|j: int| 0 <= j < i ==> (#[trigger] names[j])@ == clusters[j]@.metadata.name_any(),
        decreases clusters.len() - i,
    {
        names.push(clusters[i].name_any());
        i += 1;
    }
    assert(names.deep_view() =~= cluster_names(clusters.deep_view()));
    names
}

impl SyncManager {
    /// A manager that has neither started nor synced anything.
    pub fn new(config: Config) -> (manager: Self)
        ensures
            manager@ == SyncManagerView::initial(config@),
    {
        SyncManager {
            config,
            initial_sync_done: false,
            synced_clusters: StringSet::new(),
            phase: Phase::Created,
        }
    }

    /// The configuration that the manager was made with.
    pub fn config(&self) -> (config: &Config)
        ensures
            config@ == self@.config,
    {
        &self.config
    }

    /// Whether the initial sync has been carried through.
    pub fn initial_sync_done(&self) -> (done: bool)
        ensures
            done == self@.initial_sync_done,
    {
        self.initial_sync_done
    }

    /// Whether the cluster counts as synced.
    pub fn is_cluster_synced(&self, cluster_name: &str) -> (synced: bool)
        ensures
            synced == self@.synced_clusters.contains(cluster_name@),
    {
        self.synced_clusters.contains(cluster_name)
    }

    /// How many clusters count as synced.
    pub fn synced_cluster_count(&self) -> (count: usize)
        ensures
            self@.synced_clusters.finite(),
            count == self@.synced_clusters.len(),
    {
        self.synced_clusters.len()
    }

    /// Counts the cluster as synced.
    pub fn mark_cluster_synced(&mut self, cluster_name: &str)
        ensures
            final(self)@ == (SyncManagerView {
                synced_clusters: old(self)@.synced_clusters.insert(cluster_name@),
                ..old(self)@
            }),
    {
        self.synced_clusters.insert(cluster_name.to_owned());
    }

    /// Stops counting the cluster as synced, so that it gets every enabled
    /// secret anew when it is next seen ready. A cluster that did not count as
    /// synced changes nothing.
    pub fn handle_cluster_not_ready(&mut self, name: &str)
        ensures
            final(self)@ == (SyncManagerView {
                synced_clusters: old(self)@.synced_clusters.remove(name@),
                ..old(self)@
            }),
    {
        self.synced_clusters.remove(name);
    }

    /// A changed secret: dropped until the initial sync is done and where it is
    /// not enabled, and otherwise sent to every cluster that a fresh listing
    /// shows ready.
    fn handle_secret_changed(&mut self, secret: Secret) -> (request: SyncRequest)
        ensures
            (final(self)@, request@) == old(self)@.handle_event(
                SyncEventView::SecretChanged { secret: secret@ },
            ),
    {
        if !self.initial_sync_done || !is_secret_enabled(&secret) {
            return SyncRequest::AwaitEvent;
        }
        self.phase = Phase::SecretClusters { secret };
        SyncRequest::ListClusters
    }

    /// A ready cluster: left alone where it counts as synced and where it is
    /// the management cluster, and otherwise given every secret that a fresh
    /// listing shows enabled.
    fn handle_cluster_ready(&mut self, cluster: Cluster) -> (request: SyncRequest)
        ensures
            (final(self)@, request@) == old(self)@.handle_event(
                SyncEventView::ClusterBecameReady { cluster: cluster@ },
            ),
    {
        let cluster_name = cluster.name_any();
        if self.synced_clusters.contains(cluster_name.as_str()) || cluster.is_local() {
            return SyncRequest::AwaitEvent;
        }
        self.phase = Phase::ClusterSecrets { cluster };
        SyncRequest::ListSecrets
    }

    /// Handles one event to the point where something has to be asked for.
    fn handle_event(&mut self, event: SyncEvent) -> (request: SyncRequest)
        ensures
            (final(self)@, request@) == old(self)@.handle_event(event@),
    {
        match event {
            SyncEvent::SecretChanged { secret } => self.handle_secret_changed(secret),
            SyncEvent::ClusterBecameReady { cluster } => self.handle_cluster_ready(cluster),
            SyncEvent::ClusterBecameNotReady { name } => {
                self.handle_cluster_not_ready(name.as_str());
                SyncRequest::AwaitEvent
            },
        }
    }

    /// Goes on with a batch: asks for its next copy, or ends it.
    fn distribute(
        &mut self,
        batch: Vec<Distribution>,
        next: usize,
        mark: Vec<String>,
        completes_initial_sync: bool,
    ) -> (request: SyncRequest)
        ensures
            (final(self)@, request@) == old(self)@.distribute(
                remaining_from(batch.deep_view(), next as int),
                mark.deep_view(),
                completes_initial_sync,
            ),
    {
        let ghost remaining = remaining_from(batch.deep_view(), next as int);
        if next < batch.len() {
            let distribution = batch[next].clone();
            proof {
                assert(remaining[0] == batch[next as int]@);
                assert(remaining.drop_first() =~= remaining_from(batch.deep_view(), next + 1));
            }
            self.phase =
            Phase::Distributing { batch, next: next + 1, mark, completes_initial_sync };
            SyncRequest::Copy(distribution)
        } else {
            assert(remaining.len() == 0);
            let ghost before = self.synced_clusters@;
            let mut i: usize = 0;
            assert(mark.deep_view().take(0) =~= Seq::empty());
            assert(before.union(Seq::<Seq<char>>::empty().to_set()) =~= before);
            while i < mark.len()
                invariant
                    i <= mark.len(),
                    self.synced_clusters@ == before.union(mark.deep_view().take(i as int).to_set()),
                    self.config == old(self).config,
                    self.initial_sync_done == old(self).initial_sync_done,
                decreases mark.len() - i,
            {
                proof {
                    let upto = mark.deep_view().take(i as int);
                    assert(mark.deep_view().take(i + 1) =~= upto.push(mark[i as int]@));
                    upto.lemma_push_to_set_commute(mark[i as int]@);
                    assert(before.union(upto.to_set()).insert(mark[i as int]@) =~= before.union(
                        upto.to_set().insert(mark[i as int]@),
                    ));
                }
                self.synced_clusters.insert(mark[i].clone());
                i += 1;
            }
            assert(mark.deep_view().take(i as int) =~= mark.deep_view());
            if completes_initial_sync {
                self.initial_sync_done = true;
            }
            self.phase = Phase::Idle;
            SyncRequest::AwaitEvent
        }
    }

    /// Takes what happened and answers with what is to be done next. An input
    /// that is not what the manager is waiting for is refused with `None`, and
    /// changes nothing.
    pub fn step(&mut self, input: SyncInput) -> (request: Option<SyncRequest>)
        ensures
            match request {
                Some(request) => old(self)@.step(input@) == Some((final(self)@, request@)),
                None => old(self)@.step(input@) is None && final(self)@ == old(self)@,
            },
    {
        let mut phase = Phase::Idle;
        core::mem::swap(&mut self.phase, &mut phase);
        match (phase, input) {
            (Phase::Created, SyncInput::Start) => {
                self.phase = Phase::InitialClusters;
                Some(SyncRequest::ListClusters)
            },
            (Phase::InitialClusters, SyncInput::Clusters(listing)) => {
                match get_ready_clusters(listing) {
                    Ok(clusters) => {
                        self.phase = Phase::InitialSecrets { clusters };
                        Some(SyncRequest::ListSecrets)
                    },
                    Err(_) => Some(SyncRequest::AwaitEvent),
                }
            },
            (Phase::InitialSecrets { clusters }, SyncInput::Secrets(listing)) => {
                match get_enabled_secrets(listing) {
                    Ok(secrets) => {
                        let batch = sync_secrets_to_clusters(&secrets, &clusters);
                        let mark = names_of(&clusters);
                        assert(remaining_from(batch.deep_view(), 0) =~= batch.deep_view());
                        Some(self.distribute(batch, 0, mark, true))
                    },
                    Err(_) => Some(SyncRequest::AwaitEvent),
                }
            },
            (Phase::Idle, SyncInput::Event(event)) => Some(self.handle_event(event)),
            (Phase::Idle, SyncInput::Closed) => {
                self.phase = Phase::Stopped;
                Some(SyncRequest::Stop)
            },
            (Phase::SecretClusters { secret }, SyncInput::Clusters(listing)) => {
                match get_ready_clusters(listing) {
                    Ok(clusters) => {
                        let mut batch: Vec<Distribution> = Vec::new();
                        assert(batch.deep_view() =~= Seq::empty());
                        sync_secret_to_clusters(&secret, &clusters, &mut batch);
                        assert(batch.deep_view() =~= secret_to_clusters(
                            secret@,
                            clusters.deep_view(),
                        ));
                        assert(remaining_from(batch.deep_view(), 0) =~= batch.deep_view());
                        let mark: Vec<String> = Vec::new();
                        assert(mark.deep_view() =~= Seq::empty());
                        Some(self.distribute(batch, 0, mark, false))
                    },
                    Err(_) => Some(SyncRequest::AwaitEvent),
                }
            },
            (Phase::ClusterSecrets { cluster }, SyncInput::Secrets(listing)) => {
                match get_enabled_secrets(listing) {
                    Ok(secrets) => {
                        let batch = sync_secrets_to_cluster(&secrets, &cluster);
                        assert(remaining_from(batch.deep_view(), 0) =~= batch.deep_view());
                        let mut mark: Vec<String> = Vec::new();
                        mark.push(cluster.name_any());
                        assert(mark.deep_view() =~= seq![cluster@.metadata.name_any()]);
                        Some(self.distribute(batch, 0, mark, false))
                    },
                    Err(_) => Some(SyncRequest::AwaitEvent),
                }
            },
            (
                Phase::Distributing { batch, next, mark, completes_initial_sync },
                SyncInput::Copied(_),
            ) => Some(self.distribute(batch, next, mark, completes_initial_sync)),
            (phase, _) => {
                self.phase = phase;
                None
            },
        }
    }
}

} // verus!
