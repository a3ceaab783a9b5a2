//! What holds of whole runs of the manager: of every sequence of inputs that it may be fed.

use vstd::prelude::*;
use crate::config::ConfigView;
use crate::error::OutriderErrorView;
use crate::sync::clusters::ready_clusters;
use crate::sync::manager::{
    cluster_names, fan_out, secret_to_clusters, secrets_to_cluster, DistributionView, PhaseView,
    SyncEventView, SyncInputView, SyncManagerView, SyncRequestView,
};
use crate::sync::secrets::enabled_secrets;
use crate::types::cluster::ClusterView;
use crate::types::secret::SecretView;

verus! {

/// The state that a run of inputs ends in, and the requests that it draws, in
/// order. An input that is refused changes nothing and draws nothing.
pub open spec fn run(state: SyncManagerView, inputs: Seq<SyncInputView>) -> (
    SyncManagerView,
    Seq<SyncRequestView>,
)
    decreases inputs.len(),
{
    if inputs.len() == 0 {
        (state, Seq::empty())
    } else {
        match state.step(inputs.first()) {
            Some((next, request)) => {
                let (end, requests) = run(next, inputs.drop_first());
                (end, seq![request] + requests)
            },
            None => run(state, inputs.drop_first()),
        }
    }
}

/// The inputs that report how one copy after another ended.
pub open spec fn copied(outcomes: Seq<Result<(), OutriderErrorView>>) -> Seq<SyncInputView> {
    Seq::new(outcomes.len(), |i: int| SyncInputView::Copied(outcomes[i]))
}

/// The requests that ask for one copy after another.
pub open spec fn copy_requests(batch: Seq<DistributionView>) -> Seq<SyncRequestView> {
    Seq::new(batch.len(), |i: int| SyncRequestView::Copy(batch[i]))
}

/// The cluster may be copied into: it is not the management cluster and,
/// where `and_ready` asks for it, it is ready.
pub open spec fn is_target(cluster: ClusterView, and_ready: bool) -> bool {
    !cluster.is_local() && (and_ready ==> cluster.is_ready())
}

/// The pair may be copied: its secret is enabled and its cluster may be
/// copied into.
pub open spec fn is_eligible_if(distribution: DistributionView, and_ready: bool) -> bool {
    distribution.secret.is_enabled() && is_target(distribution.cluster, and_ready)
}

/// The pair may be copied: its secret is enabled, and its cluster is not the
/// management cluster.
pub open spec fn is_eligible(distribution: DistributionView) -> bool {
    is_eligible_if(distribution, false)
}

/// Every secret that is pending in this phase is enabled, and every cluster
/// that is pending in it may be copied into.
pub open spec fn pending_is_eligible_if(phase: PhaseView, and_ready: bool) -> bool {
    match phase {
        PhaseView::InitialSecrets { clusters } => forall|i: int|
            0 <= i < clusters.len() ==> is_target(#[trigger] clusters[i], and_ready),
        PhaseView::SecretClusters { secret } => secret.is_enabled(),
        PhaseView::ClusterSecrets { cluster } => is_target(cluster, and_ready),
        PhaseView::Distributing { remaining, .. } => forall|i: int|
            0 <= i < remaining.len() ==> is_eligible_if(#[trigger] remaining[i], and_ready),
        _ => true,
    }
}

/// Every secret that is pending in this phase is enabled, and no cluster that
/// is pending in it is the management cluster. So it is where nothing is
/// pending, as in a new manager.
pub open spec fn pending_is_eligible(phase: PhaseView) -> bool {
    pending_is_eligible_if(phase, false)
}

/// A cluster is reported ready only where its status says that it is.
pub open spec fn reports_ready(input: SyncInputView) -> bool {
    match input {
        SyncInputView::Event(SyncEventView::ClusterBecameReady { cluster }) => cluster.is_ready(),
        _ => true,
    }
}

/// A run over two stretches of inputs is the run over the first followed by
/// the run over the second.
pub proof fn lemma_run_concat(
    state: SyncManagerView,
    first: Seq<SyncInputView>,
    second: Seq<SyncInputView>,
)
    ensures
        run(state, first + second) == (
            run(run(state, first).0, second).0,
            run(state, first).1 + run(run(state, first).0, second).1,
        ),
    decreases first.len(),
{
    if first.len() == 0 {
        assert(first + second =~= second);
        assert(Seq::<SyncRequestView>::empty() + run(state, second).1 =~= run(state, second).1);
    } else {
        let all = first + second;
        assert(all.first() == first.first());
        assert(all.drop_first() =~= first.drop_first() + second);
        match state.step(first.first()) {
            Some((next, request)) => {
                lemma_run_concat(next, first.drop_first(), second);
                let head = run(next, first.drop_first());
                let tail = run(head.0, second);
                assert(seq![request] + (head.1 + tail.1) =~= (seq![request] + head.1) + tail.1);
            },
            None => {
                lemma_run_concat(state, first.drop_first(), second);
            },
        }
    }
}

/// Every secret is paired with every cluster exactly once: `fan_out` holds
/// the product of the two lengths, and names each pair at its place.
pub proof fn lemma_fan_out_pairs(secrets: Seq<SecretView>, clusters: Seq<ClusterView>)
    ensures
        fan_out(secrets, clusters).len() == secrets.len() * clusters.len(),
        forall|i: int, j: int|
            0 <= i < secrets.len() && 0 <= j < clusters.len() ==> 0 <= i * clusters.len() + j
                < fan_out(secrets, clusters).len() && #[trigger] fan_out(secrets, clusters)[i
                * clusters.len() + j] == (DistributionView {
                secret: secrets[i],
                cluster: clusters[j],
            }),
    decreases secrets.len(),
{
    let m = clusters.len() as int;
    if secrets.len() == 0 {
        assert(secrets.len() * clusters.len() == 0) by (nonlinear_arith)
            requires
                secrets.len() == 0,
        ;
    } else {
        let rest = secrets.drop_last();
        let n = rest.len() as int;
        lemma_fan_out_pairs(rest, clusters);
        assert((n + 1) * m == n * m + m) by (nonlinear_arith);
        assert forall|i: int, j: int| 0 <= i < secrets.len() && 0 <= j < clusters.len() implies 0
            <= i * clusters.len() + j < fan_out(secrets, clusters).len() && #[trigger] fan_out(
            secrets,
            clusters,
        )[i * clusters.len() + j] == (DistributionView {
            secret: secrets[i],
            cluster: clusters[j],
        }) by {
            assert(0 <= i * m + j < (n + 1) * m) by (nonlinear_arith)
                requires
                    0 <= i <= n,
                    0 <= j < m,
            ;
            if i < n {
                assert(i * m + j < n * m) by (nonlinear_arith)
                    requires
                        0 <= i < n,
                        0 <= j < m,
                ;
                assert(rest[i] == secrets[i]);
                assert(fan_out(rest, clusters)[i * m + j] == (DistributionView {
                    secret: rest[i],
                    cluster: clusters[j],
                }));
            } else {
                assert(i * m + j - n * m == j) by (nonlinear_arith)
                    requires
                        i == n,
                ;
                assert(secret_to_clusters(secrets.last(), clusters)[j] == (DistributionView {
                    secret: secrets[i],
                    cluster: clusters[j],
                }));
            }
        }
    }
}

/// Continue-on-error: once a batch is begun, every copy of it is asked for,
/// one after another and in order, however the copies before it ended; then
/// the batch is closed and the next event awaited.
pub proof fn lemma_batch_runs_through(
    state: SyncManagerView,
    remaining: Seq<DistributionView>,
    mark: Seq<Seq<char>>,
    completes_initial_sync: bool,
    outcomes: Seq<Result<(), OutriderErrorView>>,
)
    requires
        outcomes.len() == remaining.len(),
    ensures
        ({
            let (begun, first) = state.distribute(remaining, mark, completes_initial_sync);
            let (end, requests) = run(begun, copied(outcomes));
            &&& seq![first] + requests == copy_requests(remaining).push(SyncRequestView::AwaitEvent)
            &&& end == state.distribute(Seq::empty(), mark, completes_initial_sync).0
        }),
    decreases remaining.len(),
{
    let (begun, first) = state.distribute(remaining, mark, completes_initial_sync);
    if remaining.len() == 0 {
        assert(copied(outcomes) =~= Seq::empty());
        assert(seq![first] + run(begun, copied(outcomes)).1 =~= copy_requests(remaining).push(
            SyncRequestView::AwaitEvent,
        ));
    } else {
        let rest = remaining.drop_first();
        let inputs = copied(outcomes);
        assert(inputs.first() == SyncInputView::Copied(outcomes[0]));
        assert(inputs.drop_first() =~= copied(outcomes.drop_first()));
        lemma_batch_runs_through(begun, rest, mark, completes_initial_sync, outcomes.drop_first());
        let (second, request) = begun.distribute(rest, mark, completes_initial_sync);
        assert(begun.step(inputs.first()) == Some((second, request)));
        let (end, requests) = run(second, copied(outcomes.drop_first()));
        assert(run(begun, inputs) == (end, seq![request] + requests));
        assert(seq![first] + (seq![request] + requests) =~= copy_requests(remaining).push(
            SyncRequestView::AwaitEvent,
        )) by {
            let whole = copy_requests(remaining).push(SyncRequestView::AwaitEvent);
            let tail = copy_requests(rest).push(SyncRequestView::AwaitEvent);
            assert(seq![request] + requests == tail);
            assert(whole.len() == tail.len() + 1);
            assert forall|i: int| 0 <= i < whole.len() implies (seq![first] + tail)[i]
                == whole[i] by {
                if 0 < i && i < whole.len() - 1 {
                    assert(tail[i - 1] == SyncRequestView::Copy(rest[i - 1]));
                    assert(rest[i - 1] == remaining[i]);
                }
            }
        }
    }
}

/// The initial sync attempts every pair once. Given the listings of clusters
/// and secrets at startup, with N clusters ready and not local and M secrets
/// enabled, the manager asks for the N x M copies of `fan_out`, one by one
/// and whatever their outcomes, and for no other. Then the initial sync counts
/// as done and each of the N clusters as synced.
pub proof fn lemma_initial_sync_attempts_every_pair(
    config: ConfigView,
    clusters: Seq<ClusterView>,
    secrets: Seq<SecretView>,
    outcomes: Seq<Result<(), OutriderErrorView>>,
)
    requires
        outcomes.len() == enabled_secrets(secrets).len() * ready_clusters(clusters).len(),
    ensures
        ({
            let targets = ready_clusters(clusters);
            let eligible = enabled_secrets(secrets);
            let inputs = seq![
                SyncInputView::Start,
                SyncInputView::Clusters(Ok(clusters)),
                SyncInputView::Secrets(Ok(secrets)),
            ] + copied(outcomes);
            let (end, requests) = run(SyncManagerView::initial(config), inputs);
            &&& requests == seq![SyncRequestView::ListClusters, SyncRequestView::ListSecrets]
                + copy_requests(fan_out(eligible, targets)).push(SyncRequestView::AwaitEvent)
            &&& fan_out(eligible, targets).len() == eligible.len() * targets.len()
            &&& end == (SyncManagerView {
                config,
                initial_sync_done: true,
                synced_clusters: cluster_names(targets).to_set(),
                phase: PhaseView::Idle,
            })
        }),
{
    let targets = ready_clusters(clusters);
    let eligible = enabled_secrets(secrets);
    let batch = fan_out(eligible, targets);
    let start = SyncManagerView::initial(config);
    let listing = start.in_phase(PhaseView::InitialClusters);
    let waiting = start.in_phase(PhaseView::InitialSecrets { clusters: targets });
    let head = seq![
        SyncInputView::Start,
        SyncInputView::Clusters(Ok(clusters)),
        SyncInputView::Secrets(Ok(secrets)),
    ];
    lemma_fan_out_pairs(eligible, targets);
    lemma_batch_runs_through(waiting, batch, cluster_names(targets), true, outcomes);
    let (begun, first) = waiting.distribute(batch, cluster_names(targets), true);
    assert(run(start, head) == (
        begun,
        seq![SyncRequestView::ListClusters, SyncRequestView::ListSecrets, first],
    )) by {
        let two = head.drop_first();
        let one = two.drop_first();
        assert(one.drop_first() =~= Seq::empty());
        assert(start.step(head.first()) == Some((listing, SyncRequestView::ListClusters)));
        assert(listing.step(two.first()) == Some((waiting, SyncRequestView::ListSecrets)));
        assert(waiting.step(one.first()) == Some((begun, first)));
        assert(run(begun, one.drop_first()) == (begun, Seq::<SyncRequestView>::empty()));
        assert(run(waiting, one).1 =~= seq![first]);
        assert(run(listing, two).1 =~= seq![SyncRequestView::ListSecrets, first]);
        assert(run(start, head).1 =~= seq![
            SyncRequestView::ListClusters,
            SyncRequestView::ListSecrets,
            first,
        ]);
    }
    lemma_run_concat(start, head, copied(outcomes));
    let tail = run(begun, copied(outcomes)).1;
    assert(seq![SyncRequestView::ListClusters, SyncRequestView::ListSecrets, first] + tail
        =~= seq![SyncRequestView::ListClusters, SyncRequestView::ListSecrets] + (seq![first]
        + tail));
    assert(Set::<Seq<char>>::empty().union(cluster_names(targets).to_set()) =~= cluster_names(
        targets,
    ).to_set());
}

/// A secret that changes before the initial sync is done is dropped: no copy
/// is asked for and nothing changes, in whatever phase the manager is.
pub proof fn lemma_secret_change_before_initial_sync_is_dropped(
    state: SyncManagerView,
    secret: SecretView,
)
    requires
        !state.initial_sync_done,
    ensures
        ({
            let input = SyncInputView::Event(SyncEventView::SecretChanged { secret });
            &&& state.phase == PhaseView::Idle ==> state.step(input) == Some(
                (state, SyncRequestView::AwaitEvent),
            )
            &&& state.phase != PhaseView::Idle ==> state.step(input) is None
            &&& run(state, seq![input]).0 == state
            &&& forall|i: int|
                0 <= i < run(state, seq![input]).1.len() ==> !(#[trigger] run(
                    state,
                    seq![input],
                ).1[i] is Copy)
        }),
{
    let input = SyncInputView::Event(SyncEventView::SecretChanged { secret });
    let inputs = seq![input];
    assert(inputs.drop_first() =~= Seq::empty());
    assert(inputs.first() == input);
    assert(run(state, inputs.drop_first()) == (state, Seq::<SyncRequestView>::empty()));
    if state.phase == PhaseView::Idle {
        assert(run(state, inputs).1 =~= seq![SyncRequestView::AwaitEvent]);
    }
}

/// A cluster that is seen ready, then not ready, then ready again gets
/// exactly one more full fan-out. While it counts as synced, a report that it
/// is ready asks for nothing. The report that it is not ready takes it out of
/// the synced clusters, so the next report that it is ready draws one listing
/// of the secrets and one copy for each enabled secret, into this cluster.
/// After that it counts as synced again, and a further report that it is ready
/// asks for nothing. The management cluster is left out: it is never copied
/// into.
pub proof fn lemma_ready_again_fans_out_once(
    state: SyncManagerView,
    cluster: ClusterView,
    secrets: Seq<SecretView>,
    outcomes: Seq<Result<(), OutriderErrorView>>,
)
    requires
        state.phase == PhaseView::Idle,
        state.synced_clusters.contains(cluster.metadata.name_any()),
        !cluster.is_local(),
        outcomes.len() == enabled_secrets(secrets).len(),
    ensures
        ({
            let name = cluster.metadata.name_any();
            let ready = SyncInputView::Event(SyncEventView::ClusterBecameReady { cluster });
            let not_ready = SyncInputView::Event(SyncEventView::ClusterBecameNotReady { name });
            let inputs = seq![ready, not_ready, ready, SyncInputView::Secrets(Ok(secrets))]
                + copied(outcomes) + seq![ready];
            let (end, requests) = run(state, inputs);
            &&& requests == seq![
                SyncRequestView::AwaitEvent,
                SyncRequestView::AwaitEvent,
                SyncRequestView::ListSecrets,
            ] + copy_requests(secrets_to_cluster(enabled_secrets(secrets), cluster)).push(
                SyncRequestView::AwaitEvent,
            ).push(SyncRequestView::AwaitEvent)
            &&& end == state
        }),
{
    let name = cluster.metadata.name_any();
    let ready = SyncInputView::Event(SyncEventView::ClusterBecameReady { cluster });
    let not_ready = SyncInputView::Event(SyncEventView::ClusterBecameNotReady { name });
    let listed = SyncInputView::Secrets(Ok(secrets));
    let head = seq![ready, not_ready, ready, listed];
    let batch = secrets_to_cluster(enabled_secrets(secrets), cluster);
    let removed = SyncManagerView { synced_clusters: state.synced_clusters.remove(name), ..state };
    let listing = removed.in_phase(PhaseView::ClusterSecrets { cluster });
    let (begun, first) = listing.distribute(batch, seq![name], false);
    lemma_batch_runs_through(listing, batch, seq![name], false, outcomes);
    let after = run(begun, copied(outcomes));
    assert(after.0 == state) by {
        assert(seq![name].to_set() =~= set![name]) by {
            assert(seq![name][0] == name);
        }
        assert(state.synced_clusters.remove(name).union(set![name]) =~= state.synced_clusters);
    }
    assert(run(state, head) == (
        begun,
        seq![
            SyncRequestView::AwaitEvent,
            SyncRequestView::AwaitEvent,
            SyncRequestView::ListSecrets,
            first,
        ],
    )) by {
        let three = head.drop_first();
        let two = three.drop_first();
        let one = two.drop_first();
        assert(one.drop_first() =~= Seq::empty());
        assert(state.step(head.first()) == Some((state, SyncRequestView::AwaitEvent)));
        assert(state.step(three.first()) == Some((removed, SyncRequestView::AwaitEvent)));
        assert(removed.step(two.first()) == Some((listing, SyncRequestView::ListSecrets)));
        assert(listing.step(one.first()) == Some((begun, first)));
        assert(run(begun, one.drop_first()) == (begun, Seq::<SyncRequestView>::empty()));
        assert(run(listing, one).1 =~= seq![first]);
        assert(run(removed, two).1 =~= seq![SyncRequestView::ListSecrets, first]);
        assert(run(state, three).1 =~= seq![
            SyncRequestView::AwaitEvent,
            SyncRequestView::ListSecrets,
            first,
        ]);
        assert(run(state, head).1 =~= seq![
            SyncRequestView::AwaitEvent,
            SyncRequestView::AwaitEvent,
            SyncRequestView::ListSecrets,
            first,
        ]);
    }
    let last = seq![ready];
    assert(run(state, last) == (state, seq![SyncRequestView::AwaitEvent])) by {
        assert(last.drop_first() =~= Seq::empty());
        assert(state.step(last.first()) == Some((state, SyncRequestView::AwaitEvent)));
        assert(run(state, last.drop_first()) == (state, Seq::<SyncRequestView>::empty()));
        assert(run(state, last).1 =~= seq![SyncRequestView::AwaitEvent]);
    }
    lemma_run_concat(state, head, copied(outcomes));
    lemma_run_concat(state, head + copied(outcomes), last);
    let expected = seq![
        SyncRequestView::AwaitEvent,
        SyncRequestView::AwaitEvent,
        SyncRequestView::ListSecrets,
    ] + copy_requests(batch).push(SyncRequestView::AwaitEvent).push(SyncRequestView::AwaitEvent);
    assert((seq![
        SyncRequestView::AwaitEvent,
        SyncRequestView::AwaitEvent,
        SyncRequestView::ListSecrets,
        first,
    ] + after.1) + seq![SyncRequestView::AwaitEvent] =~= expected) by {
        assert(seq![first] + after.1 == copy_requests(batch).push(SyncRequestView::AwaitEvent));
        let middle = seq![first] + after.1;
        assert(seq![
            SyncRequestView::AwaitEvent,
            SyncRequestView::AwaitEvent,
            SyncRequestView::ListSecrets,
            first,
        ] + after.1 =~= seq![
            SyncRequestView::AwaitEvent,
            SyncRequestView::AwaitEvent,
            SyncRequestView::ListSecrets,
        ] + middle);
    }
}

/// Every pair of a fan-out is made of one of the secrets and one of the
/// clusters that went into it.
pub proof fn lemma_fan_out_holds_only(secrets: Seq<SecretView>, clusters: Seq<ClusterView>)
    ensures
        forall|k: int|
            0 <= k < fan_out(secrets, clusters).len() ==> exists|i: int, j: int|
                0 <= i < secrets.len() && 0 <= j < clusters.len() && (#[trigger] fan_out(
                    secrets,
                    clusters,
                )[k]) == (DistributionView { secret: #[trigger] secrets[i], cluster: #[trigger] clusters[j] }),
    decreases secrets.len(),
{
    if secrets.len() > 0 {
        let rest = secrets.drop_last();
        lemma_fan_out_holds_only(rest, clusters);
        let head = fan_out(rest, clusters);
        let all = fan_out(secrets, clusters);
        assert forall|k: int| 0 <= k < all.len() implies exists|i: int, j: int|
            0 <= i < secrets.len() && 0 <= j < clusters.len() && (#[trigger] all[k])
                == (DistributionView { secret: #[trigger] secrets[i], cluster: #[trigger] clusters[j] }) by {
            if k < head.len() {
                assert(all[k] == head[k]);
                let (i, j) = choose|i: int, j: int|
                    0 <= i < rest.len() && 0 <= j < clusters.len() && head[k]
                        == (DistributionView { secret: #[trigger] rest[i], cluster: #[trigger] clusters[j] });
                assert(secrets[i] == rest[i]);
                assert(all[k] == (DistributionView { secret: secrets[i], cluster: clusters[j] }));
            } else {
                let i = secrets.len() - 1;
                let j = k - head.len();
                assert(all[k] == secret_to_clusters(secrets.last(), clusters)[j]);
                assert(all[k] == (DistributionView { secret: secrets[i], cluster: clusters[j] }));
            }
        }
    }
}

/// A batch of eligible pairs stays one: the copy that is asked for first is of
/// an eligible pair, and so are those that remain.
proof fn lemma_distribute_keeps_eligible(
    state: SyncManagerView,
    batch: Seq<DistributionView>,
    mark: Seq<Seq<char>>,
    completes_initial_sync: bool,
    and_ready: bool,
)
    requires
        forall|i: int| 0 <= i < batch.len() ==> is_eligible_if(#[trigger] batch[i], and_ready),
    ensures
        ({
            let (next, request) = state.distribute(batch, mark, completes_initial_sync);
            &&& pending_is_eligible_if(next.phase, and_ready)
            &&& request matches SyncRequestView::Copy(distribution) ==> is_eligible_if(
                distribution,
                and_ready,
            )
        }),
{
    if batch.len() > 0 {
        assert(is_eligible_if(batch[0], and_ready));
        assert forall|i: int| 0 <= i < batch.drop_first().len() implies is_eligible_if(
            #[trigger] batch.drop_first()[i],
            and_ready,
        ) by {
            assert(batch.drop_first()[i] == batch[i + 1]);
        }
    }
}

/// One step keeps ineligible pairs out, with or without regard to readiness.
proof fn lemma_step_keeps_eligible(state: SyncManagerView, input: SyncInputView, and_ready: bool)
    requires
        pending_is_eligible_if(state.phase, and_ready),
        and_ready ==> reports_ready(input),
        state.step(input) is Some,
    ensures
        ({
            let (next, request) = state.step(input).unwrap();
            &&& pending_is_eligible_if(next.phase, and_ready)
            &&& request matches SyncRequestView::Copy(distribution) ==> is_eligible_if(
                distribution,
                and_ready,
            )
        }),
{
    let enabled = |secret: SecretView| secret.is_enabled();
    let target = |cluster: ClusterView| cluster.is_sync_target();
    match (state.phase, input) {
        (PhaseView::InitialClusters, SyncInputView::Clusters(Ok(listing))) => {
            let targets = ready_clusters(listing);
            assert forall|i: int| 0 <= i < targets.len() implies is_target(
                #[trigger] targets[i],
                and_ready,
            ) by {
                listing.lemma_filter_pred(target, i);
            }
        },
        (PhaseView::InitialSecrets { clusters }, SyncInputView::Secrets(Ok(listing))) => {
            let eligible = enabled_secrets(listing);
            let batch = fan_out(eligible, clusters);
            lemma_fan_out_holds_only(eligible, clusters);
            assert forall|k: int| 0 <= k < batch.len() implies is_eligible_if(
                #[trigger] batch[k],
                and_ready,
            ) by {
                let (i, j) = choose|i: int, j: int|
                    0 <= i < eligible.len() && 0 <= j < clusters.len() && batch[k]
                        == (DistributionView { secret: #[trigger] eligible[i], cluster: #[trigger] clusters[j] });
                listing.lemma_filter_pred(enabled, i);
                assert(is_target(clusters[j], and_ready));
            }
            lemma_distribute_keeps_eligible(state, batch, cluster_names(clusters), true, and_ready);
        },
        (PhaseView::SecretClusters { secret }, SyncInputView::Clusters(Ok(listing))) => {
            let targets = ready_clusters(listing);
            let batch = secret_to_clusters(secret, targets);
            assert forall|k: int| 0 <= k < batch.len() implies is_eligible_if(
                #[trigger] batch[k],
                and_ready,
            ) by {
                listing.lemma_filter_pred(target, k);
            }
            lemma_distribute_keeps_eligible(state, batch, Seq::empty(), false, and_ready);
        },
        (PhaseView::ClusterSecrets { cluster }, SyncInputView::Secrets(Ok(listing))) => {
            let eligible = enabled_secrets(listing);
            let batch = secrets_to_cluster(eligible, cluster);
            assert forall|k: int| 0 <= k < batch.len() implies is_eligible_if(
                #[trigger] batch[k],
                and_ready,
            ) by {
                listing.lemma_filter_pred(enabled, k);
            }
            lemma_distribute_keeps_eligible(
                state,
                batch,
                seq![cluster.metadata.name_any()],
                false,
                and_ready,
            );
        },
        (
            PhaseView::Distributing { remaining, mark, completes_initial_sync },
            SyncInputView::Copied(_),
        ) => {
            lemma_distribute_keeps_eligible(
                state,
                remaining,
                mark,
                completes_initial_sync,
                and_ready,
            );
        },
        _ => {},
    }
}

/// A run keeps ineligible pairs out, with or without regard to readiness.
proof fn lemma_run_keeps_eligible(
    state: SyncManagerView,
    inputs: Seq<SyncInputView>,
    and_ready: bool,
)
    requires
        pending_is_eligible_if(state.phase, and_ready),
        and_ready ==> forall|i: int| 0 <= i < inputs.len() ==> reports_ready(#[trigger] inputs[i]),
    ensures
        pending_is_eligible_if(run(state, inputs).0.phase, and_ready),
        forall|k: int|
            0 <= k < run(state, inputs).1.len() ==> ((#[trigger] run(state, inputs).1[k])
                matches SyncRequestView::Copy(distribution) ==> is_eligible_if(
                distribution,
                and_ready,
            )),
    decreases inputs.len(),
{
    if inputs.len() > 0 {
        let rest = inputs.drop_first();
        if and_ready {
            assert forall|i: int| 0 <= i < rest.len() implies reports_ready(#[trigger] rest[i]) by {
                assert(rest[i] == inputs[i + 1]);
            }
        }
        match state.step(inputs.first()) {
            Some((next, request)) => {
                lemma_step_keeps_eligible(state, inputs.first(), and_ready);
                lemma_run_keeps_eligible(next, rest, and_ready);
                let requests = run(next, rest).1;
                assert forall|k: int| 0 <= k < run(state, inputs).1.len() implies ((
                #[trigger] run(state, inputs).1[k]) matches SyncRequestView::Copy(distribution)
                    ==> is_eligible_if(distribution, and_ready)) by {
                    if k > 0 {
                        assert(run(state, inputs).1[k] == requests[k - 1]);
                    }
                }
            },
            None => {
                lemma_run_keeps_eligible(state, rest, and_ready);
            },
        }
    }
}

/// One step keeps ineligible pairs out, whatever it is handed: where
/// everything pending is eligible, the copy that the step asks for, if any,
/// is of an enabled secret into a cluster other than the management cluster,
/// and again everything pending is eligible.
pub proof fn lemma_step_copies_only_eligible(state: SyncManagerView, input: SyncInputView)
    requires
        pending_is_eligible(state.phase),
        state.step(input) is Some,
    ensures
        ({
            let (next, request) = state.step(input).unwrap();
            &&& pending_is_eligible(next.phase)
            &&& request matches SyncRequestView::Copy(distribution) ==> is_eligible(distribution)
        }),
{
    lemma_step_keeps_eligible(state, input, false);
}

/// Nothing is copied that is not eligible, whatever the manager is fed. In
/// every run that begins where everything pending is eligible, as every run
/// of a new manager does, each copy that is asked for is of a secret that
/// carries the enabling annotation with the value `true`, into a cluster
/// other than the management cluster. For a secret that is not enabled no
/// copy is ever asked for.
pub proof fn lemma_run_copies_only_eligible(state: SyncManagerView, inputs: Seq<SyncInputView>)
    requires
        pending_is_eligible(state.phase),
    ensures
        pending_is_eligible(run(state, inputs).0.phase),
        forall|k: int|
            0 <= k < run(state, inputs).1.len() ==> ((#[trigger] run(state, inputs).1[k])
                matches SyncRequestView::Copy(distribution) ==> is_eligible(distribution)),
{
    lemma_run_keeps_eligible(state, inputs, false);
}

/// Copies go to ready clusters only, as long as clusters are reported ready
/// only where they are: in such a run each copy that is asked for is, beyond
/// being eligible, into a cluster whose status holds the condition `Ready`
/// with status `True`.
pub proof fn lemma_run_copies_only_to_ready(state: SyncManagerView, inputs: Seq<SyncInputView>)
    requires
        pending_is_eligible_if(state.phase, true),
        forall|i: int| 0 <= i < inputs.len() ==> reports_ready(#[trigger] inputs[i]),
    ensures
        pending_is_eligible_if(run(state, inputs).0.phase, true),
        forall|k: int|
            0 <= k < run(state, inputs).1.len() ==> ((#[trigger] run(state, inputs).1[k])
                matches SyncRequestView::Copy(distribution) ==> distribution.secret.is_enabled()
                && distribution.cluster.is_sync_target()),
{
    lemma_run_keeps_eligible(state, inputs, true);
}

/// A changed secret that is not enabled is dropped, also after the initial
/// sync: no listing and no copy is asked for, and nothing changes.
pub proof fn lemma_ineligible_secret_is_dropped(state: SyncManagerView, secret: SecretView)
    requires
        !secret.is_enabled(),
    ensures
        ({
            let input = SyncInputView::Event(SyncEventView::SecretChanged { secret });
            &&& state.phase == PhaseView::Idle ==> state.step(input) == Some(
                (state, SyncRequestView::AwaitEvent),
            )
            &&& state.phase != PhaseView::Idle ==> state.step(input) is None
        }),
{
}

/// The management cluster is never fanned out to: a report that it is ready
/// asks for no listing and no copy, changes nothing, and does not make it
/// count as synced.
pub proof fn lemma_local_cluster_is_left_alone(state: SyncManagerView, cluster: ClusterView)
    requires
        cluster.is_local(),
    ensures
        ({
            let input = SyncInputView::Event(SyncEventView::ClusterBecameReady { cluster });
            &&& state.phase == PhaseView::Idle ==> state.step(input) == Some(
                (state, SyncRequestView::AwaitEvent),
            )
            &&& state.phase != PhaseView::Idle ==> state.step(input) is None
        }),
{
}

/// A changed secret that is enabled goes to every cluster that is ready now.
/// Once the initial sync is done, such a secret draws one listing of the
/// clusters and then one copy for each cluster of the listing that is ready
/// and not the management cluster, in the listing's order and whatever the
/// copies come to. No cluster comes to count as synced by it.
pub proof fn lemma_changed_secret_goes_to_every_ready_cluster(
    state: SyncManagerView,
    secret: SecretView,
    clusters: Seq<ClusterView>,
    outcomes: Seq<Result<(), OutriderErrorView>>,
)
    requires
        state.phase == PhaseView::Idle,
        state.initial_sync_done,
        secret.is_enabled(),
        outcomes.len() == ready_clusters(clusters).len(),
    ensures
        ({
            let inputs = seq![
                SyncInputView::Event(SyncEventView::SecretChanged { secret }),
                SyncInputView::Clusters(Ok(clusters)),
            ] + copied(outcomes);
            let (end, requests) = run(state, inputs);
            &&& requests == seq![SyncRequestView::ListClusters] + copy_requests(
                secret_to_clusters(secret, ready_clusters(clusters)),
            ).push(SyncRequestView::AwaitEvent)
            &&& end == state
        }),
{
    let changed = SyncInputView::Event(SyncEventView::SecretChanged { secret });
    let listed = SyncInputView::Clusters(Ok(clusters));
    let head = seq![changed, listed];
    let batch = secret_to_clusters(secret, ready_clusters(clusters));
    let listing = state.in_phase(PhaseView::SecretClusters { secret });
    let (begun, first) = listing.distribute(batch, Seq::empty(), false);
    lemma_batch_runs_through(listing, batch, Seq::empty(), false, outcomes);
    let after = run(begun, copied(outcomes));
    assert(after.0 == state) by {
        assert(state.synced_clusters.union(Seq::<Seq<char>>::empty().to_set())
            =~= state.synced_clusters);
    }
    assert(run(state, head) == (begun, seq![SyncRequestView::ListClusters, first])) by {
        let one = head.drop_first();
        assert(one.drop_first() =~= Seq::empty());
        assert(state.step(head.first()) == Some((listing, SyncRequestView::ListClusters)));
        assert(listing.step(one.first()) == Some((begun, first)));
        assert(run(begun, one.drop_first()) == (begun, Seq::<SyncRequestView>::empty()));
        assert(run(listing, one).1 =~= seq![first]);
        assert(run(state, head).1 =~= seq![SyncRequestView::ListClusters, first]);
    }
    lemma_run_concat(state, head, copied(outcomes));
    assert(seq![SyncRequestView::ListClusters, first] + after.1 =~= seq![
        SyncRequestView::ListClusters,
    ] + (seq![first] + after.1));
}

/// A cluster that becomes ready and does not count as synced gets one full
/// fan-out. The report draws one fresh listing of the secrets and then one
/// copy for each secret of that listing that is enabled, into this cluster,
/// in the listing's order. When the copies are through, whatever they came
/// to, the cluster counts as synced.
pub proof fn lemma_ready_cluster_gets_every_enabled_secret(
    state: SyncManagerView,
    cluster: ClusterView,
    secrets: Seq<SecretView>,
    outcomes: Seq<Result<(), OutriderErrorView>>,
)
    requires
        state.phase == PhaseView::Idle,
        !state.synced_clusters.contains(cluster.metadata.name_any()),
        !cluster.is_local(),
        outcomes.len() == enabled_secrets(secrets).len(),
    ensures
        ({
            let inputs = seq![
                SyncInputView::Event(SyncEventView::ClusterBecameReady { cluster }),
                SyncInputView::Secrets(Ok(secrets)),
            ] + copied(outcomes);
            let (end, requests) = run(state, inputs);
            &&& requests == seq![SyncRequestView::ListSecrets] + copy_requests(
                secrets_to_cluster(enabled_secrets(secrets), cluster),
            ).push(SyncRequestView::AwaitEvent)
            &&& end == (SyncManagerView {
                synced_clusters: state.synced_clusters.insert(cluster.metadata.name_any()),
                ..state
            })
        }),
{
    let name = cluster.metadata.name_any();
    let ready = SyncInputView::Event(SyncEventView::ClusterBecameReady { cluster });
    let listed = SyncInputView::Secrets(Ok(secrets));
    let head = seq![ready, listed];
    let batch = secrets_to_cluster(enabled_secrets(secrets), cluster);
    let listing = state.in_phase(PhaseView::ClusterSecrets { cluster });
    let (begun, first) = listing.distribute(batch, seq![name], false);
    lemma_batch_runs_through(listing, batch, seq![name], false, outcomes);
    let after = run(begun, copied(outcomes));
    assert(after.0.synced_clusters == state.synced_clusters.insert(name)) by {
        assert(seq![name].to_set() =~= set![name]) by {
            assert(seq![name][0] == name);
        }
        assert(state.synced_clusters.union(set![name]) =~= state.synced_clusters.insert(name));
    }
    assert(run(state, head) == (begun, seq![SyncRequestView::ListSecrets, first])) by {
        let one = head.drop_first();
        assert(one.drop_first() =~= Seq::empty());
        assert(state.step(head.first()) == Some((listing, SyncRequestView::ListSecrets)));
        assert(listing.step(one.first()) == Some((begun, first)));
        assert(run(begun, one.drop_first()) == (begun, Seq::<SyncRequestView>::empty()));
        assert(run(listing, one).1 =~= seq![first]);
        assert(run(state, head).1 =~= seq![SyncRequestView::ListSecrets, first]);
    }
    lemma_run_concat(state, head, copied(outcomes));
    assert(seq![SyncRequestView::ListSecrets, first] + after.1 =~= seq![
        SyncRequestView::ListSecrets,
    ] + (seq![first] + after.1));
}

/// Status updates of a synced cluster never draw a fan-out, however often
/// they come: any number of reports that a cluster is ready, while it counts
/// as synced, ask for nothing but the next event and change nothing.
pub proof fn lemma_synced_cluster_updates_ask_nothing(
    state: SyncManagerView,
    cluster: ClusterView,
    times: nat,
)
    requires
        state.phase == PhaseView::Idle,
        state.synced_clusters.contains(cluster.metadata.name_any()),
    ensures
        ({
            let ready = SyncInputView::Event(SyncEventView::ClusterBecameReady { cluster });
            run(state, Seq::new(times, |i: int| ready)) == (
                state,
                Seq::new(times, |i: int| SyncRequestView::AwaitEvent),
            )
        }),
    decreases times,
{
    let ready = SyncInputView::Event(SyncEventView::ClusterBecameReady { cluster });
    let inputs = Seq::new(times, |i: int| ready);
    let requests = Seq::new(times, |i: int| SyncRequestView::AwaitEvent);
    if times == 0 {
        assert(run(state, inputs).1 =~= requests);
    } else {
        lemma_synced_cluster_updates_ask_nothing(state, cluster, (times - 1) as nat);
        assert(inputs.first() == ready);
        assert(inputs.drop_first() =~= Seq::new((times - 1) as nat, |i: int| ready));
        assert(state.step(ready) == Some((state, SyncRequestView::AwaitEvent)));
        assert(seq![SyncRequestView::AwaitEvent] + Seq::new(
            (times - 1) as nat,
            |i: int| SyncRequestView::AwaitEvent,
        ) =~= requests);
    }
}

} // verus!
