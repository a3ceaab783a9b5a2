//! The startup barrier: nothing proceeds until the cluster resource type can be discovered.

use vstd::prelude::*;
use vstd::string::*;
use crate::constants::crd::{GROUP, KIND, POLL_INTERVAL_SECS, POLL_MAX_INTERVAL_SECS, VERSION};
use crate::error::{ApiError, OutriderError, OutriderErrorView};
use crate::text::str_eq;

verus! {

/// One resource type that discovery recommends in an API group.
#[derive(Debug)]
pub struct ApiResource {
    pub kind: String,
    pub version: String,
}

/// What an `ApiResource` holds, as mathematical values.
pub struct ApiResourceView {
    pub kind: Seq<char>,
    pub version: Seq<char>,
}

/// One API group as discovery reports it.
#[derive(Debug)]
pub struct ApiGroup {
    pub name: String,
    pub recommended_resources: Vec<ApiResource>,
}

/// What an `ApiGroup` holds, as mathematical values.
pub struct ApiGroupView {
    pub name: Seq<char>,
    pub recommended_resources: Seq<ApiResourceView>,
}

impl View for ApiResource {
    type V = ApiResourceView;

    open spec fn view(&self) -> ApiResourceView {
        ApiResourceView { kind: self.kind@, version: self.version@ }
    }
}

impl DeepView for ApiResource {
    type V = ApiResourceView;

    open spec fn deep_view(&self) -> ApiResourceView {
        self@
    }
}

impl View for ApiGroup {
    type V = ApiGroupView;

    open spec fn view(&self) -> ApiGroupView {
        ApiGroupView {
            name: self.name@,
            recommended_resources: self.recommended_resources.deep_view(),
        }
    }
}

impl DeepView for ApiGroup {
    type V = ApiGroupView;

    open spec fn deep_view(&self) -> ApiGroupView {
        self@
    }
}

impl ApiResourceView {
    /// The resource type is the cluster resource type.
    pub open spec fn is_cluster(self) -> bool {
        self.kind == KIND@ && self.version == VERSION@
    }
}

impl ApiGroupView {
    /// The group is the one of the cluster resource type and recommends it.
    pub open spec fn serves_clusters(self) -> bool {
        self.name == GROUP@ && exists|i: int|
            0 <= i < self.recommended_resources.len() && (
            #[trigger] self.recommended_resources[i]).is_cluster()
    }
}

/// Some group of the discovery is the one of the cluster resource type and
/// recommends it.
pub open spec fn cluster_crd_exists(groups: Seq<ApiGroupView>) -> bool {
    exists|i: int| 0 <= i < groups.len() && (#[trigger] groups[i]).serves_clusters()
}

/// The interval that follows `interval`: twice as long, and no longer than
/// the longest.
pub open spec fn next_interval(interval: int) -> int {
    if 2 * interval <= POLL_MAX_INTERVAL_SECS {
        2 * interval
    } else {
        POLL_MAX_INTERVAL_SECS as int
    }
}

/// The seconds to wait after the query that failed as the `failures`-th
/// before it did, counted from none: 10, 20, 40, and 60 from then on.
pub open spec fn interval_after(failures: nat) -> int
    decreases failures,
{
    if failures == 0 {
        POLL_INTERVAL_SECS as int
    } else {
        next_interval(interval_after((failures - 1) as nat))
    }
}

/// Whether the group recommends the cluster resource type.
fn recommends_cluster(group: &ApiGroup) -> (found: bool)
    ensures
        found == exists|i: int|
            0 <= i < group@.recommended_resources.len() && (
            #[trigger] group@.recommended_resources[i]).is_cluster(),
{
    let mut i: usize = 0;
    while i < group.recommended_resources.len()
        invariant
            i <= group.recommended_resources.len(),
            forall|j: int| 0 <= j < i ==> !(#[trigger] group@.recommended_resources[j]).is_cluster(),
        decreases group.recommended_resources.len() - i,
    {
        let resource = &group.recommended_resources[i];
        if str_eq(resource.kind.as_str(), KIND) && str_eq(resource.version.as_str(), VERSION) {
            assert(group@.recommended_resources[i as int].is_cluster());
            return true;
        }
        i += 1;
    }
    false
}

/// Whether some of the groups is the one of the cluster resource type and
/// recommends it.
fn holds_cluster_crd(groups: &Vec<ApiGroup>) -> (found: bool)
    ensures
        found == cluster_crd_exists(groups.deep_view()),
{
    let mut i: usize = 0;
    while i < groups.len()
        invariant
            i <= groups.len(),
            forall|j: int| 0 <= j < i ==> !(#[trigger] groups.deep_view()[j]).serves_clusters(),
        decreases groups.len() - i,
    {
        if str_eq(groups[i].name.as_str(), GROUP) && recommends_cluster(&groups[i]) {
            assert(groups.deep_view()[i as int].serves_clusters());
            return true;
        }
        i += 1;
    }
    false
}

/// Whether a discovery of the cluster's API shows the cluster resource type.
/// A discovery that failed is passed on as the failure of the API call.
pub fn check_cluster_crd_exists(discovered: Result<Vec<ApiGroup>, ApiError>) -> (exists: Result<
    bool,
    OutriderError,
>)
    ensures
        match (discovered, exists) {
            (Ok(groups), Ok(found)) => found == cluster_crd_exists(groups.deep_view()),
            (Err(failure), Err(error)) => error@ == OutriderErrorView::KubeError(failure@),
            _ => false,
        },
{
    match discovered {
        Ok(groups) => Ok(holds_cluster_crd(&groups)),
        Err(failure) => Err(OutriderError::KubeError(failure)),
    }
}

/// What is to be done once a query for the cluster resource type has ended.
#[derive(Clone, Copy, PartialEq, Eq, Structural, Debug)]
pub enum CrdStep {
    /// The resource type is there: go on.
    Available,
    /// It is not, or the query failed: sleep for so many seconds, then query again.
    RetryAfter { seconds: u64 },
}

/// The wait for the cluster resource type: it holds the interval that the
/// next failed query is followed by.
#[derive(Debug)]
pub struct CrdWait {
    interval: u64,
}

impl View for CrdWait {
    type V = int;

    closed spec fn view(&self) -> int {
        self.interval as int
    }
}

/// Begins the wait for the cluster resource type, with the first interval.
pub fn wait_for_cluster_crd() -> (wait: CrdWait)
    ensures
        wait@ == POLL_INTERVAL_SECS,
{
    CrdWait { interval: POLL_INTERVAL_SECS }
}

impl CrdWait {
    /// The seconds that the next failed query is followed by.
    pub fn interval(&self) -> (seconds: u64)
        ensures
            seconds == self@,
    {
        self.interval
    }

    /// Takes how a query ended. Where the resource type was found, the wait is
    /// over. Where it was not, and where the query failed, the query is to be
    /// made again after the interval, and the interval doubles up to the
    /// longest. A failure never ends the wait.
    pub fn step(&mut self, checked: Result<bool, OutriderError>) -> (step: CrdStep)
        ensures
            match checked {
                Ok(true) => step == CrdStep::Available && final(self)@ == old(self)@,
                _ => step matches CrdStep::RetryAfter { seconds } && seconds == old(self)@
                    && final(self)@ == next_interval(old(self)@),
            },
    {
        match checked {
            Ok(true) => CrdStep::Available,
            _ => {
                let seconds = self.interval;
                if seconds > POLL_MAX_INTERVAL_SECS / 2 {
                    self.interval = POLL_MAX_INTERVAL_SECS;
                } else {
                    self.interval = seconds * 2;
                }
                CrdStep::RetryAfter { seconds }
            },
        }
    }
}

/// The intervals never shrink and never pass the longest: they are 10, 20 and
/// 40 seconds, and 60 seconds from the fourth on.
pub proof fn lemma_backoff_schedule(failures: nat)
    ensures
        interval_after(0) == 10,
        interval_after(1) == 20,
        interval_after(2) == 40,
        failures >= 3 ==> interval_after(failures) == 60,
        POLL_INTERVAL_SECS <= interval_after(failures) <= POLL_MAX_INTERVAL_SECS,
        interval_after(failures) <= interval_after(failures + 1),
    decreases failures,
{
    reveal_with_fuel(interval_after, 4);
    if failures > 3 {
        lemma_backoff_schedule((failures - 1) as nat);
    }
}

} // verus!
