//! How the cluster resource type is awaited at startup.

use vstd::prelude::*;

verus! {

/// API group of the cluster resource type.
pub const GROUP: &'static str = "provisioning.cattle.io";

/// Version of the cluster resource type.
pub const VERSION: &'static str = "v1";

/// Kind of the cluster resource type.
pub const KIND: &'static str = "Cluster";

/// Seconds to wait after the first query that did not find the resource type.
pub const POLL_INTERVAL_SECS: u64 = 10;

/// The most seconds to wait between two queries.
pub const POLL_MAX_INTERVAL_SECS: u64 = 60;

} // verus!
