//! The watchers' decisions: what a changed resource is reported as.

use vstd::prelude::*;
use crate::error::OutriderError;
use crate::sync::manager::{SyncEvent, SyncEventView};

pub mod cluster;
pub mod secret;

verus! {

/// When a resource is to be looked at again.
#[derive(Clone, Copy, PartialEq, Eq, Structural, Debug)]
pub enum Action {
    /// When it next changes.
    AwaitChange,
    /// After so many seconds.
    Requeue { seconds: u64 },
}

/// The seconds after which a resource is looked at again when looking at it failed.
pub const ERROR_REQUEUE_SECS: u64 = 60;

/// What looking at one resource comes to: the event to report to the manager,
/// if any, and when to look again.
#[derive(Debug)]
pub struct Reconciliation {
    pub event: Option<SyncEvent>,
    pub action: Action,
}

impl Reconciliation {
    /// The event to report, as mathematical values.
    pub open spec fn event_view(&self) -> Option<SyncEventView> {
        match self.event {
            Some(event) => Some(event@),
            None => None,
        }
    }
}

/// Decides when a resource is looked at again after looking at it failed:
/// after a minute, whatever the failure.
pub fn error_policy(error: &OutriderError) -> (action: Action)
    ensures
        action == (Action::Requeue { seconds: ERROR_REQUEUE_SECS }),
{
    Action::Requeue { seconds: ERROR_REQUEUE_SECS }
}

} // verus!
