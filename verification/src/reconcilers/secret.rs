//! What a changed secret is reported as.

use vstd::prelude::*;
use crate::reconcilers::{Action, Reconciliation};
use crate::sync::manager::{SyncEvent, SyncEventView};
use crate::sync::secrets::is_secret_enabled;
use crate::types::secret::{Secret, SecretView};

verus! {

/// The event that a secret in this state is reported as: that it changed,
/// where it is enabled, and none where it is not.
pub open spec fn secret_event(secret: SecretView) -> Option<SyncEventView> {
    if secret.is_enabled() {
        Some(SyncEventView::SecretChanged { secret })
    } else {
        None
    }
}

/// Looks at a secret that changed: reports it to the manager where it is
/// enabled, says nothing of it where it is not, and waits for its next change.
pub fn reconcile(secret: &Secret) -> (reconciled: Reconciliation)
    ensures
        reconciled.event_view() == secret_event(secret@),
        reconciled.action == Action::AwaitChange,
{
    if !is_secret_enabled(secret) {
        return Reconciliation { event: None, action: Action::AwaitChange };
    }
    Reconciliation {
        event: Some(SyncEvent::SecretChanged { secret: secret.clone() }),
        action: Action::AwaitChange,
    }
}

/// A secret that is not enabled is never reported, and a secret that is
/// reported is enabled.
pub proof fn lemma_only_enabled_secrets_are_reported(secret: SecretView)
    ensures
        !secret.is_enabled() ==> secret_event(secret) is None,
        secret_event(secret) matches Some(SyncEventView::SecretChanged { secret: reported })
            ==> reported.is_enabled(),
{
}

} // verus!
