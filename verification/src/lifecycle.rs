//! The grant status state machine.
//!
//! Four requestable transitions act on a grant's status; `Completed` is never
//! requested directly — it is reached only when a milestone approval brings
//! the released amount up to the total.

use vstd::prelude::*;

use crate::records::GrantError;
use crate::records::GrantStatus;

verus! {

/// A requestable lifecycle transition.
#[derive(Clone, Copy, Debug, PartialEq, Eq, Structural)]
pub enum LifecycleAction {
    Activate,
    Pause,
    Resume,
    Cancel,
}

/// The states from which `action` may be requested: activate only from
/// `Proposed`, pause only from `Active`, resume only from `Paused`, cancel
/// only from `Proposed` or `Paused`.
pub open spec fn action_allowed_from(action: LifecycleAction, status: GrantStatus) -> bool {
    match action {
        LifecycleAction::Activate => status == GrantStatus::Proposed,
        LifecycleAction::Pause => status == GrantStatus::Active,
        LifecycleAction::Resume => status == GrantStatus::Paused,
        LifecycleAction::Cancel => status == GrantStatus::Proposed || status
            == GrantStatus::Paused,
    }
}

/// The state an allowed `action` moves a grant to.
pub open spec fn action_target(action: LifecycleAction) -> GrantStatus {
    match action {
        LifecycleAction::Activate => GrantStatus::Active,
        LifecycleAction::Pause => GrantStatus::Paused,
        LifecycleAction::Resume => GrantStatus::Active,
        LifecycleAction::Cancel => GrantStatus::Cancelled,
    }
}

/// Apply a requested transition: the target state exactly when the source
/// state allows the action, `InvalidStatus` otherwise.
pub fn apply_action(status: GrantStatus, action: LifecycleAction) -> (r: Result<
    GrantStatus,
    GrantError,
>)
    ensures
        action_allowed_from(action, status) ==> r == Ok::<GrantStatus, GrantError>(
            action_target(action),
        ),
        !action_allowed_from(action, status) ==> r == Err::<GrantStatus, GrantError>(
            GrantError::InvalidStatus,
        ),
{
    match action {
        LifecycleAction::Activate => match status {
            GrantStatus::Proposed => Ok(GrantStatus::Active),
            _ => Err(GrantError::InvalidStatus),
        },
        LifecycleAction::Pause => match status {
            GrantStatus::Active => Ok(GrantStatus::Paused),
            _ => Err(GrantError::InvalidStatus),
        },
        LifecycleAction::Resume => match status {
            GrantStatus::Paused => Ok(GrantStatus::Active),
            _ => Err(GrantError::InvalidStatus),
        },
        LifecycleAction::Cancel => match status {
            GrantStatus::Proposed | GrantStatus::Paused => Ok(GrantStatus::Cancelled),
            _ => Err(GrantError::InvalidStatus),
        },
    }
}

/// No requested transition leaves a terminal state: once a grant is
/// `Completed` or `Cancelled`, every lifecycle request fails.
pub proof fn lemma_terminal_states_are_final(action: LifecycleAction, status: GrantStatus)
    requires
        status == GrantStatus::Completed || status == GrantStatus::Cancelled,
    ensures
        !action_allowed_from(action, status),
{
}

} // verus!
