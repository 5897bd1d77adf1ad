//! Properties of the engine that span several operations.

use vstd::prelude::*;

use crate::engine::GrantContract;
use crate::lifecycle::LifecycleAction;
use crate::records::GrantError;
use crate::records::GrantStatus;

verus! {

/// The accounting invariant: in every well-formed engine state — and every
/// state the engine's operations produce is one — each grant's released
/// amount lies between zero and its total commitment.
pub proof fn lemma_released_within_total(s: &GrantContract, grant_id: u64)
    requires
        s.wf(),
        s.has_grant(grant_id),
    ensures
        0 <= s.grant_of(grant_id).released_amount <= s.grant_of(grant_id).total_amount,
{
    assert(s.grant_of(grant_id).wf());
}

/// Approval is deliberately not idempotent: in any state where a milestone
/// is already approved — as it is after every successful approval — the same
/// request fails with `AlreadyApproved`, and by `approve_milestone`'s
/// contract the failing call changes nothing.
pub proof fn lemma_repeat_approval_fails(
    s: &GrantContract,
    caller: u64,
    grant_id: u64,
    milestone_id: u64,
)
    requires
        s.has_grant(grant_id),
        caller == s.grant_of(grant_id).admin,
        s.has_milestone(grant_id, milestone_id),
        s.milestone_of(grant_id, milestone_id).approved,
    ensures
        s.approve_check(caller, grant_id, milestone_id) == Err::<(), GrantError>(
            GrantError::AlreadyApproved,
        ),
{
}

/// The sum law: once approvals have released the whole commitment — as when
/// the approved milestone amounts sum to the total — the grant is
/// `Completed` and nothing remains.
pub proof fn lemma_full_release_completes(s: &GrantContract, grant_id: u64)
    requires
        s.wf(),
        s.has_grant(grant_id),
        s.grant_of(grant_id).released_amount == s.grant_of(grant_id).total_amount,
    ensures
        s.grant_of(grant_id).status == GrantStatus::Completed,
        s.grant_of(grant_id).remaining() == 0,
{
    assert(s.grant_of(grant_id).wf());
}

/// The overflow guard: an approval whose amount would push the release past
/// the total — past the integer range included, since the sum is taken over
/// the unbounded integers — is rejected with `ExceedsTotalAmount`, and by
/// `approve_milestone`'s contract the failing call changes nothing.
pub proof fn lemma_over_release_rejected(
    s: &GrantContract,
    caller: u64,
    grant_id: u64,
    milestone_id: u64,
)
    requires
        s.has_grant(grant_id),
        caller == s.grant_of(grant_id).admin,
        s.has_milestone(grant_id, milestone_id),
        !s.milestone_of(grant_id, milestone_id).approved,
        s.grant_of(grant_id).released_amount + s.milestone_of(grant_id, milestone_id).amount > s.grant_of(
            grant_id,
        ).total_amount,
    ensures
        s.approve_check(caller, grant_id, milestone_id) == Err::<(), GrantError>(
            GrantError::ExceedsTotalAmount,
        ),
{
}

/// Conservation: lifecycle transitions move a grant's status and nothing
/// else — the released amount changes only through approvals (which raise
/// it) and withdrawals (which lower it), and totals and identities never
/// change after creation.
pub proof fn lemma_lifecycle_preserves_balances(
    pre: GrantContract,
    post: GrantContract,
    caller: u64,
    grant_id: u64,
    action: LifecycleAction,
    r: Result<(), GrantError>,
)
    requires
        pre.has_grant(grant_id),
        GrantContract::lifecycle_post(pre, post, caller, grant_id, action, r),
    ensures
        post.has_grant(grant_id),
        post.grant_of(grant_id).released_amount == pre.grant_of(grant_id).released_amount,
        post.grant_of(grant_id).total_amount == pre.grant_of(grant_id).total_amount,
        post.grant_of(grant_id).admin == pre.grant_of(grant_id).admin,
        post.grant_of(grant_id).grantee == pre.grant_of(grant_id).grantee,
        post.grant_of(grant_id).token_address == pre.grant_of(grant_id).token_address,
{
}

} // verus!
