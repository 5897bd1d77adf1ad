use vstd::prelude::*;

verus! {

/// Lifecycle states of a grant. `Completed` and `Cancelled` are terminal.
#[derive(Clone, Copy, Debug, PartialEq, Eq, Structural)]
pub enum GrantStatus {
    Proposed,
    Active,
    Paused,
    Completed,
    Cancelled,
}

/// Every way an engine operation can fail. Each operation's contract says
/// exactly which inputs produce which error.
#[derive(Clone, Copy, Debug, PartialEq, Eq, Structural)]
pub enum GrantError {
    GrantNotFound,
    Unauthorized,
    InvalidAmount,
    MilestoneNotFound,
    AlreadyApproved,
    ExceedsTotalAmount,
    InvalidStatus,
}

/// One funding commitment: an admin promises `total_amount` of a token to a
/// grantee, released incrementally through milestone approvals.
///
/// Identities and the token are plain account numbers; the host that embeds
/// the engine maps them to its own address representation.
#[derive(Clone, Copy, Debug, PartialEq, Eq, Structural)]
pub struct Grant {
    pub admin: u64,
    pub grantee: u64,
    pub total_amount: u128,
    pub released_amount: u128,
    pub token_address: u64,
    pub created_at: u64,
    pub status: GrantStatus,
}

impl Grant {
    /// Well-formedness: the commitment is positive, released funds never
    /// exceed it, and a fully released grant is marked `Completed`.
    pub open spec fn wf(self) -> bool {
        &&& self.total_amount > 0
        &&& self.released_amount <= self.total_amount
        &&& (self.released_amount == self.total_amount ==> self.status
            == GrantStatus::Completed)
    }

    /// The portion of the commitment not yet released.
    pub open spec fn remaining(self) -> int {
        self.total_amount - self.released_amount
    }
}

/// A named sub-amount of a grant, payable once approved. Approval happens
/// exactly once and is never unset.
#[derive(Debug)]
pub struct Milestone {
    pub amount: u128,
    pub description: String,
    pub approved: bool,
    pub approved_at: Option<u64>,
}

impl Milestone {
    /// Well-formedness: a milestone's amount is positive, and the approval
    /// timestamp is present exactly when the milestone is approved.
    pub open spec fn wf(self) -> bool {
        &&& self.amount > 0
        &&& (self.approved <==> self.approved_at is Some)
    }
}

impl Clone for Milestone {
    fn clone(&self) -> (r: Self)
        ensures
            r == *self,
    {
        Milestone {
            amount: self.amount,
            description: self.description.clone(),
            approved: self.approved,
            approved_at: self.approved_at,
        }
    }
}

/// The account a token movement draws from.
#[derive(Clone, Copy, Debug, PartialEq, Eq, Structural)]
pub enum TransferSource {
    /// A named account (milestone payouts draw from the grant's admin).
    Account(u64),
    /// The engine's own custodial balance (withdrawals draw from it).
    Custodial,
}

/// A token movement the host must perform after the engine has committed its
/// state — the checks-effects-interactions ordering leaves the actual ledger
/// call to the caller.
#[derive(Clone, Copy, Debug, PartialEq, Eq, Structural)]
pub struct TokenTransfer {
    pub token_address: u64,
    pub from: TransferSource,
    pub to: u64,
    pub amount: u128,
}

} // verus!
