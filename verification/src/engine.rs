//! The fund-release engine: grants, milestones, approvals and withdrawals.
//!
//! The engine owns the per-grant records and is pure state: callers hand it
//! plain values (the host authenticates identities before calling), and every
//! operation that pays out commits its state first and returns the
//! [`TokenTransfer`] the host must then perform — the
//! checks-effects-interactions ordering.

use std::collections::HashMap;

use vstd::map::*;
use vstd::prelude::*;

use crate::lifecycle::action_allowed_from;
use crate::lifecycle::action_target;
use crate::lifecycle::apply_action;
use crate::lifecycle::LifecycleAction;
use crate::records::Grant;
use crate::records::GrantError;
use crate::records::GrantStatus;
use crate::records::Milestone;
use crate::records::TokenTransfer;
use crate::records::TransferSource;

verus! {

broadcast use vstd::std_specs::hash::group_hash_axioms;

/// Packs a (grant, milestone) pair into the single integer the backing store
/// is keyed by.
spec fn mkey(grant_id: u64, milestone_id: u64) -> u128 {
    ((grant_id as u128) * 0x1_0000_0000_0000_0000 + (milestone_id as u128)) as u128
}

fn milestone_key(grant_id: u64, milestone_id: u64) -> (r: u128)
    ensures
        r == mkey(grant_id, milestone_id),
{
    (grant_id as u128) * 0x1_0000_0000_0000_0000 + (milestone_id as u128)
}

/// The composite-keyed reading of the raw milestone store.
spec fn pair_view(raw: Map<u128, Milestone>) -> Map<(u64, u64), Milestone> {
    Map::new(|p: (u64, u64)| raw.contains_key(mkey(p.0, p.1)), |p: (u64, u64)| raw[mkey(p.0, p.1)])
}

/// Inserting under a packed key is inserting under the pair: packing is
/// injective, so no other pair's entry moves.
proof fn lemma_pair_view_insert(raw: Map<u128, Milestone>, grant_id: u64, milestone_id: u64, ms: Milestone)
    ensures
        pair_view(raw.insert(mkey(grant_id, milestone_id), ms)) == pair_view(raw).insert(
            (grant_id, milestone_id),
            ms,
        ),
{
    let lhs = pair_view(raw.insert(mkey(grant_id, milestone_id), ms));
    let rhs = pair_view(raw).insert((grant_id, milestone_id), ms);
    assert_maps_equal!(lhs, rhs, p => {
        if p != (grant_id, milestone_id) {
            assert(mkey(p.0, p.1) != mkey(grant_id, milestone_id));
        }
    });
}

/// The milestone-gated fund-release engine. One value of this type holds
/// every grant and milestone record; the host is responsible for persisting
/// it and for serializing operations against it.
pub struct GrantContract {
    grants: HashMap<u64, Grant>,
    milestones: HashMap<u128, Milestone>,
}

/// A grant as it stands after a successful approval of `amount`: the release
/// grows by `amount`, and the grant completes exactly when the release
/// reaches the total.
pub open spec fn grant_after_approval(g0: Grant, amount: u128) -> Grant {
    (Grant {
        released_amount: (g0.released_amount + amount) as u128,
        status: if g0.released_amount + amount == g0.total_amount {
            GrantStatus::Completed
        } else {
            g0.status
        },
        ..g0
    })
}

/// A milestone as it stands after its approval at time `now`.
pub open spec fn milestone_after_approval(ms0: Milestone, now: u64) -> Milestone {
    (Milestone { approved: true, approved_at: Some(now), ..ms0 })
}

impl GrantContract {
    /// The grant records, by grant identifier.
    pub closed spec fn grant_map(&self) -> Map<u64, Grant> {
        self.grants@
    }

    /// The milestone records, by (grant, milestone) identifier pair.
    pub closed spec fn milestone_map(&self) -> Map<(u64, u64), Milestone> {
        pair_view(self.milestones@)
    }

    pub open spec fn has_grant(&self, grant_id: u64) -> bool {
        self.grant_map().contains_key(grant_id)
    }

    pub open spec fn grant_of(&self, grant_id: u64) -> Grant {
        self.grant_map()[grant_id]
    }

    pub open spec fn has_milestone(&self, grant_id: u64, milestone_id: u64) -> bool {
        self.milestone_map().contains_key((grant_id, milestone_id))
    }

    pub open spec fn milestone_of(&self, grant_id: u64, milestone_id: u64) -> Milestone {
        self.milestone_map()[(grant_id, milestone_id)]
    }

    /// The engine invariant: every stored record is well-formed — in
    /// particular, no grant's released amount ever exceeds its total.
    pub open spec fn wf(&self) -> bool {
        &&& (forall|g: u64| #[trigger] self.grant_map().contains_key(g) ==> self.grant_map()[g].wf())
        &&& (forall|p: (u64, u64)| #[trigger]
            self.milestone_map().contains_key(p) ==> self.milestone_map()[p].wf())
    }

    /// An empty engine: no grants, no milestones.
    pub fn new() -> (s: Self)
        ensures
            s.wf(),
            s.grant_map() == Map::<u64, Grant>::empty(),
            s.milestone_map() == Map::<(u64, u64), Milestone>::empty(),
    {
        let s = GrantContract { grants: HashMap::new(), milestones: HashMap::new() };
        proof {
            assert_maps_equal!(pair_view(s.milestones@), Map::<(u64, u64), Milestone>::empty());
        }
        s
    }

    /// Record a new grant of `total_amount` from `admin` to `grantee`,
    /// starting as `Proposed` with nothing released. A zero commitment is
    /// rejected; a repeated identifier overwrites the earlier record, as in a
    /// plain keyed store.
    ///
    /// The host authenticates `admin` (the caller) and supplies the creation
    /// time `now`.
    pub fn create_grant(
        &mut self,
        grant_id: u64,
        admin: u64,
        grantee: u64,
        total_amount: u128,
        token_address: u64,
        now: u64,
    ) -> (r: Result<(), GrantError>)
        requires
            old(self).wf(),
        ensures
            final(self).wf(),
            total_amount == 0 ==> r == Err::<(), GrantError>(GrantError::InvalidAmount)
                && final(self).grant_map() == old(self).grant_map() && final(self).milestone_map()
                == old(self).milestone_map(),
            total_amount > 0 ==> r == Ok::<(), GrantError>(()) && final(self).grant_map() == old(self).grant_map().insert(
                grant_id,
                (Grant {
                    admin,
                    grantee,
                    total_amount,
                    released_amount: 0,
                    token_address,
                    created_at: now,
                    status: GrantStatus::Proposed,
                }),
            ) && final(self).milestone_map() == old(self).milestone_map(),
    {
        if total_amount == 0 {
            return Err(GrantError::InvalidAmount);
        }
        let grant = Grant {
            admin,
            grantee,
            total_amount,
            released_amount: 0,
            token_address,
            created_at: now,
            status: GrantStatus::Proposed,
        };
        self.grants.insert(grant_id, grant);
        proof {
            assert forall|g: u64| #[trigger] self.grant_map().contains_key(g) implies self.grant_map()[g].wf() by {
                if g != grant_id {
                    assert(old(self).grant_map().contains_key(g));
                }
            }
            assert forall|p: (u64, u64)| #[trigger]
                self.milestone_map().contains_key(p) implies self.milestone_map()[p].wf() by {
                assert(old(self).milestone_map().contains_key(p));
            }
        }
        Ok(())
    }

    /// Exactly which error `add_milestone` returns, if any: the grant must
    /// exist, the caller must be its admin, and the amount must be positive.
    pub open spec fn add_milestone_check(&self, caller: u64, grant_id: u64, amount: u128) -> Result<
        (),
        GrantError,
    > {
        if !self.has_grant(grant_id) {
            Err(GrantError::GrantNotFound)
        } else if caller != self.grant_of(grant_id).admin {
            Err(GrantError::Unauthorized)
        } else if amount == 0 {
            Err(GrantError::InvalidAmount)
        } else {
            Ok(())
        }
    }

    /// Record a milestone of `amount` under `(grant_id, milestone_id)`,
    /// unapproved. Cumulative milestone amounts are deliberately not checked
    /// against the grant's total here — only approval enforces the ceiling.
    pub fn add_milestone(
        &mut self,
        caller: u64,
        grant_id: u64,
        milestone_id: u64,
        amount: u128,
        description: String,
    ) -> (r: Result<(), GrantError>)
        requires
            old(self).wf(),
        ensures
            final(self).wf(),
            match old(self).add_milestone_check(caller, grant_id, amount) {
                Result::Err(e) => r == Err::<(), GrantError>(e) && final(self).grant_map() == old(self).grant_map() && final(self).milestone_map() == old(self).milestone_map(),
                Result::Ok(_) => r == Ok::<(), GrantError>(()) && final(self).grant_map() == old(self).grant_map() && final(self).milestone_map() == old(self).milestone_map().insert(
                    (grant_id, milestone_id),
                    (Milestone { amount, description, approved: false, approved_at: None }),
                ),
            },
    {
        let grant: Grant = match self.grants.get(&grant_id) {
            Some(g) => *g,
            None => {
                return Err(GrantError::GrantNotFound);
            },
        };
        if caller != grant.admin {
            return Err(GrantError::Unauthorized);
        }
        if amount == 0 {
            return Err(GrantError::InvalidAmount);
        }
        let ms = Milestone { amount, description, approved: false, approved_at: None };
        let ghost msv = ms;
        let key: u128 = milestone_key(grant_id, milestone_id);
        self.milestones.insert(key, ms);
        proof {
            lemma_pair_view_insert(old(self).milestones@, grant_id, milestone_id, msv);
            assert forall|p: (u64, u64)| #[trigger]
                self.milestone_map().contains_key(p) implies self.milestone_map()[p].wf() by {
                if p != (grant_id, milestone_id) {
                    assert(old(self).milestone_map().contains_key(p));
                }
            }
        }
        Ok(())
    }

    /// Exactly which error `approve_milestone` returns, if any. The final
    /// test covers both the overflow of the running sum and the commitment
    /// ceiling: in either case the new release would pass the total.
    pub open spec fn approve_check(&self, caller: u64, grant_id: u64, milestone_id: u64) -> Result<
        (),
        GrantError,
    > {
        if !self.has_grant(grant_id) {
            Err(GrantError::GrantNotFound)
        } else if caller != self.grant_of(grant_id).admin {
            Err(GrantError::Unauthorized)
        } else if !self.has_milestone(grant_id, milestone_id) {
            Err(GrantError::MilestoneNotFound)
        } else if self.milestone_of(grant_id, milestone_id).approved {
            Err(GrantError::AlreadyApproved)
        } else if self.grant_of(grant_id).released_amount + self.milestone_of(
            grant_id,
            milestone_id,
        ).amount > self.grant_of(grant_id).total_amount {
            Err(GrantError::ExceedsTotalAmount)
        } else {
            Ok(())
        }
    }

    /// Approve a milestone: mark it approved at time `now`, grow the grant's
    /// released amount by the milestone's amount — completing the grant when
    /// the release reaches the total — and return the payout the host must
    /// perform, from the admin to the grantee. State is committed before the
    /// transfer is handed out; a repeated approval fails rather than paying
    /// twice.
    pub fn approve_milestone(&mut self, caller: u64, grant_id: u64, milestone_id: u64, now: u64) -> (r:
        Result<TokenTransfer, GrantError>)
        requires
            old(self).wf(),
        ensures
            final(self).wf(),
            match old(self).approve_check(caller, grant_id, milestone_id) {
                Result::Err(e) => r == Err::<TokenTransfer, GrantError>(e) && final(self).grant_map() == old(self).grant_map() && final(self).milestone_map() == old(self).milestone_map(),
                Result::Ok(_) => {
                    let g0 = old(self).grant_of(grant_id);
                    let ms0 = old(self).milestone_of(grant_id, milestone_id);
                    &&& r == Ok::<TokenTransfer, GrantError>(
                        (TokenTransfer {
                            token_address: g0.token_address,
                            from: TransferSource::Account(g0.admin),
                            to: g0.grantee,
                            amount: ms0.amount,
                        }),
                    )
                    &&& final(self).grant_map() == old(self).grant_map().insert(
                        grant_id,
                        grant_after_approval(g0, ms0.amount),
                    )
                    &&& final(self).milestone_map() == old(self).milestone_map().insert(
                        (grant_id, milestone_id),
                        milestone_after_approval(ms0, now),
                    )
                },
            },
    {
        let grant: Grant = match self.grants.get(&grant_id) {
            Some(g) => *g,
            None => {
                return Err(GrantError::GrantNotFound);
            },
        };
        if caller != grant.admin {
            return Err(GrantError::Unauthorized);
        }
        let key: u128 = milestone_key(grant_id, milestone_id);
        let milestone: Milestone = match self.milestones.get(&key) {
            Some(m) => m.clone(),
            None => {
                return Err(GrantError::MilestoneNotFound);
            },
        };
        if milestone.approved {
            return Err(GrantError::AlreadyApproved);
        }
        let new_released: u128 = match grant.released_amount.checked_add(milestone.amount) {
            Some(v) => v,
            None => {
                return Err(GrantError::ExceedsTotalAmount);
            },
        };
        if new_released > grant.total_amount {
            return Err(GrantError::ExceedsTotalAmount);
        }

        let payout_amount: u128 = milestone.amount;
        let updated_milestone = Milestone {
            amount: milestone.amount,
            description: milestone.description,
            approved: true,
            approved_at: Some(now),
        };
        let updated_grant = Grant {
            released_amount: new_released,
            status: if new_released == grant.total_amount {
                GrantStatus::Completed
            } else {
                grant.status
            },
            ..grant
        };
        let ghost msv = updated_milestone;
        self.milestones.insert(key, updated_milestone);
        self.grants.insert(grant_id, updated_grant);
        proof {
            lemma_pair_view_insert(old(self).milestones@, grant_id, milestone_id, msv);
        }
        Ok(
            TokenTransfer {
                token_address: grant.token_address,
                from: TransferSource::Account(grant.admin),
                to: grant.grantee,
                amount: payout_amount,
            },
        )
    }

    /// Exactly which error `withdraw` returns, if any: the grant must exist,
    /// the caller must be its grantee, and the amount must be positive and
    /// within the released (withdrawable) balance.
    pub open spec fn withdraw_check(&self, caller: u64, grant_id: u64, amount: u128) -> Result<
        (),
        GrantError,
    > {
        if !self.has_grant(grant_id) {
            Err(GrantError::GrantNotFound)
        } else if caller != self.grant_of(grant_id).grantee {
            Err(GrantError::Unauthorized)
        } else if amount == 0 || amount > self.grant_of(grant_id).released_amount {
            Err(GrantError::InvalidAmount)
        } else {
            Ok(())
        }
    }

    /// Withdraw `amount` of the already-released balance: the released amount
    /// shrinks by exactly what is paid out, and the returned transfer draws
    /// on the engine's custodial balance. State is committed before the
    /// transfer is handed out.
    pub fn withdraw(&mut self, caller: u64, grant_id: u64, amount: u128) -> (r: Result<
        TokenTransfer,
        GrantError,
    >)
        requires
            old(self).wf(),
        ensures
            final(self).wf(),
            match old(self).withdraw_check(caller, grant_id, amount) {
                Result::Err(e) => r == Err::<TokenTransfer, GrantError>(e) && final(self).grant_map() == old(self).grant_map() && final(self).milestone_map() == old(self).milestone_map(),
                Result::Ok(_) => {
                    let g0 = old(self).grant_of(grant_id);
                    &&& r == Ok::<TokenTransfer, GrantError>(
                        (TokenTransfer {
                            token_address: g0.token_address,
                            from: TransferSource::Custodial,
                            to: g0.grantee,
                            amount,
                        }),
                    )
                    &&& final(self).grant_map() == old(self).grant_map().insert(
                        grant_id,
                        (Grant { released_amount: (g0.released_amount - amount) as u128, ..g0 }),
                    )
                    &&& final(self).milestone_map() == old(self).milestone_map()
                },
            },
    {
        let grant: Grant = match self.grants.get(&grant_id) {
            Some(g) => *g,
            None => {
                return Err(GrantError::GrantNotFound);
            },
        };
        if caller != grant.grantee {
            return Err(GrantError::Unauthorized);
        }
        if amount == 0 {
            return Err(GrantError::InvalidAmount);
        }
        if amount > grant.released_amount {
            return Err(GrantError::InvalidAmount);
        }
        let updated_grant = Grant { released_amount: grant.released_amount - amount, ..grant };
        self.grants.insert(grant_id, updated_grant);
        proof {
            assert forall|g: u64| #[trigger] self.grant_map().contains_key(g) implies self.grant_map()[g].wf() by {
                if g != grant_id {
                    assert(old(self).grant_map().contains_key(g));
                }
            }
            assert forall|p: (u64, u64)| #[trigger]
                self.milestone_map().contains_key(p) implies self.milestone_map()[p].wf() by {
                assert(old(self).milestone_map().contains_key(p));
            }
        }
        Ok(
            TokenTransfer {
                token_address: grant.token_address,
                from: TransferSource::Custodial,
                to: grant.grantee,
                amount,
            },
        )
    }

    /// Exactly which error a lifecycle request returns, if any: the grant
    /// must exist, the caller must be its admin, and the grant's status must
    /// allow the action.
    pub open spec fn lifecycle_check(&self, caller: u64, grant_id: u64, action: LifecycleAction) -> Result<
        (),
        GrantError,
    > {
        if !self.has_grant(grant_id) {
            Err(GrantError::GrantNotFound)
        } else if caller != self.grant_of(grant_id).admin {
            Err(GrantError::Unauthorized)
        } else if !action_allowed_from(action, self.grant_of(grant_id).status) {
            Err(GrantError::InvalidStatus)
        } else {
            Ok(())
        }
    }

    /// What every lifecycle request guarantees: on failure nothing changes;
    /// on success only the one grant's status moves, to the action's target.
    pub open spec fn lifecycle_post(
        pre: GrantContract,
        post: GrantContract,
        caller: u64,
        grant_id: u64,
        action: LifecycleAction,
        r: Result<(), GrantError>,
    ) -> bool {
        match pre.lifecycle_check(caller, grant_id, action) {
            Result::Err(e) => r == Err::<(), GrantError>(e) && post.grant_map() == pre.grant_map()
                && post.milestone_map() == pre.milestone_map(),
            Result::Ok(_) => r == Ok::<(), GrantError>(()) && post.grant_map()
                == pre.grant_map().insert(
                grant_id,
                (Grant { status: action_target(action), ..pre.grant_of(grant_id) }),
            ) && post.milestone_map() == pre.milestone_map(),
        }
    }

    /// Shared body of the four lifecycle operations.
    fn lifecycle_request(&mut self, caller: u64, grant_id: u64, action: LifecycleAction) -> (r:
        Result<(), GrantError>)
        requires
            old(self).wf(),
        ensures
            final(self).wf(),
            Self::lifecycle_post(*old(self), *final(self), caller, grant_id, action, r),
    {
        let grant: Grant = match self.grants.get(&grant_id) {
            Some(g) => *g,
            None => {
                return Err(GrantError::GrantNotFound);
            },
        };
        if caller != grant.admin {
            return Err(GrantError::Unauthorized);
        }
        let next_status: GrantStatus = match apply_action(grant.status, action) {
            Ok(s) => s,
            Err(e) => {
                return Err(e);
            },
        };
        let updated_grant = Grant { status: next_status, ..grant };
        self.grants.insert(grant_id, updated_grant);
        proof {
            assert forall|g: u64| #[trigger] self.grant_map().contains_key(g) implies self.grant_map()[g].wf() by {
                if g != grant_id {
                    assert(old(self).grant_map().contains_key(g));
                }
            }
            assert forall|p: (u64, u64)| #[trigger]
                self.milestone_map().contains_key(p) implies self.milestone_map()[p].wf() by {
                assert(old(self).milestone_map().contains_key(p));
            }
        }
        Ok(())
    }

    /// Activate a proposed grant. Fails with `InvalidStatus` from any other
    /// state.
    pub fn activate_grant(&mut self, caller: u64, grant_id: u64) -> (r: Result<(), GrantError>)
        requires
            old(self).wf(),
        ensures
            final(self).wf(),
            Self::lifecycle_post(
                *old(self),
                *final(self),
                caller,
                grant_id,
                LifecycleAction::Activate,
                r,
            ),
    {
        self.lifecycle_request(caller, grant_id, LifecycleAction::Activate)
    }

    /// Pause an active grant. Fails with `InvalidStatus` from any other
    /// state.
    pub fn pause_grant(&mut self, caller: u64, grant_id: u64) -> (r: Result<(), GrantError>)
        requires
            old(self).wf(),
        ensures
            final(self).wf(),
            Self::lifecycle_post(
                *old(self),
                *final(self),
                caller,
                grant_id,
                LifecycleAction::Pause,
                r,
            ),
    {
        self.lifecycle_request(caller, grant_id, LifecycleAction::Pause)
    }

    /// Resume a paused grant. Fails with `InvalidStatus` from any other
    /// state.
    pub fn resume_grant(&mut self, caller: u64, grant_id: u64) -> (r: Result<(), GrantError>)
        requires
            old(self).wf(),
        ensures
            final(self).wf(),
            Self::lifecycle_post(
                *old(self),
                *final(self),
                caller,
                grant_id,
                LifecycleAction::Resume,
                r,
            ),
    {
        self.lifecycle_request(caller, grant_id, LifecycleAction::Resume)
    }

    /// Cancel a proposed or paused grant. Fails with `InvalidStatus` from any
    /// other state.
    pub fn cancel_grant(&mut self, caller: u64, grant_id: u64) -> (r: Result<(), GrantError>)
        requires
            old(self).wf(),
        ensures
            final(self).wf(),
            Self::lifecycle_post(
                *old(self),
                *final(self),
                caller,
                grant_id,
                LifecycleAction::Cancel,
                r,
            ),
    {
        self.lifecycle_request(caller, grant_id, LifecycleAction::Cancel)
    }

    /// Look up a grant record.
    pub fn get_grant(&self, grant_id: u64) -> (r: Result<Grant, GrantError>)
        ensures
            self.has_grant(grant_id) ==> r == Ok::<Grant, GrantError>(self.grant_of(grant_id)),
            !self.has_grant(grant_id) ==> r == Err::<Grant, GrantError>(GrantError::GrantNotFound),
    {
        match self.grants.get(&grant_id) {
            Some(g) => Ok(*g),
            None => Err(GrantError::GrantNotFound),
        }
    }

    /// The portion of a grant's commitment not yet released.
    pub fn get_remaining_amount(&self, grant_id: u64) -> (r: Result<u128, GrantError>)
        requires
            self.wf(),
        ensures
            self.has_grant(grant_id) ==> r == Ok::<u128, GrantError>(
                self.grant_of(grant_id).remaining() as u128,
            ),
            !self.has_grant(grant_id) ==> r == Err::<u128, GrantError>(GrantError::GrantNotFound),
    {
        let grant: Grant = match self.grants.get(&grant_id) {
            Some(g) => *g,
            None => {
                return Err(GrantError::GrantNotFound);
            },
        };
        Ok(grant.total_amount.saturating_sub(grant.released_amount))
    }

    /// Look up a milestone record. Lets a host that persists records
    /// elsewhere read back what an operation changed.
    pub fn get_milestone(&self, grant_id: u64, milestone_id: u64) -> (r: Result<
        Milestone,
        GrantError,
    >)
        ensures
            self.has_milestone(grant_id, milestone_id) ==> r == Ok::<Milestone, GrantError>(
                self.milestone_of(grant_id, milestone_id),
            ),
            !self.has_milestone(grant_id, milestone_id) ==> r == Err::<Milestone, GrantError>(
                GrantError::MilestoneNotFound,
            ),
    {
        let key: u128 = milestone_key(grant_id, milestone_id);
        match self.milestones.get(&key) {
            Some(m) => Ok(m.clone()),
            None => Err(GrantError::MilestoneNotFound),
        }
    }

    /// Place a well-formed grant record under `grant_id`, overwriting any
    /// earlier one. Lets a host that persists records elsewhere reload them
    /// before running an operation.
    pub fn restore_grant(&mut self, grant_id: u64, grant: Grant)
        requires
            old(self).wf(),
            grant.wf(),
        ensures
            final(self).wf(),
            final(self).grant_map() == old(self).grant_map().insert(grant_id, grant),
            final(self).milestone_map() == old(self).milestone_map(),
    {
        self.grants.insert(grant_id, grant);
        proof {
            assert forall|g: u64| #[trigger] self.grant_map().contains_key(g) implies self.grant_map()[g].wf() by {
                if g != grant_id {
                    assert(old(self).grant_map().contains_key(g));
                }
            }
            assert forall|p: (u64, u64)| #[trigger]
                self.milestone_map().contains_key(p) implies self.milestone_map()[p].wf() by {
                assert(old(self).milestone_map().contains_key(p));
            }
        }
    }

    /// Place a well-formed milestone record under `(grant_id, milestone_id)`,
    /// overwriting any earlier one — the reloading counterpart of
    /// `get_milestone`.
    pub fn restore_milestone(&mut self, grant_id: u64, milestone_id: u64, milestone: Milestone)
        requires
            old(self).wf(),
            milestone.wf(),
        ensures
            final(self).wf(),
            final(self).grant_map() == old(self).grant_map(),
            final(self).milestone_map() == old(self).milestone_map().insert(
                (grant_id, milestone_id),
                milestone,
            ),
    {
        let ghost msv = milestone;
        let key: u128 = milestone_key(grant_id, milestone_id);
        self.milestones.insert(key, milestone);
        proof {
            lemma_pair_view_insert(old(self).milestones@, grant_id, milestone_id, msv);
            assert forall|g: u64| #[trigger] self.grant_map().contains_key(g) implies self.grant_map()[g].wf() by {
                assert(old(self).grant_map().contains_key(g));
            }
            assert forall|p: (u64, u64)| #[trigger]
                self.milestone_map().contains_key(p) implies self.milestone_map()[p].wf() by {
                if p != (grant_id, milestone_id) {
                    assert(old(self).milestone_map().contains_key(p));
                }
            }
        }
    }
}

} // verus!
