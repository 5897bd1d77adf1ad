//! Linear vesting: the time-proportional share of a total that has unlocked
//! between a start time and the end of a duration.
//!
//! The executable calculator avoids a 256-bit intermediate by splitting
//! `total * elapsed / duration` into
//! `(total / duration) * elapsed + (total % duration) * elapsed / duration`;
//! the proofs here show the split equals the plain quotient and stays within
//! `total`, so the guarded multiplications can in fact never overflow.

use vstd::arithmetic::div_mod::lemma_div_by_multiple;
use vstd::arithmetic::div_mod::lemma_div_is_ordered;
use vstd::arithmetic::div_mod::lemma_div_pos_is_pos;
use vstd::arithmetic::div_mod::lemma_fundamental_div_mod;
use vstd::arithmetic::div_mod::lemma_hoist_over_denominator;
use vstd::arithmetic::mul::lemma_mul_inequality;
use vstd::arithmetic::mul::lemma_mul_is_associative;
use vstd::arithmetic::mul::lemma_mul_is_commutative;
use vstd::arithmetic::mul::lemma_mul_is_distributive_add_other_way;
use vstd::arithmetic::mul::lemma_mul_nonnegative;
use vstd::prelude::*;

verus! {

/// The amount claimable at `now` under linear vesting of `total` between
/// `start` and `start + duration`: zero before (or at) `start`, all of
/// `total` once `duration` has elapsed — immediately when `duration` is zero
/// — and otherwise the elapsed-time share, written exactly as the calculator
/// computes it.
pub open spec fn claimable_spec(total: u128, start: u64, now: u64, duration: u64) -> int {
    if duration == 0 {
        if now >= start {
            total as int
        } else {
            0
        }
    } else if now <= start {
        0
    } else if now - start >= duration {
        total as int
    } else {
        let elapsed = now - start;
        (total as int / duration as int) * elapsed + ((total as int % duration as int) * elapsed)
            / duration as int
    }
}

/// The arithmetic core: for `0 < e < d`, splitting `t * e / d` over the
/// quotient and remainder of `t / d` loses nothing, both summands are
/// nonnegative, and the result never exceeds `t`.
proof fn lemma_split_division(t: int, e: int, d: int)
    requires
        0 <= t,
        0 < e,
        e < d,
    ensures
        (t / d) * e + ((t % d) * e) / d == (t * e) / d,
        0 <= (t / d) * e,
        0 <= ((t % d) * e) / d,
        (t * e) / d <= t,
{
    let w = t / d;
    let r = t % d;
    lemma_fundamental_div_mod(t, d);
    assert((d * w + r) * e == (d * w) * e + r * e) by {
        lemma_mul_is_distributive_add_other_way(e, d * w, r);
    }
    assert((d * w) * e == d * (w * e)) by {
        lemma_mul_is_associative(d, w, e);
    }
    assert((r * e) / d + w * e == (r * e + (w * e) * d) / d) by {
        lemma_hoist_over_denominator(r * e, w * e, d as nat);
    }
    assert((w * e) * d == d * (w * e)) by {
        lemma_mul_is_commutative(w * e, d);
    }
    assert(w * e + (r * e) / d == (t * e) / d);
    lemma_mul_nonnegative(w, e);
    lemma_mul_nonnegative(r, e);
    lemma_div_pos_is_pos(r * e, d);
    assert(e * t <= d * t) by {
        lemma_mul_inequality(e, d, t);
    }
    assert(e * t == t * e) by {
        lemma_mul_is_commutative(e, t);
    }
    assert(d * t == t * d) by {
        lemma_mul_is_commutative(d, t);
    }
    lemma_div_is_ordered(t * e, t * d, d);
    assert((t * d) / d == t) by {
        lemma_div_by_multiple(t, d);
    }
}

/// In the strictly-partial window the claimable amount is exactly the
/// floored proportion `total * elapsed / duration`.
pub proof fn lemma_claimable_is_proportional(total: u128, start: u64, now: u64, duration: u64)
    requires
        0 < duration,
        start < now,
        now - start < duration,
    ensures
        claimable_spec(total, start, now, duration) == ((total as int) * (now - start)) / (
        duration as int),
{
    lemma_split_division(total as int, now - start, duration as int);
}

/// The claimable amount is clamped: whatever the inputs, it lies between
/// zero and `total`.
pub proof fn lemma_claimable_within_total(total: u128, start: u64, now: u64, duration: u64)
    ensures
        0 <= claimable_spec(total, start, now, duration) <= total,
{
    if duration > 0 && start < now && now - start < duration {
        lemma_split_division(total as int, now - start, duration as int);
    }
}

/// Compute the claimable balance for a linear vesting grant.
///
/// The quotient/remainder split keeps every intermediate product within 128
/// bits; the guarded multiplications fall back to the conservative full
/// payout, and the proofs above show that this fallback is unreachable.
pub fn compute_claimable_balance(total: u128, start: u64, now: u64, duration: u64) -> (r: u128)
    ensures
        r == claimable_spec(total, start, now, duration),
        r <= total,
{
    if duration == 0 {
        return if now >= start {
            total
        } else {
            0
        };
    }
    if now <= start {
        return 0;
    }
    let elapsed: u64 = now - start;
    if elapsed >= duration {
        return total;
    }

    let dur: u128 = duration as u128;
    let el: u128 = elapsed as u128;
    let whole: u128 = total / dur;
    let rem: u128 = total % dur;

    proof {
        lemma_split_division(total as int, el as int, dur as int);
        assert((rem as int) * (el as int) < 0x1_0000_0000_0000_0000_0000_0000_0000_0000)
            by (nonlinear_arith)
            requires
                (rem as int) < 0x1_0000_0000_0000_0000,
                (el as int) < 0x1_0000_0000_0000_0000,
                0 <= rem as int,
                0 <= el as int,
        ;
    }

    let part1: u128 = match whole.checked_mul(el) {
        Some(v) => v,
        None => {
            return total;
        },
    };
    let part2: u128 = match rem.checked_mul(el) {
        Some(v) => v / dur,
        None => {
            return total;
        },
    };
    part1 + part2
}

} // verus!
