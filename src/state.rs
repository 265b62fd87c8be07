use vstd::prelude::*;

use crate::error::VestingError;
use vstd::arithmetic::div_mod::{lemma_div_is_ordered, lemma_div_multiples_vanish};
use vstd::arithmetic::mul::{lemma_mul_inequality, lemma_mul_nonnegative};

verus! {

/// A 32-byte account identity.
#[derive(Clone, Copy, Debug, PartialEq, Eq)]
pub struct Pubkey {
    pub bytes: [u8; 32],
}

impl Pubkey {
    /// Whether two identities are the same bytes.
    pub fn equals(&self, other: &Pubkey) -> (r: bool)
        ensures
            r == (self.bytes@ == other.bytes@),
    {
        let mut i: usize = 0;
        while i < 32
            invariant
                0 <= i <= 32,
                self.bytes@.len() == 32,
                other.bytes@.len() == 32,
                forall|j: int| 0 <= j < i ==> self.bytes@[j] == other.bytes@[j],
            decreases 32 - i,
        {
            if self.bytes[i] != other.bytes[i] {
                return false;
            }
            i = i + 1;
        }
        assert(self.bytes@ =~= other.bytes@);
        true
    }
}

/// The record that governs how one committed amount unlocks for one beneficiary.
#[derive(Clone, Copy, Debug)]
pub struct VestingSchedule {
    pub admin: Pubkey,
    pub beneficiary: Pubkey,
    pub mint: Pubkey,
    pub total_amount: u64,
    pub claimed_amount: u64,
    pub start_time: i64,
    pub cliff_duration: i64,
    pub vesting_duration: i64,
    pub is_revoked: bool,
    pub revoked_amount: u64,
    pub bump: u8,
    pub vault_bump: u8,
}

/// `a - b`, floored at zero.
pub open spec fn sat_sub(a: int, b: int) -> int {
    if a >= b { a - b } else { 0 }
}

/// Whether `x` fits in an `i64`.
pub open spec fn in_i64(x: int) -> bool {
    i64::MIN <= x <= i64::MAX
}

/// A floored linear share `total * elapsed / duration` lies between zero and
/// `total` while `elapsed` does not pass `duration`.
pub proof fn lemma_linear_share_bounds(total: int, elapsed: int, duration: int)
    requires
        total >= 0,
        0 <= elapsed <= duration,
        duration > 0,
    ensures
        0 <= total * elapsed / duration <= total,
{
    lemma_mul_inequality(elapsed, duration, total);
    lemma_mul_nonnegative(total, elapsed);
    lemma_div_is_ordered(total * elapsed, total * duration, duration);
    lemma_div_is_ordered(0, total * elapsed, duration);
    lemma_div_multiples_vanish(total, duration);
    assert(elapsed * total == total * elapsed) by (nonlinear_arith);
    assert(duration * total == total * duration) by (nonlinear_arith);
}

/// A floored linear share grows with the elapsed time.
pub proof fn lemma_linear_share_monotonic(total: int, e1: int, e2: int, duration: int)
    requires
        total >= 0,
        0 <= e1 <= e2,
        duration > 0,
    ensures
        total * e1 / duration <= total * e2 / duration,
{
    lemma_mul_inequality(e1, e2, total);
    assert(e1 * total == total * e1) by (nonlinear_arith);
    assert(e2 * total == total * e2) by (nonlinear_arith);
    lemma_div_is_ordered(total * e1, total * e2, duration);
}

impl VestingSchedule {
    /// The moment the cliff ends, in unbounded arithmetic.
    pub open spec fn cliff_end(self) -> int {
        self.start_time + self.cliff_duration
    }

    /// The moment vesting completes, in unbounded arithmetic.
    pub open spec fn vesting_end(self) -> int {
        self.start_time + self.vesting_duration
    }

    /// The amount vested at time `t`: frozen after revocation, nothing before the
    /// cliff, everything from the end on, and a floored linear share in between.
    pub open spec fn vested_at(self, t: int) -> int {
        if self.is_revoked {
            sat_sub(self.total_amount as int, self.revoked_amount as int)
        } else if t < self.cliff_end() {
            0
        } else if t >= self.vesting_end() {
            self.total_amount as int
        } else {
            (self.total_amount as int) * (t - self.start_time) / (self.vesting_duration as int)
        }
    }

    /// Whether computing the vested amount at `t` needs a boundary timestamp that
    /// does not fit in an `i64`.
    pub open spec fn vested_overflows(self, t: int) -> bool {
        !self.is_revoked && (!in_i64(self.cliff_end()) || (t >= self.cliff_end()
            && !in_i64(self.vesting_end())))
    }

    /// The amount the beneficiary may still take at time `t`.
    pub open spec fn claimable_at(self, t: int) -> int {
        sat_sub(self.vested_at(t), self.claimed_amount as int)
    }

    /// The amount not yet vested at time `t`.
    pub open spec fn unvested_at(self, t: int) -> int {
        sat_sub(self.total_amount as int, self.vested_at(t))
    }

    /// The invariants of a schedule record for its whole lifetime.
    pub open spec fn wf(self) -> bool {
        &&& self.total_amount > 0
        &&& self.claimed_amount <= self.total_amount
        &&& 0 <= self.cliff_duration <= self.vesting_duration
        &&& self.vesting_duration > 0
        &&& self.is_revoked ==> self.claimed_amount + self.revoked_amount <= self.total_amount
        &&& !self.is_revoked ==> self.revoked_amount == 0
    }

    /// The part of the total that the escrow still owes: to the beneficiary, and
    /// before revocation also to the admin.
    pub open spec fn outstanding(self) -> int {
        self.total_amount - self.claimed_amount - (if self.is_revoked {
            self.revoked_amount as int
        } else {
            0
        })
    }

    /// A well-formed schedule never has less than nothing nor more than its total
    /// vested.
    pub proof fn lemma_vested_bounds(self, t: int)
        requires
            self.wf(),
        ensures
            0 <= self.vested_at(t) <= self.total_amount,
    {
        if !self.is_revoked && self.cliff_end() <= t < self.vesting_end() {
            lemma_linear_share_bounds(
                self.total_amount as int,
                t - self.start_time,
                self.vesting_duration as int,
            );
        }
    }

    /// The vested amount at `current_time`; fails only when a boundary timestamp
    /// overflows.
    pub fn calculate_vested_amount(&self, current_time: i64) -> (r: Result<u64, VestingError>)
        requires
            self.cliff_duration >= 0,
        ensures
            match r {
                Ok(v) => !self.vested_overflows(current_time as int) && v as int
                    == self.vested_at(current_time as int),
                Err(e) => self.vested_overflows(current_time as int) && e
                    == VestingError::CalculationOverflow,
            },
    {
        if self.is_revoked {
            return Ok(self.total_amount.saturating_sub(self.revoked_amount));
        }
        let cliff_end = match self.start_time.checked_add(self.cliff_duration) {
            Some(c) => c,
            None => return Err(VestingError::CalculationOverflow),
        };
        if current_time < cliff_end {
            return Ok(0);
        }
        let vesting_end = match self.start_time.checked_add(self.vesting_duration) {
            Some(v) => v,
            None => return Err(VestingError::CalculationOverflow),
        };
        if current_time >= vesting_end {
            return Ok(self.total_amount);
        }
        // Here start + cliff <= current_time < start + duration, so the elapsed
        // time lies in [cliff, duration) and the duration is positive.
        let elapsed = (current_time - self.start_time) as u128;
        let duration = self.vesting_duration as u128;
        let total = self.total_amount as u128;
        proof {
            assert(total * elapsed <= u64::MAX as int * i64::MAX as int) by (nonlinear_arith)
                requires
                    total <= u64::MAX,
                    elapsed <= i64::MAX,
            ;
        }
        let product = total * elapsed;
        let vested = product / duration;
        proof {
            lemma_linear_share_bounds(total as int, elapsed as int, duration as int);
        }
        Ok(vested as u64)
    }

    /// The vested amount at `current_time` less what was already claimed,
    /// floored at zero.
    pub fn calculate_claimable_amount(&self, current_time: i64) -> (r: Result<u64, VestingError>)
        requires
            self.cliff_duration >= 0,
        ensures
            match r {
                Ok(v) => !self.vested_overflows(current_time as int) && v as int
                    == self.claimable_at(current_time as int),
                Err(e) => self.vested_overflows(current_time as int) && e
                    == VestingError::CalculationOverflow,
            },
    {
        let vested = self.calculate_vested_amount(current_time)?;
        Ok(vested.saturating_sub(self.claimed_amount))
    }

    /// The total amount less the vested amount at `current_time`, floored at zero.
    pub fn calculate_unvested_amount(&self, current_time: i64) -> (r: Result<u64, VestingError>)
        requires
            self.cliff_duration >= 0,
        ensures
            match r {
                Ok(v) => !self.vested_overflows(current_time as int) && v as int
                    == self.unvested_at(current_time as int),
                Err(e) => self.vested_overflows(current_time as int) && e
                    == VestingError::CalculationOverflow,
            },
    {
        let vested = self.calculate_vested_amount(current_time)?;
        Ok(self.total_amount.saturating_sub(vested))
    }

    /// Whether the cliff has ended at `current_time`.
    pub fn is_cliff_reached(&self, current_time: i64) -> (r: bool)
        ensures
            r == (current_time >= self.cliff_end()),
    {
        current_time as i128 >= self.start_time as i128 + self.cliff_duration as i128
    }

    /// Whether vesting has completed at `current_time`.
    pub fn is_fully_vested(&self, current_time: i64) -> (r: bool)
        ensures
            r == (current_time >= self.vesting_end()),
    {
        current_time as i128 >= self.start_time as i128 + self.vesting_duration as i128
    }
}

} // verus!
