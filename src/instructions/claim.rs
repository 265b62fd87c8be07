use vstd::prelude::*;

use crate::error::VestingError;
use crate::state::{Pubkey, VestingSchedule};

verus! {

/// What a claim acts on: the signing beneficiary, the asset presented, the
/// schedule record and the balance of its escrow.
#[derive(Clone, Copy, Debug)]
pub struct Claim {
    pub beneficiary: Pubkey,
    pub mint: Pubkey,
    pub vesting_schedule: VestingSchedule,
    pub vault_amount: u64,
}

/// The record of a successful claim.
#[derive(Clone, Copy, Debug, PartialEq, Eq)]
pub struct TokensClaimed {
    pub beneficiary: Pubkey,
    pub mint: Pubkey,
    pub amount: u64,
    pub total_claimed: u64,
    pub remaining: u64,
}

impl Claim {
    /// The schedule is well formed and the escrow holds at least what it owes.
    pub open spec fn wf(self) -> bool {
        &&& self.vesting_schedule.wf()
        &&& self.vault_amount >= self.vesting_schedule.outstanding()
    }

    /// The signer is the schedule's beneficiary and the asset is its asset.
    pub open spec fn authorized(self) -> bool {
        &&& self.beneficiary.bytes@ == self.vesting_schedule.beneficiary.bytes@
        &&& self.mint.bytes@ == self.vesting_schedule.mint.bytes@
    }
}

/// The error a claim at `now` ends with, checked in this order; `None` when it
/// succeeds.
pub open spec fn claim_error(ctx: Claim, now: int) -> Option<VestingError> {
    let s = ctx.vesting_schedule;
    if !ctx.authorized() {
        Some(VestingError::Unauthorized)
    } else if s.is_revoked {
        Some(VestingError::VestingRevoked)
    } else if now < s.cliff_end() {
        Some(VestingError::CliffNotReached)
    } else if s.vested_overflows(now) {
        Some(VestingError::CalculationOverflow)
    } else if s.claimable_at(now) == 0 {
        Some(VestingError::NothingToClaim)
    } else {
        None
    }
}

/// The accounts after a successful claim at `now`: the claimable amount leaves
/// the escrow and is added to the claimed total.
pub open spec fn claim_post(ctx: Claim, now: int) -> Claim {
    let s = ctx.vesting_schedule;
    let amount = s.claimable_at(now);
    Claim {
        vesting_schedule: VestingSchedule {
            claimed_amount: (s.claimed_amount + amount) as u64,
            ..s
        },
        vault_amount: (ctx.vault_amount - amount) as u64,
        ..ctx
    }
}

/// Releases to the beneficiary everything vested and not yet claimed at
/// `current_time`. On failure the accounts are left as they were.
pub fn handler(ctx: &mut Claim, current_time: i64) -> (r: Result<TokensClaimed, VestingError>)
    requires
        old(ctx).wf(),
    ensures
        final(ctx).wf(),
        match r {
            Ok(ev) => {
                &&& claim_error(*old(ctx), current_time as int) is None
                &&& *final(ctx) == claim_post(*old(ctx), current_time as int)
                &&& ev.beneficiary == old(ctx).beneficiary
                &&& ev.mint == old(ctx).mint
                &&& ev.amount == old(ctx).vesting_schedule.claimable_at(current_time as int)
                &&& ev.total_claimed == final(ctx).vesting_schedule.claimed_amount
                &&& ev.remaining == final(ctx).vesting_schedule.total_amount
                    - final(ctx).vesting_schedule.claimed_amount
            },
            Err(e) => {
                &&& claim_error(*old(ctx), current_time as int) == Some(e)
                &&& *final(ctx) == *old(ctx)
            },
        },
{
    if !ctx.beneficiary.equals(&ctx.vesting_schedule.beneficiary) || !ctx.mint.equals(
        &ctx.vesting_schedule.mint,
    ) {
        return Err(VestingError::Unauthorized);
    }
    if ctx.vesting_schedule.is_revoked {
        return Err(VestingError::VestingRevoked);
    }
    if !ctx.vesting_schedule.is_cliff_reached(current_time) {
        return Err(VestingError::CliffNotReached);
    }
    let claimable = ctx.vesting_schedule.calculate_claimable_amount(current_time)?;
    if claimable == 0 {
        return Err(VestingError::NothingToClaim);
    }
    // The escrow owes at least what has vested and was not yet claimed.
    proof {
        ctx.vesting_schedule.lemma_vested_bounds(current_time as int);
    }
    let new_claimed = match ctx.vesting_schedule.claimed_amount.checked_add(claimable) {
        Some(c) => c,
        None => return Err(VestingError::CalculationOverflow),
    };
    ctx.vault_amount = ctx.vault_amount - claimable;
    ctx.vesting_schedule.claimed_amount = new_claimed;
    Ok(
        TokensClaimed {
            beneficiary: ctx.beneficiary,
            mint: ctx.mint,
            amount: claimable,
            total_claimed: new_claimed,
            remaining: ctx.vesting_schedule.total_amount - new_claimed,
        },
    )
}

} // verus!
