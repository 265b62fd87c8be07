use vstd::prelude::*;

use crate::error::VestingError;
use crate::state::{Pubkey, VestingSchedule};

verus! {

/// What a revocation acts on: the signing admin, the asset presented, the
/// schedule record and the balance of its escrow.
#[derive(Clone, Copy, Debug)]
pub struct Revoke {
    pub admin: Pubkey,
    pub mint: Pubkey,
    pub vesting_schedule: VestingSchedule,
    pub vault_amount: u64,
}

/// The record of a successful revocation.
#[derive(Clone, Copy, Debug, PartialEq, Eq)]
pub struct VestingRevoked {
    pub admin: Pubkey,
    pub beneficiary: Pubkey,
    pub mint: Pubkey,
    pub unvested_amount: u64,
    pub vested_amount: u64,
}

impl Revoke {
    /// The schedule is well formed and the escrow holds at least what it owes.
    pub open spec fn wf(self) -> bool {
        &&& self.vesting_schedule.wf()
        &&& self.vault_amount >= self.vesting_schedule.outstanding()
    }

    /// The signer is the schedule's admin and the asset is its asset.
    pub open spec fn authorized(self) -> bool {
        &&& self.admin.bytes@ == self.vesting_schedule.admin.bytes@
        &&& self.mint.bytes@ == self.vesting_schedule.mint.bytes@
    }
}

/// The error a revocation at `now` ends with, checked in this order; `None` when
/// it succeeds.
pub open spec fn revoke_error(ctx: Revoke, now: int) -> Option<VestingError> {
    let s = ctx.vesting_schedule;
    if !ctx.authorized() {
        Some(VestingError::Unauthorized)
    } else if s.is_revoked {
        Some(VestingError::VestingRevoked)
    } else if now >= s.vesting_end() {
        Some(VestingError::VestingCompleted)
    } else if s.vested_overflows(now) {
        Some(VestingError::CalculationOverflow)
    } else {
        None
    }
}

/// The accounts after a successful revocation at `now`: the unvested amount
/// leaves the escrow, and the schedule is frozen with that amount recorded.
pub open spec fn revoke_post(ctx: Revoke, now: int) -> Revoke {
    let s = ctx.vesting_schedule;
    let unvested = s.unvested_at(now);
    Revoke {
        vesting_schedule: VestingSchedule {
            is_revoked: true,
            revoked_amount: unvested as u64,
            ..s
        },
        vault_amount: (ctx.vault_amount - unvested) as u64,
        ..ctx
    }
}

/// Returns to the admin everything not vested at `current_time` and freezes the
/// schedule. The clock is taken to run forward, so nothing claimed so far is
/// beyond what has vested by now. On failure the accounts are left as they were.
pub fn handler(ctx: &mut Revoke, current_time: i64) -> (r: Result<VestingRevoked, VestingError>)
    requires
        old(ctx).wf(),
        !old(ctx).vesting_schedule.is_revoked ==> old(ctx).vesting_schedule.claimed_amount
            <= old(ctx).vesting_schedule.vested_at(current_time as int),
    ensures
        final(ctx).wf(),
        match r {
            Ok(ev) => {
                &&& revoke_error(*old(ctx), current_time as int) is None
                &&& *final(ctx) == revoke_post(*old(ctx), current_time as int)
                &&& ev.admin == old(ctx).admin
                &&& ev.beneficiary == old(ctx).vesting_schedule.beneficiary
                &&& ev.mint == old(ctx).mint
                &&& ev.unvested_amount == old(ctx).vesting_schedule.unvested_at(
                    current_time as int,
                )
                &&& ev.vested_amount == old(ctx).vesting_schedule.total_amount
                    - ev.unvested_amount
            },
            Err(e) => {
                &&& revoke_error(*old(ctx), current_time as int) == Some(e)
                &&& *final(ctx) == *old(ctx)
            },
        },
{
    if !ctx.admin.equals(&ctx.vesting_schedule.admin) || !ctx.mint.equals(
        &ctx.vesting_schedule.mint,
    ) {
        return Err(VestingError::Unauthorized);
    }
    if ctx.vesting_schedule.is_revoked {
        return Err(VestingError::VestingRevoked);
    }
    if ctx.vesting_schedule.is_fully_vested(current_time) {
        return Err(VestingError::VestingCompleted);
    }
    let unvested = ctx.vesting_schedule.calculate_unvested_amount(current_time)?;
    proof {
        ctx.vesting_schedule.lemma_vested_bounds(current_time as int);
    }
    if unvested > 0 {
        ctx.vault_amount = ctx.vault_amount - unvested;
    }
    ctx.vesting_schedule.is_revoked = true;
    ctx.vesting_schedule.revoked_amount = unvested;
    Ok(
        VestingRevoked {
            admin: ctx.admin,
            beneficiary: ctx.vesting_schedule.beneficiary,
            mint: ctx.mint,
            unvested_amount: unvested,
            vested_amount: ctx.vesting_schedule.total_amount - unvested,
        },
    )
}

} // verus!
