use vstd::prelude::*;

use crate::error::VestingError;
use crate::instructions::claim::{self as claim_ix, Claim, TokensClaimed, claim_error, claim_post};
use crate::instructions::create_vesting::{
    self as create_ix,
    CreateVestingSchedule,
    VestingCreated,
    create_error,
};
use crate::instructions::revoke::{self as revoke_ix, Revoke, VestingRevoked, revoke_error, revoke_post};
use crate::state::VestingSchedule;

verus! {

/// Creates a schedule: see the creation handler.
pub fn create_vesting_schedule(
    ctx: &CreateVestingSchedule,
    total_amount: u64,
    start_time: i64,
    cliff_duration: i64,
    vesting_duration: i64,
    current_time: i64,
) -> (r: Result<(VestingSchedule, VestingCreated), VestingError>)
    ensures
        match r {
            Ok((s, ev)) => {
                &&& create_error(
                    total_amount as int,
                    start_time as int,
                    cliff_duration as int,
                    vesting_duration as int,
                    current_time as int,
                ) is None
                &&& s.wf()
                &&& s == (VestingSchedule {
                    admin: ctx.admin,
                    beneficiary: ctx.beneficiary,
                    mint: ctx.mint,
                    total_amount,
                    claimed_amount: 0,
                    start_time,
                    cliff_duration,
                    vesting_duration,
                    is_revoked: false,
                    revoked_amount: 0,
                    bump: ctx.bump,
                    vault_bump: ctx.vault_bump,
                })
                &&& s.outstanding() == total_amount
                &&& ev == (VestingCreated {
                    admin: ctx.admin,
                    beneficiary: ctx.beneficiary,
                    mint: ctx.mint,
                    total_amount,
                    start_time,
                    cliff_duration,
                    vesting_duration,
                })
            },
            Err(e) => create_error(
                total_amount as int,
                start_time as int,
                cliff_duration as int,
                vesting_duration as int,
                current_time as int,
            ) == Some(e),
        },
{
    create_ix::handler(ctx, total_amount, start_time, cliff_duration, vesting_duration, current_time)
}

/// Claims what has vested: see the claim handler.
pub fn claim(ctx: &mut Claim, current_time: i64) -> (r: Result<TokensClaimed, VestingError>)
    requires
        old(ctx).wf(),
    ensures
        final(ctx).wf(),
        match r {
            Ok(ev) => {
                &&& claim_error(*old(ctx), current_time as int) is None
                &&& *final(ctx) == claim_post(*old(ctx), current_time as int)
                &&& ev.beneficiary == old(ctx).beneficiary
                &&& ev.mint == old(ctx).mint
                &&& ev.amount == old(ctx).vesting_schedule.claimable_at(current_time as int)
                &&& ev.total_claimed == final(ctx).vesting_schedule.claimed_amount
                &&& ev.remaining == final(ctx).vesting_schedule.total_amount
                    - final(ctx).vesting_schedule.claimed_amount
            },
            Err(e) => {
                &&& claim_error(*old(ctx), current_time as int) == Some(e)
                &&& *final(ctx) == *old(ctx)
            },
        },
{
    claim_ix::handler(ctx, current_time)
}

/// Revokes the unvested remainder: see the revocation handler.
pub fn revoke(ctx: &mut Revoke, current_time: i64) -> (r: Result<VestingRevoked, VestingError>)
    requires
        old(ctx).wf(),
        !old(ctx).vesting_schedule.is_revoked ==> old(ctx).vesting_schedule.claimed_amount
            <= old(ctx).vesting_schedule.vested_at(current_time as int),
    ensures
        final(ctx).wf(),
        match r {
            Ok(ev) => {
                &&& revoke_error(*old(ctx), current_time as int) is None
                &&& *final(ctx) == revoke_post(*old(ctx), current_time as int)
                &&& ev.admin == old(ctx).admin
                &&& ev.beneficiary == old(ctx).vesting_schedule.beneficiary
                &&& ev.mint == old(ctx).mint
                &&& ev.unvested_amount == old(ctx).vesting_schedule.unvested_at(
                    current_time as int,
                )
                &&& ev.vested_amount == old(ctx).vesting_schedule.total_amount
                    - ev.unvested_amount
            },
            Err(e) => {
                &&& revoke_error(*old(ctx), current_time as int) == Some(e)
                &&& *final(ctx) == *old(ctx)
            },
        },
{
    revoke_ix::handler(ctx, current_time)
}

} // verus!
