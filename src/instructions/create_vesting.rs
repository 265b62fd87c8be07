use vstd::prelude::*;

use crate::constants::{MAX_CLIFF_PERCENTAGE, MAX_VESTING_DURATION, MIN_VESTING_DURATION};
use crate::error::VestingError;
use crate::state::{Pubkey, VestingSchedule};

verus! {

/// Who creates a schedule, for whom, in which asset, and the discriminants found
/// when the schedule's authority and escrow addresses were derived.
#[derive(Clone, Copy, Debug)]
pub struct CreateVestingSchedule {
    pub admin: Pubkey,
    pub beneficiary: Pubkey,
    pub mint: Pubkey,
    pub bump: u8,
    pub vault_bump: u8,
}

/// The record of a successful creation.
#[derive(Clone, Copy, Debug)]
pub struct VestingCreated {
    pub admin: Pubkey,
    pub beneficiary: Pubkey,
    pub mint: Pubkey,
    pub total_amount: u64,
    pub start_time: i64,
    pub cliff_duration: i64,
    pub vesting_duration: i64,
}

/// The error a creation ends with, checked in this order; `None` when the
/// parameters are accepted. A negative cliff cannot be scaled to a percentage as
/// an unsigned quantity and counts as an overflow.
pub open spec fn create_error(
    total_amount: int,
    start_time: int,
    cliff_duration: int,
    vesting_duration: int,
    now: int,
) -> Option<VestingError> {
    if total_amount == 0 {
        Some(VestingError::InvalidAmount)
    } else if vesting_duration < MIN_VESTING_DURATION {
        Some(VestingError::DurationTooShort)
    } else if vesting_duration > MAX_VESTING_DURATION {
        Some(VestingError::DurationTooLong)
    } else if cliff_duration > vesting_duration {
        Some(VestingError::CliffTooLong)
    } else if cliff_duration < 0 {
        Some(VestingError::CalculationOverflow)
    } else if cliff_duration * 100 / vesting_duration > MAX_CLIFF_PERCENTAGE {
        Some(VestingError::CliffPercentageTooHigh)
    } else if start_time <= now {
        Some(VestingError::StartTimeInPast)
    } else {
        None
    }
}

/// Validates the parameters and builds a fresh schedule with nothing claimed and
/// nothing revoked. The whole `total_amount` is then owed to the new escrow.
pub fn handler(
    ctx: &CreateVestingSchedule,
    total_amount: u64,
    start_time: i64,
    cliff_duration: i64,
    vesting_duration: i64,
    current_time: i64,
) -> (r: Result<(VestingSchedule, VestingCreated), VestingError>)
    ensures
        match r {
            Ok((s, ev)) => {
                &&& create_error(
                    total_amount as int,
                    start_time as int,
                    cliff_duration as int,
                    vesting_duration as int,
                    current_time as int,
                ) is None
                &&& s.wf()
                &&& s == (VestingSchedule {
                    admin: ctx.admin,
                    beneficiary: ctx.beneficiary,
                    mint: ctx.mint,
                    total_amount,
                    claimed_amount: 0,
                    start_time,
                    cliff_duration,
                    vesting_duration,
                    is_revoked: false,
                    revoked_amount: 0,
                    bump: ctx.bump,
                    vault_bump: ctx.vault_bump,
                })
                &&& s.outstanding() == total_amount
                &&& ev == (VestingCreated {
                    admin: ctx.admin,
                    beneficiary: ctx.beneficiary,
                    mint: ctx.mint,
                    total_amount,
                    start_time,
                    cliff_duration,
                    vesting_duration,
                })
            },
            Err(e) => create_error(
                total_amount as int,
                start_time as int,
                cliff_duration as int,
                vesting_duration as int,
                current_time as int,
            ) == Some(e),
        },
{
    if total_amount == 0 {
        return Err(VestingError::InvalidAmount);
    }
    if vesting_duration < MIN_VESTING_DURATION {
        return Err(VestingError::DurationTooShort);
    }
    if vesting_duration > MAX_VESTING_DURATION {
        return Err(VestingError::DurationTooLong);
    }
    if cliff_duration > vesting_duration {
        return Err(VestingError::CliffTooLong);
    }
    // An unsigned view of a negative cliff is at least 2^63, which cannot be
    // multiplied by 100.
    if cliff_duration < 0 {
        return Err(VestingError::CalculationOverflow);
    }
    let cliff_percentage = (cliff_duration as u64) * 100 / (vesting_duration as u64);
    if cliff_percentage > MAX_CLIFF_PERCENTAGE {
        return Err(VestingError::CliffPercentageTooHigh);
    }
    if start_time <= current_time {
        return Err(VestingError::StartTimeInPast);
    }
    let schedule = VestingSchedule {
        admin: ctx.admin,
        beneficiary: ctx.beneficiary,
        mint: ctx.mint,
        total_amount,
        claimed_amount: 0,
        start_time,
        cliff_duration,
        vesting_duration,
        is_revoked: false,
        revoked_amount: 0,
        bump: ctx.bump,
        vault_bump: ctx.vault_bump,
    };
    let event = VestingCreated {
        admin: ctx.admin,
        beneficiary: ctx.beneficiary,
        mint: ctx.mint,
        total_amount,
        start_time,
        cliff_duration,
        vesting_duration,
    };
    Ok((schedule, event))
}

} // verus!
