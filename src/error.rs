use vstd::prelude::*;

verus! {

/// Every way a vesting operation can be refused.
#[derive(Clone, Copy, Debug, PartialEq, Eq, Structural)]
pub enum VestingError {
    DurationTooShort,
    DurationTooLong,
    CliffTooLong,
    CliffPercentageTooHigh,
    StartTimeInPast,
    CliffNotReached,
    NothingToClaim,
    VestingRevoked,
    VestingCompleted,
    CalculationOverflow,
    InvalidAmount,
    /// The signer or the asset presented does not match the schedule record.
    Unauthorized,
}

impl VestingError {
    /// The human-readable message for this error.
    pub fn message(&self) -> (r: &'static str) {
        match self {
            VestingError::DurationTooShort => "Vesting duration must be at least 1 day",
            VestingError::DurationTooLong => "Vesting duration cannot exceed 10 years",
            VestingError::CliffTooLong => "Cliff duration cannot exceed vesting duration",
            VestingError::CliffPercentageTooHigh => "Cliff cannot exceed 50% of vesting duration",
            VestingError::StartTimeInPast => "Vesting start time must be in the future",
            VestingError::CliffNotReached => "Cannot claim during cliff period",
            VestingError::NothingToClaim => "No tokens available for claiming",
            VestingError::VestingRevoked => "This vesting schedule has been revoked",
            VestingError::VestingCompleted => "Cannot revoke completed vesting schedule",
            VestingError::CalculationOverflow => "Calculation overflow",
            VestingError::InvalidAmount => "Vesting amount must be greater than zero",
            VestingError::Unauthorized => "Signer or mint does not match the vesting schedule",
        }
    }
}

} // verus!
