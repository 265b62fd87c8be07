use token_vesting::error::VestingError;
use token_vesting::instructions::claim::Claim;
use token_vesting::instructions::create_vesting::CreateVestingSchedule;
use token_vesting::instructions::revoke::Revoke;
use token_vesting::state::{Pubkey, VestingSchedule};
use token_vesting::token_vesting::{claim, create_vesting_schedule, revoke};

const START: i64 = 1_700_000_000;

fn key(b: u8) -> Pubkey {
    Pubkey { bytes: [b; 32] }
}

fn schedule(total: u64, cliff: i64, duration: i64) -> VestingSchedule {
    VestingSchedule {
        admin: key(1),
        beneficiary: key(2),
        mint: key(3),
        total_amount: total,
        claimed_amount: 0,
        start_time: START,
        cliff_duration: cliff,
        vesting_duration: duration,
        is_revoked: false,
        revoked_amount: 0,
        bump: 254,
        vault_bump: 253,
    }
}

fn claim_ctx(s: VestingSchedule) -> Claim {
    Claim { beneficiary: s.beneficiary, mint: s.mint, vesting_schedule: s, vault_amount: s.total_amount }
}

fn revoke_ctx(s: VestingSchedule) -> Revoke {
    Revoke { admin: s.admin, mint: s.mint, vesting_schedule: s, vault_amount: s.total_amount }
}

fn create_ctx() -> CreateVestingSchedule {
    CreateVestingSchedule { admin: key(1), beneficiary: key(2), mint: key(3), bump: 254, vault_bump: 253 }
}

#[test]
fn scenario_linear_claims_without_cliff() {
    let mut ctx = claim_ctx(schedule(1_000_000, 0, 1_000));
    let ev = claim(&mut ctx, START + 500).unwrap();
    assert_eq!(ev.amount, 500_000);
    assert_eq!(ev.beneficiary.bytes, [2; 32]);
    assert_eq!(ev.mint.bytes, [3; 32]);
    assert_eq!(ev.total_claimed, 500_000);
    assert_eq!(ev.remaining, 500_000);
    let ev = claim(&mut ctx, START + 1_000).unwrap();
    assert_eq!(ev.amount, 500_000);
    assert_eq!(ev.total_claimed, 1_000_000);
    assert_eq!(ev.remaining, 0);
    assert_eq!(ctx.vault_amount, 0);
    assert_eq!(claim(&mut ctx, START + 1_000), Err(VestingError::NothingToClaim));
}

#[test]
fn scenario_cliff_blocks_then_releases() {
    let mut ctx = claim_ctx(schedule(1_000_000, 200, 1_000));
    let before = ctx;
    assert_eq!(claim(&mut ctx, START + 100), Err(VestingError::CliffNotReached));
    assert_eq!(ctx.vesting_schedule.claimed_amount, before.vesting_schedule.claimed_amount);
    assert_eq!(ctx.vault_amount, before.vault_amount);
    let ev = claim(&mut ctx, START + 200).unwrap();
    assert_eq!(ev.amount, 200_000);
}

#[test]
fn scenario_revoke_returns_unvested() {
    let s = schedule(1_000_000, 0, 1_000);
    let mut ctx = revoke_ctx(s);
    let ev = revoke(&mut ctx, START + 300).unwrap();
    assert_eq!(ev.unvested_amount, 700_000);
    assert_eq!(ev.vested_amount, 300_000);
    assert_eq!(ev.admin.bytes, [1; 32]);
    assert_eq!(ev.beneficiary.bytes, [2; 32]);
    assert!(ctx.vesting_schedule.is_revoked);
    assert_eq!(ctx.vesting_schedule.revoked_amount, 700_000);
    assert_eq!(ctx.vault_amount, 300_000);
    let mut c = claim_ctx(ctx.vesting_schedule);
    c.vault_amount = ctx.vault_amount;
    assert_eq!(claim(&mut c, START + 400), Err(VestingError::VestingRevoked));
    assert_eq!(revoke(&mut ctx, START + 400), Err(VestingError::VestingRevoked));
    assert!(ctx.vesting_schedule.is_revoked);
}

#[test]
fn rejects_high_cliff_and_short_duration() {
    let now = START - 10;
    assert_eq!(
        create_vesting_schedule(&create_ctx(), 1_000_000, START, 600, 1_000, now).unwrap_err(),
        VestingError::DurationTooShort
    );
    assert_eq!(
        create_vesting_schedule(&create_ctx(), 1_000_000, START, 60_000, 100_000, now).unwrap_err(),
        VestingError::CliffPercentageTooHigh
    );
    assert_eq!(
        create_vesting_schedule(&create_ctx(), 1_000_000, START, 0, 100, now).unwrap_err(),
        VestingError::DurationTooShort
    );
}

#[test]
fn create_error_for_each_rule() {
    let c = create_ctx();
    let now = START - 1;
    let day = 86_400;
    assert_eq!(create_vesting_schedule(&c, 0, START, 0, day, now).unwrap_err(), VestingError::InvalidAmount);
    assert_eq!(
        create_vesting_schedule(&c, 5, START, 0, 315_360_001, now).unwrap_err(),
        VestingError::DurationTooLong
    );
    assert_eq!(
        create_vesting_schedule(&c, 5, START, day + 1, day, now).unwrap_err(),
        VestingError::CliffTooLong
    );
    assert_eq!(
        create_vesting_schedule(&c, 5, START, -1, day, now).unwrap_err(),
        VestingError::CalculationOverflow
    );
    assert_eq!(
        create_vesting_schedule(&c, 5, START, 0, day, START).unwrap_err(),
        VestingError::StartTimeInPast
    );
}

#[test]
fn create_accepts_truncated_half_cliff() {
    // 50.9% of the duration truncates to 50 and passes.
    let (s, ev) = create_vesting_schedule(&create_ctx(), 7, START, 101_800, 200_000, START - 1).unwrap();
    assert_eq!(s.claimed_amount, 0);
    assert!(!s.is_revoked);
    assert_eq!(s.revoked_amount, 0);
    assert_eq!(s.total_amount, 7);
    assert_eq!(s.bump, 254);
    assert_eq!(s.vault_bump, 253);
    assert_eq!(ev.cliff_duration, 101_800);
    assert_eq!(ev.vesting_duration, 200_000);
    assert_eq!(ev.total_amount, 7);
    assert_eq!(
        create_vesting_schedule(&create_ctx(), 7, START, 102_000, 200_000, START - 1).unwrap_err(),
        VestingError::CliffPercentageTooHigh
    );
}

#[test]
fn vested_amount_boundaries() {
    let s = schedule(1_000_000, 200, 1_000);
    assert_eq!(s.calculate_vested_amount(START + 199), Ok(0));
    assert_eq!(s.calculate_vested_amount(START + 200), Ok(200_000));
    assert_eq!(s.calculate_vested_amount(START + 999), Ok(999_000));
    assert_eq!(s.calculate_vested_amount(START + 1_000), Ok(1_000_000));
    assert_eq!(s.calculate_vested_amount(START + 5_000), Ok(1_000_000));
    assert!(!s.is_cliff_reached(START + 199));
    assert!(s.is_cliff_reached(START + 200));
    assert!(!s.is_fully_vested(START + 999));
    assert!(s.is_fully_vested(START + 1_000));
}

#[test]
fn vested_amount_floors_and_is_monotonic() {
    let s = schedule(10, 0, 3);
    let mut last = 0;
    for t in 0..5 {
        let v = s.calculate_vested_amount(START + t).unwrap();
        assert!(v >= last);
        last = v;
    }
    assert_eq!(s.calculate_vested_amount(START + 1), Ok(3));
    assert_eq!(s.calculate_vested_amount(START + 2), Ok(6));
}

#[test]
fn vested_amount_uses_wide_product() {
    let s = schedule(u64::MAX, 0, 315_360_000);
    assert_eq!(s.calculate_vested_amount(START + 157_680_000), Ok(u64::MAX / 2));
}

#[test]
fn vested_amount_overflow_is_reported() {
    let mut s = schedule(100, 10, 1_000);
    s.start_time = i64::MAX - 5;
    assert_eq!(s.calculate_vested_amount(0), Err(VestingError::CalculationOverflow));
    s.start_time = i64::MAX - 100;
    assert_eq!(s.calculate_vested_amount(0), Ok(0));
    assert_eq!(s.calculate_vested_amount(i64::MAX), Err(VestingError::CalculationOverflow));
}

#[test]
fn claimable_and_unvested_saturate() {
    let mut s = schedule(1_000, 0, 100);
    s.claimed_amount = 600;
    assert_eq!(s.calculate_claimable_amount(START + 50), Ok(0));
    assert_eq!(s.calculate_claimable_amount(START + 70), Ok(100));
    assert_eq!(s.calculate_unvested_amount(START + 70), Ok(300));
    s.is_revoked = true;
    s.revoked_amount = 300;
    assert_eq!(s.calculate_vested_amount(START), Ok(700));
    assert_eq!(s.calculate_unvested_amount(START), Ok(300));
}

#[test]
fn claim_twice_at_same_time_changes_nothing() {
    let mut ctx = claim_ctx(schedule(1_000_000, 0, 1_000));
    claim(&mut ctx, START + 250).unwrap();
    let s1 = ctx.vesting_schedule.claimed_amount;
    let v1 = ctx.vault_amount;
    assert_eq!(claim(&mut ctx, START + 250), Err(VestingError::NothingToClaim));
    assert_eq!(ctx.vesting_schedule.claimed_amount, s1);
    assert_eq!(ctx.vault_amount, v1);
}

#[test]
fn escrow_and_claimed_add_up() {
    let mut ctx = claim_ctx(schedule(999_999, 0, 1_000));
    for t in [1, 333, 500, 777, 1_000] {
        let _ = claim(&mut ctx, START + t);
        assert_eq!(ctx.vault_amount + ctx.vesting_schedule.claimed_amount, 999_999);
        assert!(ctx.vesting_schedule.claimed_amount <= ctx.vesting_schedule.total_amount);
    }
    let mut r = revoke_ctx(schedule(999_999, 0, 1_000));
    r.vesting_schedule.claimed_amount = 100_000;
    r.vault_amount = 899_999;
    revoke(&mut r, START + 400).unwrap();
    let s = r.vesting_schedule;
    assert_eq!(r.vault_amount, s.total_amount - s.claimed_amount - s.revoked_amount);
    assert_eq!(r.vault_amount, 299_999);
}

#[test]
fn revoke_after_completion_is_refused() {
    let mut ctx = revoke_ctx(schedule(1_000, 0, 100));
    assert_eq!(revoke(&mut ctx, START + 100), Err(VestingError::VestingCompleted));
    assert!(!ctx.vesting_schedule.is_revoked);
}

#[test]
fn revoke_before_start_returns_everything() {
    let mut ctx = revoke_ctx(schedule(1_000, 10, 100));
    let ev = revoke(&mut ctx, START - 5).unwrap();
    assert_eq!(ev.unvested_amount, 1_000);
    assert_eq!(ev.vested_amount, 0);
    assert_eq!(ctx.vault_amount, 0);
}

#[test]
fn wrong_signer_or_mint_is_refused() {
    let mut c = claim_ctx(schedule(1_000, 0, 100));
    c.beneficiary = key(9);
    assert_eq!(claim(&mut c, START + 50), Err(VestingError::Unauthorized));
    let mut c = claim_ctx(schedule(1_000, 0, 100));
    c.mint = key(9);
    assert_eq!(claim(&mut c, START + 50), Err(VestingError::Unauthorized));
    let mut r = revoke_ctx(schedule(1_000, 0, 100));
    r.admin = key(2);
    assert_eq!(revoke(&mut r, START + 50), Err(VestingError::Unauthorized));
}

#[test]
fn pubkey_equality() {
    let mut a = key(4);
    assert!(a.equals(&key(4)));
    a.bytes[31] = 5;
    assert!(!a.equals(&key(4)));
}

#[test]
fn error_messages() {
    assert_eq!(VestingError::NothingToClaim.message(), "No tokens available for claiming");
    assert_eq!(VestingError::CalculationOverflow.message(), "Calculation overflow");
}
