use vstd::prelude::*;

use crate::error::VestingError;
use crate::instructions::claim::{Claim, claim_error, claim_post};
use crate::instructions::revoke::{Revoke, revoke_error, revoke_post};
use crate::state::{VestingSchedule, lemma_linear_share_monotonic};

verus! {

/// Every successful transition keeps the claimed amount within the total.
pub proof fn lemma_transitions_keep_claimed_within_total(c: Claim, r: Revoke, now: int)
    requires
        c.wf(),
        r.wf(),
        !r.vesting_schedule.is_revoked ==> r.vesting_schedule.claimed_amount
            <= r.vesting_schedule.vested_at(now),
    ensures
        claim_error(c, now) is None ==> claim_post(c, now).vesting_schedule.claimed_amount
            <= claim_post(c, now).vesting_schedule.total_amount,
        revoke_error(r, now) is None ==> revoke_post(r, now).vesting_schedule.claimed_amount
            <= revoke_post(r, now).vesting_schedule.total_amount,
{
    c.vesting_schedule.lemma_vested_bounds(now);
}

/// Before revocation, the vested amount never decreases as time passes.
pub proof fn lemma_vested_monotonic(s: VestingSchedule, t1: int, t2: int)
    requires
        s.wf(),
        !s.is_revoked,
        t1 <= t2,
    ensures
        s.vested_at(t1) <= s.vested_at(t2),
{
    s.lemma_vested_bounds(t1);
    s.lemma_vested_bounds(t2);
    if s.cliff_end() <= t1 && t2 < s.vesting_end() {
        lemma_linear_share_monotonic(
            s.total_amount as int,
            t1 - s.start_time,
            t2 - s.start_time,
            s.vesting_duration as int,
        );
    }
}

/// Before revocation, nothing has vested one second before the cliff ends, and
/// everything has vested when the vesting period ends.
pub proof fn lemma_vested_boundaries(s: VestingSchedule)
    requires
        s.wf(),
        !s.is_revoked,
    ensures
        s.vested_at(s.cliff_end() - 1) == 0,
        s.vested_at(s.vesting_end()) == s.total_amount,
{
}

/// Claims and revocations move out of the escrow exactly what they add to the
/// claimed or revoked amounts, so an escrow that held what the schedule owes
/// still does afterwards.
pub proof fn lemma_escrow_conservation(c: Claim, r: Revoke, now: int)
    requires
        c.wf(),
        r.wf(),
        !r.vesting_schedule.is_revoked ==> r.vesting_schedule.claimed_amount
            <= r.vesting_schedule.vested_at(now),
    ensures
        claim_error(c, now) is None ==> claim_post(c, now).vault_amount
            - claim_post(c, now).vesting_schedule.outstanding() == c.vault_amount
            - c.vesting_schedule.outstanding(),
        revoke_error(r, now) is None ==> {
            &&& revoke_post(r, now).vault_amount - revoke_post(r, now).vesting_schedule.outstanding()
                == r.vault_amount - r.vesting_schedule.outstanding()
            &&& revoke_post(r, now).vesting_schedule.claimed_amount + revoke_post(
                r,
                now,
            ).vesting_schedule.revoked_amount <= revoke_post(r, now).vesting_schedule.total_amount
        },
{
    c.vesting_schedule.lemma_vested_bounds(now);
    r.vesting_schedule.lemma_vested_bounds(now);
}

/// A second claim at the same moment as a successful one finds nothing to claim.
pub proof fn lemma_claim_twice_nothing_to_claim(c: Claim, now: int)
    requires
        c.wf(),
        claim_error(c, now) is None,
    ensures
        claim_error(claim_post(c, now), now) == Some(VestingError::NothingToClaim),
{
    c.vesting_schedule.lemma_vested_bounds(now);
}

/// Once revoked, a schedule stays revoked and every later claim or revocation on
/// it fails; by the schedule's own parties it fails as revoked.
pub proof fn lemma_revoke_is_terminal(r: Revoke, now: int, c: Claim, r2: Revoke, later: int)
    requires
        revoke_error(r, now) is None,
        c.vesting_schedule == revoke_post(r, now).vesting_schedule,
        r2.vesting_schedule == revoke_post(r, now).vesting_schedule,
    ensures
        c.vesting_schedule.is_revoked,
        claim_error(c, later) is Some,
        c.authorized() ==> claim_error(c, later) == Some(VestingError::VestingRevoked),
        revoke_error(r2, later) is Some,
        r2.authorized() ==> revoke_error(r2, later) == Some(VestingError::VestingRevoked),
{
}

} // verus!
