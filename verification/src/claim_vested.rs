//! Claiming vested tokens.

use vstd::prelude::*;

verus! {

use vstd::arithmetic::div_mod::{
    lemma_div_is_ordered,
    lemma_div_multiples_vanish,
    lemma_div_pos_is_pos,
    lemma_fundamental_div_mod,
    lemma_mod_division_less_than_divisor,
};
use vstd::arithmetic::mul::{
    lemma_mul_inequality,
    lemma_mul_is_commutative,
    lemma_mul_nonnegative,
};
use crate::errors::ErrorCode;
use crate::state::{GlobalConfig, VestingAccount};

/// First instant at which anything vests.
pub open spec fn spec_cliff_end(config: GlobalConfig, vesting: VestingAccount) -> int {
    vesting.start_timestamp + config.vesting_cliff_seconds
}

/// Time since the cliff that counts toward vesting, snapped down to whole
/// claim intervals: value unlocks in discrete interval-sized steps, never
/// continuously, and stops accruing at the full duration.
pub open spec fn spec_snapped_elapsed(config: GlobalConfig, vesting: VestingAccount, now: int) -> int {
    let since_cliff = now - spec_cliff_end(config, vesting);
    let elapsed = if since_cliff <= config.vesting_duration_seconds {
        since_cliff
    } else {
        config.vesting_duration_seconds as int
    };
    (elapsed / (config.vesting_claim_interval_seconds as int))
        * (config.vesting_claim_interval_seconds as int)
}

/// Total vested by `now`: the allocation scaled linearly by the snapped
/// elapsed time over the full duration, rounded down. Meaningful once `now`
/// has reached the cliff end.
pub open spec fn spec_total_vested(config: GlobalConfig, vesting: VestingAccount, now: int) -> int {
    (vesting.total_allocation * spec_snapped_elapsed(config, vesting, now))
        / (config.vesting_duration_seconds as int)
}

/// Vesting accrues monotonically: at a later instant, at least as much has
/// vested.
pub proof fn lemma_vested_monotonic(
    config: GlobalConfig,
    vesting: VestingAccount,
    now1: int,
    now2: int,
)
    requires
        config.wf(),
        now1 <= now2,
    ensures
        spec_total_vested(config, vesting, now1) <= spec_total_vested(config, vesting, now2),
{
    let interval: int = config.vesting_claim_interval_seconds as int;
    let duration: int = config.vesting_duration_seconds as int;
    let cliff_end = spec_cliff_end(config, vesting);
    let elapsed1 = if now1 - cliff_end <= duration { now1 - cliff_end } else { duration };
    let elapsed2 = if now2 - cliff_end <= duration { now2 - cliff_end } else { duration };
    assert(elapsed1 <= elapsed2);
    lemma_div_is_ordered(elapsed1, elapsed2, interval);
    lemma_mul_inequality(elapsed1 / interval, elapsed2 / interval, interval);
    lemma_mul_inequality(
        spec_snapped_elapsed(config, vesting, now1),
        spec_snapped_elapsed(config, vesting, now2),
        vesting.total_allocation as int,
    );
    lemma_mul_is_commutative(
        spec_snapped_elapsed(config, vesting, now1),
        vesting.total_allocation as int,
    );
    lemma_mul_is_commutative(
        spec_snapped_elapsed(config, vesting, now2),
        vesting.total_allocation as int,
    );
    lemma_div_is_ordered(
        vesting.total_allocation * spec_snapped_elapsed(config, vesting, now1),
        vesting.total_allocation * spec_snapped_elapsed(config, vesting, now2),
        duration,
    );
}

/// Claims are bounded: once the cliff is reached, the vested total lies
/// between zero and the whole allocation.
pub proof fn lemma_vested_bounds(config: GlobalConfig, vesting: VestingAccount, now: int)
    requires
        config.wf(),
        now >= spec_cliff_end(config, vesting),
    ensures
        0 <= spec_total_vested(config, vesting, now) <= vesting.total_allocation,
{
    let interval: int = config.vesting_claim_interval_seconds as int;
    let duration: int = config.vesting_duration_seconds as int;
    let cliff_end = spec_cliff_end(config, vesting);
    let elapsed = if now - cliff_end <= duration { now - cliff_end } else { duration };
    assert(0 <= elapsed <= duration);
    let snapped = spec_snapped_elapsed(config, vesting, now);

    // The snapped time stays within [0, duration].
    lemma_div_pos_is_pos(elapsed, interval);
    lemma_mul_nonnegative(elapsed / interval, interval);
    lemma_fundamental_div_mod(elapsed, interval);
    lemma_mod_division_less_than_divisor(elapsed, interval);
    lemma_mul_is_commutative(elapsed / interval, interval);
    assert(0 <= snapped <= elapsed);

    // Scaling by allocation / duration keeps the result within the
    // allocation.
    lemma_mul_nonnegative(vesting.total_allocation as int, snapped);
    lemma_div_pos_is_pos(vesting.total_allocation * snapped, duration);
    lemma_mul_inequality(snapped, duration, vesting.total_allocation as int);
    lemma_mul_is_commutative(snapped, vesting.total_allocation as int);
    lemma_mul_is_commutative(duration, vesting.total_allocation as int);
    lemma_div_is_ordered(
        vesting.total_allocation * snapped,
        duration * (vesting.total_allocation as int),
        duration,
    );
    lemma_div_multiples_vanish(vesting.total_allocation as int, duration);
}

/// Pays the creator everything vested by `now` that has not been claimed yet.
///
/// Only the schedule's creator may claim. Fails while the schedule is
/// revoked, before the cliff, when the timestamp arithmetic leaves the 64-bit
/// range, or when nothing new has vested; an error leaves the schedule
/// untouched. On success the returned amount moves from the vesting custody
/// to the creator, and the claimed total rises to exactly the vested total —
/// never past the allocation.
pub fn handler(
    config: &GlobalConfig,
    vesting: &mut VestingAccount,
    creator: u64,
    now: i64,
) -> (r: Result<u64, ErrorCode>)
    requires
        config.wf(),
        old(vesting).wf(),
    ensures
        final(vesting).wf(),
        r is Err ==> *final(vesting) == *old(vesting),
        ({
            let cliff_end = spec_cliff_end(*config, *old(vesting));
            let vested = spec_total_vested(*config, *old(vesting), now as int);
            &&& (creator != old(vesting).creator ==> r == Err::<u64, ErrorCode>(
                ErrorCode::Unauthorized,
            ))
            &&& (creator == old(vesting).creator && old(vesting).is_revoked ==> r
                == Err::<u64, ErrorCode>(ErrorCode::VestingRevoked))
            &&& (creator == old(vesting).creator && !old(vesting).is_revoked && cliff_end
                > i64::MAX ==> r == Err::<u64, ErrorCode>(ErrorCode::MathOverflow))
            &&& (creator == old(vesting).creator && !old(vesting).is_revoked && cliff_end
                <= i64::MAX && now < cliff_end ==> r == Err::<u64, ErrorCode>(
                ErrorCode::VestingCliffNotReached,
            ))
            &&& (creator == old(vesting).creator && !old(vesting).is_revoked && cliff_end
                <= i64::MAX && now >= cliff_end && now - cliff_end > i64::MAX ==> r
                == Err::<u64, ErrorCode>(ErrorCode::MathOverflow))
            &&& (creator == old(vesting).creator && !old(vesting).is_revoked && cliff_end
                <= i64::MAX && now >= cliff_end && now - cliff_end <= i64::MAX ==> {
                &&& (vested < old(vesting).claimed_amount ==> r == Err::<u64, ErrorCode>(
                    ErrorCode::MathOverflow,
                ))
                &&& (vested == old(vesting).claimed_amount ==> r == Err::<u64, ErrorCode>(
                    ErrorCode::VestingFullyClaimed,
                ))
                &&& (vested > old(vesting).claimed_amount ==> {
                    &&& r is Ok
                    &&& r->Ok_0 == vested - old(vesting).claimed_amount
                    &&& final(vesting).claimed_amount == vested
                    &&& final(vesting).creator == old(vesting).creator
                    &&& final(vesting).token_mint == old(vesting).token_mint
                    &&& final(vesting).total_allocation == old(vesting).total_allocation
                    &&& final(vesting).start_timestamp == old(vesting).start_timestamp
                    &&& final(vesting).is_revoked == old(vesting).is_revoked
                })
            })
        }),
{
    if creator != vesting.creator {
        return Err(ErrorCode::Unauthorized);
    }
    if vesting.is_revoked {
        return Err(ErrorCode::VestingRevoked);
    }

    let cliff_end: i64 = match vesting.start_timestamp.checked_add(config.vesting_cliff_seconds) {
        Some(value) => value,
        None => return Err(ErrorCode::MathOverflow),
    };
    if now < cliff_end {
        return Err(ErrorCode::VestingCliffNotReached);
    }
    let since_cliff: i64 = match now.checked_sub(cliff_end) {
        Some(value) => value,
        None => return Err(ErrorCode::MathOverflow),
    };

    let elapsed: i64 = if since_cliff <= config.vesting_duration_seconds {
        since_cliff
    } else {
        config.vesting_duration_seconds
    };

    // Snap the elapsed time down to whole claim intervals.
    let elapsed_u: u64 = elapsed as u64;
    let interval_u: u64 = config.vesting_claim_interval_seconds as u64;
    let weeks: u64 = elapsed_u / interval_u;
    proof {
        lemma_fundamental_div_mod(elapsed_u as int, interval_u as int);
        lemma_mod_division_less_than_divisor(elapsed_u as int, interval_u as int);
        lemma_div_pos_is_pos(elapsed_u as int, interval_u as int);
        lemma_mul_is_commutative(weeks as int, interval_u as int);
    }
    let snapped: u64 = weeks * interval_u;

    // Linear vesting over the snapped time, computed in widened arithmetic.
    let duration_wide: u128 = config.vesting_duration_seconds as u128;
    proof {
        assert((vesting.total_allocation as u128) * (snapped as u128) <= u128::MAX)
            by (nonlinear_arith)
            requires
                vesting.total_allocation <= 0xffff_ffff_ffff_ffffu64,
                snapped <= 0x7fff_ffff_ffff_ffffu64,
        ;
    }
    let vested_wide: u128 = (vesting.total_allocation as u128) * (snapped as u128);
    let total_vested_wide: u128 = vested_wide / duration_wide;
    proof {
        // The snapped time never exceeds the duration, so the vested total
        // never exceeds the allocation.
        lemma_mul_nonnegative(vesting.total_allocation as int, snapped as int);
        lemma_div_pos_is_pos(vested_wide as int, duration_wide as int);
        lemma_mul_inequality(
            snapped as int,
            config.vesting_duration_seconds as int,
            vesting.total_allocation as int,
        );
        lemma_mul_is_commutative(snapped as int, vesting.total_allocation as int);
        lemma_mul_is_commutative(config.vesting_duration_seconds as int, vesting.total_allocation as int);
        lemma_div_is_ordered(
            vested_wide as int,
            (config.vesting_duration_seconds as int) * (vesting.total_allocation as int),
            duration_wide as int,
        );
        lemma_div_multiples_vanish(vesting.total_allocation as int, duration_wide as int);
    }
    let total_vested: u64 = total_vested_wide as u64;

    let claimable: u64 = match total_vested.checked_sub(vesting.claimed_amount) {
        Some(value) => value,
        None => return Err(ErrorCode::MathOverflow),
    };
    if claimable == 0 {
        return Err(ErrorCode::VestingFullyClaimed);
    }

    vesting.claimed_amount = vesting.claimed_amount + claimable;
    Ok(claimable)
}

} // verus!
