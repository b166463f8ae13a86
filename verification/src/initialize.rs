//! One-time initialization of the global configuration.

use vstd::prelude::*;

verus! {

use crate::errors::ErrorCode;
use crate::state::GlobalConfig;

/// Seconds after a schedule's start before any vesting value is claimable
/// (30 days).
pub const VESTING_CLIFF_SECONDS: i64 = 2_592_000;

/// Seconds over which a vesting allocation unlocks linearly (60 days).
pub const VESTING_DURATION_SECONDS: i64 = 5_184_000;

/// Vesting unlocks only in whole multiples of this many seconds (7 days).
pub const VESTING_CLAIM_INTERVAL_SECONDS: i64 = 604_800;

/// Seconds a creator must wait between two token launches (90 days).
pub const LAUNCH_COOLDOWN_SECONDS: i64 = 7_776_000;

/// Share of a new token's supply set aside for its creator: 1000 bps = 10%.
pub const CREATOR_ALLOCATION_BPS: u16 = 1000;

/// Builds the global configuration from the initialization inputs.
///
/// Rejects a fee setup whose shares do not sum to the total or whose total
/// exceeds 1000 bps, and a zero initial virtual reserve. On success the
/// returned configuration carries the inputs verbatim together with the fixed
/// vesting, cooldown and allocation constants, and satisfies the
/// configuration invariant.
pub fn handler(
    authority: u64,
    fee_bps: u16,
    platform_fee_bps: u16,
    creator_fee_bps: u16,
    initial_virtual_token_reserves: u64,
    initial_virtual_sol_reserves: u64,
) -> (r: Result<GlobalConfig, ErrorCode>)
    ensures
        platform_fee_bps + creator_fee_bps != fee_bps || fee_bps > 1000 ==> r
            == Err::<GlobalConfig, ErrorCode>(ErrorCode::InvalidFeeConfiguration),
        platform_fee_bps + creator_fee_bps == fee_bps && fee_bps <= 1000 && (
        initial_virtual_token_reserves == 0 || initial_virtual_sol_reserves == 0) ==> r
            == Err::<GlobalConfig, ErrorCode>(ErrorCode::InvalidReserveConfiguration),
        platform_fee_bps + creator_fee_bps == fee_bps && fee_bps <= 1000
            && initial_virtual_token_reserves > 0 && initial_virtual_sol_reserves > 0 ==> r
            == Ok::<GlobalConfig, ErrorCode>(
            (GlobalConfig {
                authority,
                fee_bps,
                platform_fee_bps,
                creator_fee_bps,
                initial_virtual_token_reserves,
                initial_virtual_sol_reserves,
                vesting_cliff_seconds: VESTING_CLIFF_SECONDS,
                vesting_duration_seconds: VESTING_DURATION_SECONDS,
                vesting_claim_interval_seconds: VESTING_CLAIM_INTERVAL_SECONDS,
                launch_cooldown_seconds: LAUNCH_COOLDOWN_SECONDS,
                creator_allocation_bps: CREATOR_ALLOCATION_BPS,
            }),
        ),
        r matches Ok(config) ==> config.wf(),
{
    if (platform_fee_bps as u32) + (creator_fee_bps as u32) != fee_bps as u32 {
        return Err(ErrorCode::InvalidFeeConfiguration);
    }
    if fee_bps > 1000 {
        return Err(ErrorCode::InvalidFeeConfiguration);
    }
    if initial_virtual_token_reserves == 0 || initial_virtual_sol_reserves == 0 {
        return Err(ErrorCode::InvalidReserveConfiguration);
    }

    Ok(
        GlobalConfig {
            authority,
            fee_bps,
            platform_fee_bps,
            creator_fee_bps,
            initial_virtual_token_reserves,
            initial_virtual_sol_reserves,
            vesting_cliff_seconds: VESTING_CLIFF_SECONDS,
            vesting_duration_seconds: VESTING_DURATION_SECONDS,
            vesting_claim_interval_seconds: VESTING_CLAIM_INTERVAL_SECONDS,
            launch_cooldown_seconds: LAUNCH_COOLDOWN_SECONDS,
            creator_allocation_bps: CREATOR_ALLOCATION_BPS,
        },
    )
}

} // verus!
