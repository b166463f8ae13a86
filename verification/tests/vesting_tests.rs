//! Tests of the vesting engine: claims against elapsed time, and revocation.

use baremint::claim_vested;
use baremint::create_token;
use baremint::errors::ErrorCode;
use baremint::initialize;
use baremint::revoke_vesting;
use baremint::state::BondingCurve;
use baremint::state::CreatorProfile;
use baremint::state::GlobalConfig;
use baremint::state::VestingAccount;

const AUTHORITY: u64 = 1;
const CREATOR: u64 = 2;
const TOKEN: u64 = 3;
const CLIFF: i64 = 2_592_000;
const DURATION: i64 = 5_184_000;

fn default_config() -> GlobalConfig {
    initialize::handler(AUTHORITY, 500, 250, 250, 1_073_000_000_000_000, 30_000_000_000).unwrap()
}

fn small_schedule() -> VestingAccount {
    VestingAccount {
        creator: CREATOR,
        token_mint: TOKEN,
        total_allocation: 100_000_000,
        claimed_amount: 0,
        start_timestamp: 0,
        is_revoked: false,
    }
}

fn launched_pair() -> (BondingCurve, VestingAccount) {
    let config = default_config();
    let mut profile = CreatorProfile {
        creator: CREATOR,
        last_token_launch_timestamp: 0,
        tokens_launched: 0,
    };
    create_token::handler(&config, &mut profile, CREATOR, TOKEN, 1_000, 0).unwrap()
}

#[test]
fn test_claim_snaps_to_whole_intervals() {
    let config = default_config();
    let mut vesting = small_schedule();

    // 900,000 s past the cliff is one whole 604,800 s interval; the linear
    // share of 100,000,000 over 5,184,000 s is 11,666,666 (rounded down).
    let now = CLIFF + 900_000;
    let claimed = claim_vested::handler(&config, &mut vesting, CREATOR, now).unwrap();
    assert_eq!(claimed, 11_666_666);
    assert_eq!(vesting.claimed_amount, 11_666_666);

    // Nothing more has vested an instant later.
    let again = claim_vested::handler(&config, &mut vesting, CREATOR, now);
    assert_eq!(again, Err(ErrorCode::VestingFullyClaimed));
    assert_eq!(vesting.claimed_amount, 11_666_666);
}

#[test]
fn test_claim_caps_at_snapped_duration() {
    let config = default_config();
    let mut vesting = small_schedule();
    // The duration is not a whole number of intervals: 5,184,000 s snaps down
    // to 8 * 604,800 s, so exactly 8 intervals' worth ever unlocks.
    let claimed =
        claim_vested::handler(&config, &mut vesting, CREATOR, CLIFF + DURATION).unwrap();
    assert_eq!(claimed, 93_333_333);
    assert_eq!(vesting.claimed_amount, 93_333_333);

    // Long after the end, nothing further unlocks.
    let later = claim_vested::handler(&config, &mut vesting, CREATOR, CLIFF + 10 * DURATION);
    assert_eq!(later, Err(ErrorCode::VestingFullyClaimed));
}

#[test]
fn test_claim_in_steps_is_monotonic() {
    let config = default_config();
    let mut vesting = small_schedule();
    let first =
        claim_vested::handler(&config, &mut vesting, CREATOR, CLIFF + 604_800).unwrap();
    let second =
        claim_vested::handler(&config, &mut vesting, CREATOR, CLIFF + 3 * 604_800).unwrap();
    assert_eq!(first, 11_666_666);
    // Three intervals vest exactly 35% of the allocation; the second claim
    // pays the difference.
    assert_eq!(second, 35_000_000 - first);
    assert_eq!(vesting.claimed_amount, 35_000_000);
}

#[test]
fn test_claim_before_cliff_rejected() {
    let config = default_config();
    let mut vesting = small_schedule();
    let result = claim_vested::handler(&config, &mut vesting, CREATOR, CLIFF - 1);
    assert_eq!(result, Err(ErrorCode::VestingCliffNotReached));
    assert_eq!(vesting, small_schedule());
}

#[test]
fn test_claim_requires_creator() {
    let config = default_config();
    let mut vesting = small_schedule();
    let result = claim_vested::handler(&config, &mut vesting, AUTHORITY, CLIFF + DURATION);
    assert_eq!(result, Err(ErrorCode::Unauthorized));
    assert_eq!(vesting, small_schedule());
}

#[test]
fn test_claim_timestamp_overflow_rejected() {
    let config = default_config();
    let mut vesting = small_schedule();
    vesting.start_timestamp = i64::MAX;
    let result = claim_vested::handler(&config, &mut vesting, CREATOR, i64::MAX);
    assert_eq!(result, Err(ErrorCode::MathOverflow));
}

#[test]
fn test_claim_behind_recorded_progress_rejected() {
    let config = default_config();
    let mut vesting = small_schedule();
    // More already claimed than one interval ever vests: a clock that runs
    // backwards between calls cannot un-claim, it fails arithmetically.
    vesting.claimed_amount = 50_000_000;
    let before = vesting;
    let result = claim_vested::handler(&config, &mut vesting, CREATOR, CLIFF + 604_800);
    assert_eq!(result, Err(ErrorCode::MathOverflow));
    assert_eq!(vesting, before);
}

#[test]
fn test_revoke_is_idempotent() {
    let config = default_config();
    let (mut curve, mut vesting) = launched_pair();
    let supply_before = curve.token_total_supply;

    // The whole 10% allocation is unvested and destroyed exactly once.
    let burned =
        revoke_vesting::handler(&config, &mut vesting, &mut curve, AUTHORITY).unwrap();
    assert_eq!(burned, 100_000_000_000_000);
    assert!(vesting.is_revoked);
    assert_eq!(curve.token_total_supply, supply_before - burned);

    let vesting_after = vesting;
    let curve_after = curve;

    // The second revoke succeeds, destroys nothing, and changes nothing.
    let second = revoke_vesting::handler(&config, &mut vesting, &mut curve, AUTHORITY).unwrap();
    assert_eq!(second, 0);
    assert_eq!(vesting, vesting_after);
    assert_eq!(curve, curve_after);
}

#[test]
fn test_revoke_after_partial_claim_destroys_remainder() {
    let config = default_config();
    let (mut curve, mut vesting) = launched_pair();

    // One interval past the cliff: 604,800/5,184,000 of the allocation.
    let now = 1_000 + CLIFF + 604_800;
    let claimed = claim_vested::handler(&config, &mut vesting, CREATOR, now).unwrap();
    // floor(100e12 * 604,800 / 5,184,000)
    assert_eq!(claimed, 11_666_666_666_666);
    let burned =
        revoke_vesting::handler(&config, &mut vesting, &mut curve, AUTHORITY).unwrap();
    assert_eq!(burned, 100_000_000_000_000 - claimed);

    // The claimed tokens stay outstanding; only the unvested leave the
    // supply.
    assert_eq!(curve.token_total_supply, 1_000_000_000_000_000 - burned);
}

#[test]
fn test_revoke_requires_authority() {
    let config = default_config();
    let (mut curve, mut vesting) = launched_pair();
    let curve_before = curve;
    let vesting_before = vesting;
    let result = revoke_vesting::handler(&config, &mut vesting, &mut curve, CREATOR);
    assert_eq!(result, Err(ErrorCode::Unauthorized));
    assert_eq!(curve, curve_before);
    assert_eq!(vesting, vesting_before);
}

#[test]
fn test_claim_after_revoke_rejected() {
    let config = default_config();
    let (mut curve, mut vesting) = launched_pair();
    revoke_vesting::handler(&config, &mut vesting, &mut curve, AUTHORITY).unwrap();
    let result =
        claim_vested::handler(&config, &mut vesting, CREATOR, 1_000 + CLIFF + DURATION);
    assert_eq!(result, Err(ErrorCode::VestingRevoked));
}
