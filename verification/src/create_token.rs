//! Launching a new token: one market and one vesting schedule per token,
//! gated by the per-creator cooldown.

use vstd::prelude::*;

verus! {

use vstd::arithmetic::div_mod::{
    lemma_div_is_ordered,
    lemma_div_multiples_vanish,
    lemma_div_pos_is_pos,
};
use vstd::arithmetic::mul::{
    lemma_mul_inequality,
    lemma_mul_is_commutative,
    lemma_mul_nonnegative,
};
use crate::errors::ErrorCode;
use crate::state::{BondingCurve, CreatorProfile, GlobalConfig, VestingAccount};

/// Fixed supply minted for every new token: one billion whole tokens carrying
/// six decimal places. Minting happens once at launch; the minting capability
/// is revoked immediately after, so the supply only ever shrinks.
pub const TOKEN_TOTAL_SUPPLY: u64 = 1_000_000_000_000_000;

/// Share of the fixed supply set aside for the creator's vesting schedule,
/// rounded down.
pub open spec fn spec_vesting_amount(creator_allocation_bps: int) -> int {
    (TOKEN_TOTAL_SUPPLY * creator_allocation_bps) / 10_000
}

/// Whether the cooldown turns a launch by this creator away at `now`: only a
/// creator who has launched before is gated, and only until a full cooldown
/// has elapsed since the last launch.
pub open spec fn spec_cooldown_blocked(config: GlobalConfig, profile: CreatorProfile, now: int) -> bool {
    profile.tokens_launched > 0 && now - profile.last_token_launch_timestamp
        < config.launch_cooldown_seconds
}

/// After a launch at `launch_time`, a second launch by the same creator is
/// blocked strictly before a full cooldown has elapsed, and admitted from the
/// instant exactly one cooldown later on.
pub proof fn lemma_second_launch_cooldown(
    config: GlobalConfig,
    profile: CreatorProfile,
    launch_time: i64,
    now: i64,
)
    requires
        profile.last_token_launch_timestamp == launch_time,
        profile.tokens_launched > 0,
        launch_time <= now,
    ensures
        spec_cooldown_blocked(config, profile, now as int) <==> now - launch_time
            < config.launch_cooldown_seconds,
{
}

/// Launches a token: admits the creator past the cooldown, carves the fixed
/// supply into the curve's stock and the creator's vesting allocation, and
/// returns the new market and vesting schedule.
///
/// The market starts at the configured virtual reserves with the curve's
/// share in its real token reserve and no native currency; the vesting
/// schedule starts at `now` with nothing claimed. The creator's profile
/// records the launch. An error leaves the profile untouched. On success the
/// caller owes the custody layer three actions: mint the full supply into the
/// market's custody, move the vesting allocation from there into the vesting
/// custody, and permanently revoke the minting capability.
pub fn handler(
    config: &GlobalConfig,
    profile: &mut CreatorProfile,
    creator: u64,
    token_mint: u64,
    now: i64,
    burn_sol_price: u64,
) -> (r: Result<(BondingCurve, VestingAccount), ErrorCode>)
    requires
        config.wf(),
    ensures
        r is Err ==> *final(profile) == *old(profile),
        ({
            let elapsed = now - old(profile).last_token_launch_timestamp;
            &&& (old(profile).tokens_launched > 0 && (elapsed > i64::MAX || elapsed < i64::MIN)
                ==> r == Err::<(BondingCurve, VestingAccount), ErrorCode>(
                ErrorCode::MathOverflow,
            ))
            &&& (old(profile).tokens_launched > 0 && i64::MIN <= elapsed <= i64::MAX
                && spec_cooldown_blocked(*config, *old(profile), now as int) ==> r
                == Err::<(BondingCurve, VestingAccount), ErrorCode>(
                ErrorCode::CooldownNotElapsed,
            ))
            &&& ((old(profile).tokens_launched == 0 || (i64::MIN <= elapsed <= i64::MAX
                && !spec_cooldown_blocked(*config, *old(profile), now as int))) ==> {
                if old(profile).tokens_launched == u32::MAX {
                    r == Err::<(BondingCurve, VestingAccount), ErrorCode>(
                        ErrorCode::MathOverflow,
                    )
                } else {
                    r is Ok
                }
            })
            &&& (r is Ok ==> {
                let vesting_amount = spec_vesting_amount(config.creator_allocation_bps as int);
                &&& r->Ok_0.0 == (BondingCurve {
                    token_mint,
                    creator,
                    virtual_token_reserves: config.initial_virtual_token_reserves,
                    virtual_sol_reserves: config.initial_virtual_sol_reserves,
                    real_token_reserves: (TOKEN_TOTAL_SUPPLY - vesting_amount) as u64,
                    real_sol_reserves: 0u64,
                    token_total_supply: TOKEN_TOTAL_SUPPLY,
                    burn_sol_price,
                    platform_fees_accrued: 0u64,
                    creator_fees_accrued: 0u64,
                })
                &&& r->Ok_0.1 == (VestingAccount {
                    creator,
                    token_mint,
                    total_allocation: vesting_amount as u64,
                    claimed_amount: 0u64,
                    start_timestamp: now,
                    is_revoked: false,
                })
                &&& r->Ok_0.0.wf()
                &&& r->Ok_0.1.wf()
                // The whole vesting allocation sits outside the market's
                // custody but inside the supply: what a later revoke relies
                // on.
                &&& r->Ok_0.1.total_allocation == r->Ok_0.0.token_total_supply
                    - r->Ok_0.0.real_token_reserves
                &&& *final(profile) == (CreatorProfile {
                    creator,
                    last_token_launch_timestamp: now,
                    tokens_launched: (old(profile).tokens_launched + 1) as u32,
                })
            })
        }),
{
    if profile.tokens_launched > 0 {
        let elapsed: i64 = match now.checked_sub(profile.last_token_launch_timestamp) {
            Some(value) => value,
            None => return Err(ErrorCode::MathOverflow),
        };
        if elapsed < config.launch_cooldown_seconds {
            return Err(ErrorCode::CooldownNotElapsed);
        }
    }

    let allocation_bps: u64 = config.creator_allocation_bps as u64;
    proof {
        assert(TOKEN_TOTAL_SUPPLY * allocation_bps <= u64::MAX) by (nonlinear_arith)
            requires
                allocation_bps <= 10_000u64,
        ;
        // The allocation is at most the whole supply.
        lemma_mul_nonnegative(TOKEN_TOTAL_SUPPLY as int, allocation_bps as int);
        lemma_div_pos_is_pos(TOKEN_TOTAL_SUPPLY as int * allocation_bps as int, 10_000int);
        lemma_mul_inequality(allocation_bps as int, 10_000int, TOKEN_TOTAL_SUPPLY as int);
        lemma_mul_is_commutative(allocation_bps as int, TOKEN_TOTAL_SUPPLY as int);
        lemma_div_is_ordered(
            TOKEN_TOTAL_SUPPLY as int * allocation_bps as int,
            10_000int * TOKEN_TOTAL_SUPPLY as int,
            10_000int,
        );
        lemma_div_multiples_vanish(TOKEN_TOTAL_SUPPLY as int, 10_000int);
    }
    let vesting_amount: u64 = (TOKEN_TOTAL_SUPPLY * allocation_bps) / 10_000;
    let curve_amount: u64 = TOKEN_TOTAL_SUPPLY - vesting_amount;

    let new_launch_count: u32 = match profile.tokens_launched.checked_add(1) {
        Some(value) => value,
        None => return Err(ErrorCode::MathOverflow),
    };

    profile.creator = creator;
    profile.last_token_launch_timestamp = now;
    profile.tokens_launched = new_launch_count;

    Ok(
        (
            BondingCurve {
                token_mint,
                creator,
                virtual_token_reserves: config.initial_virtual_token_reserves,
                virtual_sol_reserves: config.initial_virtual_sol_reserves,
                real_token_reserves: curve_amount,
                real_sol_reserves: 0,
                token_total_supply: TOKEN_TOTAL_SUPPLY,
                burn_sol_price,
                platform_fees_accrued: 0,
                creator_fees_accrued: 0,
            },
            VestingAccount {
                creator,
                token_mint,
                total_allocation: vesting_amount,
                claimed_amount: 0,
                start_timestamp: now,
                is_revoked: false,
            },
        ),
    )
}

} // verus!
