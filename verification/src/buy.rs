//! Buying tokens from a market's bonding curve.

use vstd::prelude::*;

verus! {

use crate::errors::ErrorCode;
use crate::math;
use crate::math::{spec_buy_tokens, spec_creator_share, spec_fee, spec_platform_share};
use crate::state::{BondingCurve, GlobalConfig};

/// Tokens the curve owes for a payment of `sol_amount`, after the fee is
/// taken off the top.
pub open spec fn spec_buy_tokens_out(config: GlobalConfig, curve: BondingCurve, sol_amount: int) -> int {
    spec_buy_tokens(
        curve.virtual_sol_reserves as int,
        curve.virtual_token_reserves as int,
        sol_amount - spec_fee(sol_amount, config.fee_bps as int),
    )
}

/// Whether crediting a buy of `sol_amount` to `curve` would push a 64-bit
/// counter past its maximum.
pub open spec fn spec_buy_overflows(config: GlobalConfig, curve: BondingCurve, sol_amount: int) -> bool {
    let total_fee = spec_fee(sol_amount, config.fee_bps as int);
    let sol_into_curve = sol_amount - total_fee;
    ||| curve.virtual_sol_reserves + sol_into_curve > u64::MAX
    ||| curve.real_sol_reserves + sol_into_curve > u64::MAX
    ||| curve.platform_fees_accrued + spec_platform_share(total_fee) > u64::MAX
    ||| curve.creator_fees_accrued + spec_creator_share(total_fee) > u64::MAX
}

/// Buys tokens from the curve with `sol_amount` of native currency.
///
/// The fee is taken from the payment, split half to the platform (rounded
/// down) and the rest to the creator, and accrued as a liability; only the
/// remainder enters the curve. Fails on slippage below `min_tokens_out`, on a
/// payout exceeding the market's custodied tokens, or on a counter overflow;
/// an error leaves the market untouched. On success the caller owes the
/// custody layer two movements: `sol_amount` from the buyer into the market's
/// custody, and the returned token amount from the market's custody to the
/// buyer.
pub fn handler(
    config: &GlobalConfig,
    curve: &mut BondingCurve,
    sol_amount: u64,
    min_tokens_out: u64,
) -> (r: Result<u64, ErrorCode>)
    requires
        config.wf(),
        old(curve).wf(),
    ensures
        final(curve).wf(),
        r is Err ==> *final(curve) == *old(curve),
        ({
            let total_fee = spec_fee(sol_amount as int, config.fee_bps as int);
            let sol_into_curve = sol_amount - total_fee;
            let tokens_out = spec_buy_tokens_out(*config, *old(curve), sol_amount as int);
            &&& (tokens_out < min_tokens_out <==> r == Err::<u64, ErrorCode>(
                ErrorCode::SlippageExceeded,
            ))
            &&& (tokens_out >= min_tokens_out && tokens_out > old(curve).real_token_reserves
                <==> r == Err::<u64, ErrorCode>(ErrorCode::InsufficientReserves))
            &&& (tokens_out >= min_tokens_out && tokens_out <= old(curve).real_token_reserves
                && spec_buy_overflows(*config, *old(curve), sol_amount as int) <==> r
                == Err::<u64, ErrorCode>(ErrorCode::MathOverflow))
            &&& (tokens_out >= min_tokens_out && tokens_out <= old(curve).real_token_reserves
                && !spec_buy_overflows(*config, *old(curve), sol_amount as int) ==> r is Ok)
            &&& (r is Ok ==> {
                &&& r->Ok_0 == tokens_out
                &&& final(curve).virtual_sol_reserves == old(curve).virtual_sol_reserves
                    + sol_into_curve
                &&& final(curve).virtual_token_reserves == old(curve).virtual_token_reserves
                    - tokens_out
                &&& final(curve).real_sol_reserves == old(curve).real_sol_reserves
                    + sol_into_curve
                &&& final(curve).real_token_reserves == old(curve).real_token_reserves
                    - tokens_out
                &&& final(curve).platform_fees_accrued == old(curve).platform_fees_accrued
                    + spec_platform_share(total_fee)
                &&& final(curve).creator_fees_accrued == old(curve).creator_fees_accrued
                    + spec_creator_share(total_fee)
                &&& final(curve).token_mint == old(curve).token_mint
                &&& final(curve).creator == old(curve).creator
                &&& final(curve).token_total_supply == old(curve).token_total_supply
                &&& final(curve).burn_sol_price == old(curve).burn_sol_price
            })
        }),
{
    let total_fee: u64 = match math::calculate_fee(sol_amount, config.fee_bps) {
        Ok(fee) => fee,
        Err(code) => return Err(code),
    };
    let platform_fee: u64 = total_fee / 2;
    let creator_fee: u64 = total_fee - platform_fee;
    let sol_into_curve: u64 = sol_amount - total_fee;

    let tokens_out: u64 = match math::calculate_buy_tokens(
        curve.virtual_sol_reserves,
        curve.virtual_token_reserves,
        sol_into_curve,
    ) {
        Ok(tokens) => tokens,
        Err(code) => return Err(code),
    };

    if tokens_out < min_tokens_out {
        return Err(ErrorCode::SlippageExceeded);
    }
    if tokens_out > curve.real_token_reserves {
        return Err(ErrorCode::InsufficientReserves);
    }

    let new_virtual_sol: u64 = match curve.virtual_sol_reserves.checked_add(sol_into_curve) {
        Some(value) => value,
        None => return Err(ErrorCode::MathOverflow),
    };
    let new_real_sol: u64 = match curve.real_sol_reserves.checked_add(sol_into_curve) {
        Some(value) => value,
        None => return Err(ErrorCode::MathOverflow),
    };
    let new_platform_fees: u64 = match curve.platform_fees_accrued.checked_add(platform_fee) {
        Some(value) => value,
        None => return Err(ErrorCode::MathOverflow),
    };
    let new_creator_fees: u64 = match curve.creator_fees_accrued.checked_add(creator_fee) {
        Some(value) => value,
        None => return Err(ErrorCode::MathOverflow),
    };

    proof {
        math::lemma_buy_tokens_bounds(
            curve.virtual_sol_reserves as int,
            curve.virtual_token_reserves as int,
            sol_into_curve as int,
        );
    }
    curve.virtual_sol_reserves = new_virtual_sol;
    curve.virtual_token_reserves = curve.virtual_token_reserves - tokens_out;
    curve.real_sol_reserves = new_real_sol;
    curve.real_token_reserves = curve.real_token_reserves - tokens_out;
    curve.platform_fees_accrued = new_platform_fees;
    curve.creator_fees_accrued = new_creator_fees;

    Ok(tokens_out)
}

} // verus!
