//! Selling tokens back to a market's bonding curve.

use vstd::prelude::*;

verus! {

use crate::errors::ErrorCode;
use crate::math;
use crate::math::{spec_creator_share, spec_fee, spec_platform_share, spec_sell_sol};
use crate::state::{BondingCurve, GlobalConfig};

/// Native currency the curve owes for `token_amount` put in, before the fee
/// comes off.
pub open spec fn spec_gross_sol_out(curve: BondingCurve, token_amount: int) -> int {
    spec_sell_sol(
        curve.virtual_sol_reserves as int,
        curve.virtual_token_reserves as int,
        token_amount,
    )
}

/// Whether crediting a sell of `token_amount` to `curve` would push a 64-bit
/// counter past its maximum.
pub open spec fn spec_sell_overflows(config: GlobalConfig, curve: BondingCurve, token_amount: int) -> bool {
    let total_fee = spec_fee(spec_gross_sol_out(curve, token_amount), config.fee_bps as int);
    ||| curve.virtual_token_reserves + token_amount > u64::MAX
    ||| curve.platform_fees_accrued + spec_platform_share(total_fee) > u64::MAX
    ||| curve.creator_fees_accrued + spec_creator_share(total_fee) > u64::MAX
}

/// Sells `token_amount` of tokens back to the curve for native currency.
///
/// The fee is taken from the gross curve payout, split half to the platform
/// (rounded down) and the rest to the creator, and accrued as a liability;
/// the seller receives the net remainder while the whole gross amount leaves
/// the price curve. The caller passes the market custody's actual balance and
/// the externally imposed floor that balance must keep after the payout.
/// Fails on slippage below `min_sol_out`, on a gross payout exceeding the
/// market's custodied native currency, on a net payout the custody balance
/// cannot cover or that would breach the floor, or on a counter overflow; an
/// error leaves the market untouched. On success the caller owes the custody
/// layer two movements: `token_amount` from the seller into the market's
/// custody, and the returned net amount from the market's custody to the
/// seller.
///
/// The token ledger guarantees no seller can present more tokens than exist
/// outside the market's custody, so `token_amount` is bounded by the supply
/// not already held by the market.
pub fn handler(
    config: &GlobalConfig,
    curve: &mut BondingCurve,
    token_amount: u64,
    min_sol_out: u64,
    custody_balance: u64,
    custody_floor: u64,
) -> (r: Result<u64, ErrorCode>)
    requires
        config.wf(),
        old(curve).wf(),
        token_amount + old(curve).real_token_reserves <= old(curve).token_total_supply,
    ensures
        final(curve).wf(),
        r is Err ==> *final(curve) == *old(curve),
        ({
            let gross = spec_gross_sol_out(*old(curve), token_amount as int);
            let total_fee = spec_fee(gross, config.fee_bps as int);
            let net = gross - total_fee;
            &&& (net < min_sol_out ==> r == Err::<u64, ErrorCode>(ErrorCode::SlippageExceeded))
            &&& (net >= min_sol_out && gross > old(curve).real_sol_reserves ==> r
                == Err::<u64, ErrorCode>(ErrorCode::InsufficientReserves))
            &&& (net >= min_sol_out && gross <= old(curve).real_sol_reserves && net
                > custody_balance ==> r == Err::<u64, ErrorCode>(ErrorCode::MathOverflow))
            &&& (net >= min_sol_out && gross <= old(curve).real_sol_reserves && net
                <= custody_balance && custody_balance - net < custody_floor ==> r
                == Err::<u64, ErrorCode>(ErrorCode::InsufficientReserves))
            &&& (net >= min_sol_out && gross <= old(curve).real_sol_reserves && net
                <= custody_balance && custody_balance - net >= custody_floor
                && spec_sell_overflows(*config, *old(curve), token_amount as int) ==> r
                == Err::<u64, ErrorCode>(ErrorCode::MathOverflow))
            &&& (net >= min_sol_out && gross <= old(curve).real_sol_reserves && net
                <= custody_balance && custody_balance - net >= custody_floor
                && !spec_sell_overflows(*config, *old(curve), token_amount as int) ==> r is Ok)
            &&& (r is Ok ==> {
                &&& r->Ok_0 == net
                &&& custody_balance - net >= custody_floor
                &&& final(curve).virtual_sol_reserves == old(curve).virtual_sol_reserves - gross
                &&& final(curve).virtual_token_reserves == old(curve).virtual_token_reserves
                    + token_amount
                &&& final(curve).real_sol_reserves == old(curve).real_sol_reserves - gross
                &&& final(curve).real_token_reserves == old(curve).real_token_reserves
                    + token_amount
                &&& final(curve).platform_fees_accrued == old(curve).platform_fees_accrued
                    + spec_platform_share(total_fee)
                &&& final(curve).creator_fees_accrued == old(curve).creator_fees_accrued
                    + spec_creator_share(total_fee)
                &&& final(curve).token_mint == old(curve).token_mint
                &&& final(curve).creator == old(curve).creator
                &&& final(curve).token_total_supply == old(curve).token_total_supply
                &&& final(curve).burn_sol_price == old(curve).burn_sol_price
            })
        }),
{
    let gross_sol_out: u64 = match math::calculate_sell_sol(
        curve.virtual_sol_reserves,
        curve.virtual_token_reserves,
        token_amount,
    ) {
        Ok(sol) => sol,
        Err(code) => return Err(code),
    };

    let total_fee: u64 = match math::calculate_fee(gross_sol_out, config.fee_bps) {
        Ok(fee) => fee,
        Err(code) => return Err(code),
    };
    let platform_fee: u64 = total_fee / 2;
    let creator_fee: u64 = total_fee - platform_fee;
    let net_sol_out: u64 = gross_sol_out - total_fee;

    if net_sol_out < min_sol_out {
        return Err(ErrorCode::SlippageExceeded);
    }
    if gross_sol_out > curve.real_sol_reserves {
        return Err(ErrorCode::InsufficientReserves);
    }

    // The market's own custody must keep the externally imposed floor after
    // paying the seller.
    let remaining_custody: u64 = match custody_balance.checked_sub(net_sol_out) {
        Some(value) => value,
        None => return Err(ErrorCode::MathOverflow),
    };

    if remaining_custody < custody_floor {
        return Err(ErrorCode::InsufficientReserves);
    }

    let new_virtual_token: u64 = match curve.virtual_token_reserves.checked_add(token_amount) {
        Some(value) => value,
        None => return Err(ErrorCode::MathOverflow),
    };
    let new_platform_fees: u64 = match curve.platform_fees_accrued.checked_add(platform_fee) {
        Some(value) => value,
        None => return Err(ErrorCode::MathOverflow),
    };
    let new_creator_fees: u64 = match curve.creator_fees_accrued.checked_add(creator_fee) {
        Some(value) => value,
        None => return Err(ErrorCode::MathOverflow),
    };

    proof {
        math::lemma_sell_sol_bounds(
            curve.virtual_sol_reserves as int,
            curve.virtual_token_reserves as int,
            token_amount as int,
        );
    }
    curve.virtual_sol_reserves = curve.virtual_sol_reserves - gross_sol_out;
    curve.virtual_token_reserves = new_virtual_token;
    curve.real_sol_reserves = curve.real_sol_reserves - gross_sol_out;
    curve.real_token_reserves = curve.real_token_reserves + token_amount;
    curve.platform_fees_accrued = new_platform_fees;
    curve.creator_fees_accrued = new_creator_fees;

    Ok(net_sol_out)
}

} // verus!
