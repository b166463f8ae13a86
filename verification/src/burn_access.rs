//! Burn-for-access: a viewer permanently destroys tokens worth the market's
//! burn price to gain access, shrinking the supply and raising the price of
//! every remaining token.

use vstd::prelude::*;

verus! {

use crate::errors::ErrorCode;
use crate::math;
use crate::math::{
    spec_creator_share,
    spec_fee,
    spec_platform_share,
    spec_tokens_for_sol_value,
};
use crate::state::{BondingCurve, GlobalConfig};

/// Tokens a viewer must burn: the market's burn price converted to tokens at
/// the current virtual reserves, rounded up.
pub open spec fn spec_burn_tokens(curve: BondingCurve) -> int {
    spec_tokens_for_sol_value(
        curve.virtual_sol_reserves as int,
        curve.virtual_token_reserves as int,
        curve.burn_sol_price as int,
    )
}

/// Whether the burn quote can be computed at all: the native-currency side of
/// the curve must be non-empty and the quote must fit the 64-bit amount type.
pub open spec fn spec_burn_quote_ok(curve: BondingCurve) -> bool {
    curve.virtual_sol_reserves > 0 && spec_burn_tokens(curve) <= u64::MAX
}

/// Whether booking the burn would underflow a reserve or overflow a fee
/// counter. The fee is funded from the market's existing native-currency
/// float, so it must not exceed either the real or the virtual reserve.
pub open spec fn spec_burn_overflows(config: GlobalConfig, curve: BondingCurve) -> bool {
    let total_fee = spec_fee(curve.burn_sol_price as int, config.fee_bps as int);
    ||| spec_burn_tokens(curve) > curve.real_token_reserves
    ||| total_fee > curve.real_sol_reserves
    ||| total_fee > curve.virtual_sol_reserves
    ||| curve.platform_fees_accrued + spec_platform_share(total_fee) > u64::MAX
    ||| curve.creator_fees_accrued + spec_creator_share(total_fee) > u64::MAX
}

/// Burns tokens worth the market's burn price out of the viewer's balance.
///
/// Disabled entirely while the burn price is zero. No native currency
/// arrives: the fee on the burn price is funded from the market's existing
/// float, debiting both the real and the virtual native-currency reserves,
/// while the burned tokens leave the real reserve and the total supply with
/// the virtual token reserve deliberately unchanged — the price per remaining
/// token strictly increases. Any reserve underflow or counter overflow aborts
/// the whole operation; an error leaves the market untouched. On success the
/// caller owes the token ledger one action: destroy the returned token amount
/// from the viewer's balance.
pub fn handler(
    config: &GlobalConfig,
    curve: &mut BondingCurve,
    viewer_token_balance: u64,
) -> (r: Result<u64, ErrorCode>)
    requires
        config.wf(),
        old(curve).wf(),
    ensures
        final(curve).wf(),
        r is Err ==> *final(curve) == *old(curve),
        ({
            let tokens_to_burn = spec_burn_tokens(*old(curve));
            let total_fee = spec_fee(old(curve).burn_sol_price as int, config.fee_bps as int);
            &&& (old(curve).burn_sol_price == 0 ==> r == Err::<u64, ErrorCode>(
                ErrorCode::BurnDisabled,
            ))
            &&& (old(curve).burn_sol_price > 0 && !spec_burn_quote_ok(*old(curve)) ==> r
                == Err::<u64, ErrorCode>(ErrorCode::MathOverflow))
            &&& (old(curve).burn_sol_price > 0 && spec_burn_quote_ok(*old(curve))
                && viewer_token_balance < tokens_to_burn ==> r == Err::<u64, ErrorCode>(
                ErrorCode::InsufficientTokens,
            ))
            &&& (old(curve).burn_sol_price > 0 && spec_burn_quote_ok(*old(curve))
                && viewer_token_balance >= tokens_to_burn && spec_burn_overflows(
                *config,
                *old(curve),
            ) ==> r == Err::<u64, ErrorCode>(ErrorCode::MathOverflow))
            &&& (old(curve).burn_sol_price > 0 && spec_burn_quote_ok(*old(curve))
                && viewer_token_balance >= tokens_to_burn && !spec_burn_overflows(
                *config,
                *old(curve),
            ) ==> r is Ok)
            &&& (r is Ok ==> {
                &&& r->Ok_0 == tokens_to_burn
                &&& final(curve).real_token_reserves == old(curve).real_token_reserves
                    - tokens_to_burn
                &&& final(curve).real_sol_reserves == old(curve).real_sol_reserves - total_fee
                &&& final(curve).virtual_sol_reserves == old(curve).virtual_sol_reserves
                    - total_fee
                &&& final(curve).virtual_token_reserves == old(curve).virtual_token_reserves
                &&& final(curve).token_total_supply == old(curve).token_total_supply
                    - tokens_to_burn
                &&& final(curve).platform_fees_accrued == old(curve).platform_fees_accrued
                    + spec_platform_share(total_fee)
                &&& final(curve).creator_fees_accrued == old(curve).creator_fees_accrued
                    + spec_creator_share(total_fee)
                &&& final(curve).token_mint == old(curve).token_mint
                &&& final(curve).creator == old(curve).creator
                &&& final(curve).burn_sol_price == old(curve).burn_sol_price
            })
        }),
{
    if curve.burn_sol_price == 0 {
        return Err(ErrorCode::BurnDisabled);
    }

    let tokens_to_burn: u64 = match math::calculate_tokens_for_sol_value(
        curve.virtual_sol_reserves,
        curve.virtual_token_reserves,
        curve.burn_sol_price,
    ) {
        Ok(tokens) => tokens,
        Err(code) => return Err(code),
    };

    if viewer_token_balance < tokens_to_burn {
        return Err(ErrorCode::InsufficientTokens);
    }

    let total_fee: u64 = match math::calculate_fee(curve.burn_sol_price, config.fee_bps) {
        Ok(fee) => fee,
        Err(code) => return Err(code),
    };
    let platform_fee: u64 = total_fee / 2;
    let creator_fee: u64 = total_fee - platform_fee;

    let new_real_token: u64 = match curve.real_token_reserves.checked_sub(tokens_to_burn) {
        Some(value) => value,
        None => return Err(ErrorCode::MathOverflow),
    };
    let new_real_sol: u64 = match curve.real_sol_reserves.checked_sub(total_fee) {
        Some(value) => value,
        None => return Err(ErrorCode::MathOverflow),
    };
    let new_virtual_sol: u64 = match curve.virtual_sol_reserves.checked_sub(total_fee) {
        Some(value) => value,
        None => return Err(ErrorCode::MathOverflow),
    };
    // The supply covers the market's own token custody, so it covers the burn
    // whenever the custody did.
    let new_total_supply: u64 = curve.token_total_supply - tokens_to_burn;
    let new_platform_fees: u64 = match curve.platform_fees_accrued.checked_add(platform_fee) {
        Some(value) => value,
        None => return Err(ErrorCode::MathOverflow),
    };
    let new_creator_fees: u64 = match curve.creator_fees_accrued.checked_add(creator_fee) {
        Some(value) => value,
        None => return Err(ErrorCode::MathOverflow),
    };

    curve.real_token_reserves = new_real_token;
    curve.real_sol_reserves = new_real_sol;
    curve.virtual_sol_reserves = new_virtual_sol;
    curve.token_total_supply = new_total_supply;
    curve.platform_fees_accrued = new_platform_fees;
    curve.creator_fees_accrued = new_creator_fees;

    Ok(tokens_to_burn)
}

} // verus!
