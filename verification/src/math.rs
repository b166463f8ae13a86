//! Pricing engine: pure constant-product curve arithmetic.
//!
//! All four functions compute every intermediate value in 128-bit unsigned
//! arithmetic before narrowing to the externally visible 64-bit amount type,
//! and each is proved equal to its mathematical specification. Rounding always
//! favors the protocol: trades round down, fees and burn quotes round up.

use vstd::prelude::*;

verus! {

use vstd::arithmetic::div_mod::{
    lemma_div_is_ordered,
    lemma_div_multiples_vanish,
    lemma_div_pos_is_pos,
    lemma_fundamental_div_mod,
    lemma_fundamental_div_mod_converse_div,
    lemma_mod_division_less_than_divisor,
    lemma_multiply_divide_lt,
};
use vstd::arithmetic::mul::{
    lemma_mul_inequality,
    lemma_mul_is_commutative,
    lemma_mul_is_distributive_sub_other_way,
    lemma_mul_nonnegative,
    lemma_mul_strict_inequality,
};
use crate::errors::ErrorCode;

/// Denominator of every basis-point ratio: 10,000 bps = 100%.
pub const BPS_DENOMINATOR: u64 = 10_000;

/// Tokens paid out for `sol_amount` put into the curve at virtual reserves
/// `(virtual_sol, virtual_token)`: the constant product `virtual_sol *
/// virtual_token` is preserved and the payout is rounded down, in the
/// protocol's favor.
pub open spec fn spec_buy_tokens(virtual_sol: int, virtual_token: int, sol_amount: int) -> int {
    if sol_amount == 0 {
        0
    } else {
        virtual_token - (virtual_sol * virtual_token) / (virtual_sol + sol_amount)
    }
}

/// Native currency paid out for `token_amount` put into the curve at virtual
/// reserves `(virtual_sol, virtual_token)`: symmetric to `spec_buy_tokens`,
/// rounded down in the protocol's favor.
pub open spec fn spec_sell_sol(virtual_sol: int, virtual_token: int, token_amount: int) -> int {
    if token_amount == 0 {
        0
    } else {
        virtual_sol - (virtual_sol * virtual_token) / (virtual_token + token_amount)
    }
}

/// Fee owed on `amount` at `bps` basis points: `ceil(amount * bps / 10_000)`,
/// rounded up in the protocol's favor; zero whenever either input is zero.
pub open spec fn spec_fee(amount: int, bps: int) -> int {
    if amount == 0 || bps == 0 {
        0
    } else {
        (amount * bps + (BPS_DENOMINATOR - 1)) / (BPS_DENOMINATOR as int)
    }
}

/// Tokens worth `sol_value` of native currency at virtual reserves
/// `(virtual_sol, virtual_token)`: `ceil(sol_value * virtual_token /
/// virtual_sol)`, rounded up in the protocol's favor. Meaningful only for
/// `virtual_sol > 0`.
pub open spec fn spec_tokens_for_sol_value(
    virtual_sol: int,
    virtual_token: int,
    sol_value: int,
) -> int {
    if sol_value == 0 {
        0
    } else {
        (sol_value * virtual_token + virtual_sol - 1) / virtual_sol
    }
}

/// The platform's half of a total fee, rounded down.
pub open spec fn spec_platform_share(total_fee: int) -> int {
    total_fee / 2
}

/// The creator's half of a total fee: whatever the platform's rounded-down
/// half leaves over.
pub open spec fn spec_creator_share(total_fee: int) -> int {
    total_fee - total_fee / 2
}

/// A buy never pays out more than the whole virtual token reserve, and never
/// a negative amount.
pub proof fn lemma_buy_tokens_bounds(virtual_sol: int, virtual_token: int, sol_amount: int)
    requires
        0 <= virtual_sol,
        0 <= virtual_token,
        0 <= sol_amount,
    ensures
        0 <= spec_buy_tokens(virtual_sol, virtual_token, sol_amount) <= virtual_token,
{
    if sol_amount != 0 {
        let divisor: int = virtual_sol + sol_amount;
        lemma_mul_nonnegative(virtual_sol, virtual_token);
        lemma_div_pos_is_pos(virtual_sol * virtual_token, divisor);
        lemma_mul_inequality(virtual_sol, divisor, virtual_token);
        lemma_div_is_ordered(virtual_sol * virtual_token, divisor * virtual_token, divisor);
        lemma_div_multiples_vanish(virtual_token, divisor);
    }
}

/// A sell never pays out more than the whole virtual native-currency reserve,
/// and never a negative amount.
pub proof fn lemma_sell_sol_bounds(virtual_sol: int, virtual_token: int, token_amount: int)
    requires
        0 <= virtual_sol,
        0 <= virtual_token,
        0 <= token_amount,
    ensures
        0 <= spec_sell_sol(virtual_sol, virtual_token, token_amount) <= virtual_sol,
{
    if token_amount != 0 {
        let divisor: int = virtual_token + token_amount;
        lemma_mul_nonnegative(virtual_sol, virtual_token);
        lemma_div_pos_is_pos(virtual_sol * virtual_token, divisor);
        lemma_mul_is_commutative(virtual_sol, virtual_token);
        lemma_mul_inequality(virtual_token, divisor, virtual_sol);
        lemma_mul_is_commutative(divisor, virtual_sol);
        lemma_div_is_ordered(virtual_sol * virtual_token, divisor * virtual_sol, divisor);
        lemma_div_multiples_vanish(virtual_sol, divisor);
    }
}

/// The fee is never negative, and at up to 100% (10,000 bps) it never exceeds
/// the amount it is charged on.
pub proof fn lemma_fee_bounds(amount: int, bps: int)
    requires
        0 <= amount,
        0 <= bps,
    ensures
        0 <= spec_fee(amount, bps),
        bps <= BPS_DENOMINATOR ==> spec_fee(amount, bps) <= amount,
{
    if amount != 0 && bps != 0 {
        let denom: int = BPS_DENOMINATOR as int;
        lemma_mul_nonnegative(amount, bps);
        lemma_div_pos_is_pos(amount * bps + (denom - 1), denom);
        if bps <= denom {
            lemma_mul_inequality(bps, denom, amount);
            lemma_mul_is_commutative(bps, amount);
            lemma_mul_is_commutative(denom, amount);
            assert(amount * bps + (denom - 1) <= amount * denom + (denom - 1));
            lemma_div_is_ordered(
                amount * bps + (denom - 1),
                amount * denom + (denom - 1),
                denom,
            );
            lemma_fundamental_div_mod_converse_div(
                amount * denom + (denom - 1),
                denom,
                amount,
                denom - 1,
            );
        }
    }
}

/// The fee is non-decreasing in the amount and in the rate, and zero whenever
/// either is zero.
pub proof fn lemma_fee_monotonic(amount1: int, amount2: int, bps1: int, bps2: int)
    requires
        0 <= amount1 <= amount2,
        0 <= bps1 <= bps2,
    ensures
        spec_fee(amount1, bps1) <= spec_fee(amount2, bps2),
        spec_fee(amount1, 0) == 0,
        spec_fee(0, bps1) == 0,
{
    lemma_fee_bounds(amount2, bps2);
    if amount1 != 0 && bps1 != 0 {
        let denom: int = BPS_DENOMINATOR as int;
        lemma_mul_inequality(amount1, amount2, bps1);
        lemma_mul_is_commutative(amount1, bps1);
        lemma_mul_is_commutative(amount2, bps1);
        lemma_mul_inequality(bps1, bps2, amount2);
        lemma_mul_is_commutative(bps1, amount2);
        lemma_mul_is_commutative(bps2, amount2);
        assert(amount1 * bps1 <= amount2 * bps2);
        lemma_div_is_ordered(
            amount1 * bps1 + (denom - 1),
            amount2 * bps2 + (denom - 1),
            denom,
        );
    }
}

/// A trade of zero moves nothing: zero in, zero out, on both sides of the
/// curve.
pub proof fn lemma_zero_amount_trades(virtual_sol: int, virtual_token: int)
    ensures
        spec_buy_tokens(virtual_sol, virtual_token, 0) == 0,
        spec_sell_sol(virtual_sol, virtual_token, 0) == 0,
{
}

/// A buy keeps the constant product up to the per-call quantization: the
/// product of the virtual reserves after the trade never exceeds the product
/// before it, and falls short of it by less than the new native-currency
/// reserve — the one floor division of the trade is the only loss.
pub proof fn lemma_buy_product_quantization(virtual_sol: int, virtual_token: int, sol_amount: int)
    requires
        0 <= virtual_sol,
        0 <= virtual_token,
        0 < sol_amount,
    ensures
        ({
            let tokens = spec_buy_tokens(virtual_sol, virtual_token, sol_amount);
            let product_after = (virtual_sol + sol_amount) * (virtual_token - tokens);
            virtual_sol * virtual_token - (virtual_sol + sol_amount) < product_after
                <= virtual_sol * virtual_token
        }),
{
    let divisor: int = virtual_sol + sol_amount;
    let k: int = virtual_sol * virtual_token;
    lemma_mul_nonnegative(virtual_sol, virtual_token);
    lemma_fundamental_div_mod(k, divisor);
    lemma_mod_division_less_than_divisor(k, divisor);
    lemma_mul_is_distributive_sub_other_way(divisor, virtual_token, virtual_token - k / divisor);
    assert(divisor * (virtual_token - (virtual_token - k / divisor)) == divisor * (k / divisor));
}

/// A sell keeps the constant product up to the per-call quantization, in the
/// same sense as a buy.
pub proof fn lemma_sell_product_quantization(virtual_sol: int, virtual_token: int, token_amount: int)
    requires
        0 <= virtual_sol,
        0 <= virtual_token,
        0 < token_amount,
    ensures
        ({
            let sol_out = spec_sell_sol(virtual_sol, virtual_token, token_amount);
            let product_after = (virtual_sol - sol_out) * (virtual_token + token_amount);
            virtual_sol * virtual_token - (virtual_token + token_amount) < product_after
                <= virtual_sol * virtual_token
        }),
{
    let divisor: int = virtual_token + token_amount;
    let k: int = virtual_sol * virtual_token;
    lemma_mul_nonnegative(virtual_sol, virtual_token);
    lemma_fundamental_div_mod(k, divisor);
    lemma_mod_division_less_than_divisor(k, divisor);
    let sol_out: int = virtual_sol - k / divisor;
    lemma_mul_is_distributive_sub_other_way(divisor, virtual_sol, sol_out);
    assert(divisor * (virtual_sol - sol_out) == divisor * (k / divisor));
    lemma_mul_is_commutative(virtual_sol - sol_out, divisor);
}

/// Round trip: buying with `sol_amount` and immediately selling the purchased
/// tokens back at the updated reserves returns the original amount, up to one
/// unit of floor-rounding drift (and that one unit, when it appears, favors
/// the trader). Holds whenever the native-currency side of the curve,
/// including the payment, does not outweigh the token side.
pub proof fn lemma_buy_sell_round_trip(virtual_sol: int, virtual_token: int, sol_amount: int)
    requires
        0 < virtual_sol,
        0 < sol_amount,
        virtual_sol + sol_amount <= virtual_token,
    ensures
        ({
            let tokens = spec_buy_tokens(virtual_sol, virtual_token, sol_amount);
            let sol_back = spec_sell_sol(
                virtual_sol + sol_amount,
                virtual_token - tokens,
                tokens,
            );
            sol_amount <= sol_back <= sol_amount + 1
        }),
{
    let vs: int = virtual_sol;
    let vt: int = virtual_token;
    let divisor: int = vs + sol_amount;
    let k: int = vs * vt;
    let quotient: int = k / divisor;
    let remainder: int = k % divisor;

    lemma_mul_nonnegative(vs, vt);
    lemma_fundamental_div_mod(k, divisor);
    lemma_mod_division_less_than_divisor(k, divisor);
    lemma_div_pos_is_pos(k, divisor);

    // The buy leaves a strictly positive token payout: the curve quote stays
    // below the token reserve.
    lemma_mul_strict_inequality(vs, divisor, vt);
    lemma_multiply_divide_lt(k, divisor, vt);
    let tokens: int = vt - quotient;
    assert(tokens == spec_buy_tokens(vs, vt, sol_amount));
    assert(1 <= tokens <= vt);

    // Selling those tokens back divides `divisor * quotient` by the restored
    // token reserve `vt`.
    assert(quotient + tokens == vt);
    assert(divisor * quotient == k - remainder);

    if remainder == 0 {
        lemma_mul_is_commutative(vs, vt);
        lemma_div_multiples_vanish(vs, vt);
        assert((vt * vs) / vt == vs);
        assert(spec_sell_sol(divisor, quotient, tokens) == divisor - vs);
    } else {
        // `k - remainder == (vs - 1) * vt + (vt - remainder)` with the tail in
        // `[1, vt)`, so the division yields `vs - 1`.
        lemma_mul_is_distributive_sub_other_way(vt, vs, 1);
        assert((vs - 1) * vt == vs * vt - 1 * vt);
        assert(remainder < divisor <= vt);
        lemma_fundamental_div_mod_converse_div(
            k - remainder,
            vt,
            vs - 1,
            vt - remainder,
        );
        assert((k - remainder) / vt == vs - 1);
        assert(spec_sell_sol(divisor, quotient, tokens) == divisor - (vs - 1));
    }
}

/// Tokens paid out for putting `sol_amount` of native currency into the curve.
///
/// Rounds down: the buyer receives the floor of the exact constant-product
/// quote. A zero payment buys zero tokens. The computation runs in 128-bit
/// arithmetic and can never overflow, so it always succeeds.
pub fn calculate_buy_tokens(
    virtual_sol_reserves: u64,
    virtual_token_reserves: u64,
    sol_amount: u64,
) -> (r: Result<u64, ErrorCode>)
    ensures
        r is Ok,
        r->Ok_0 == spec_buy_tokens(
            virtual_sol_reserves as int,
            virtual_token_reserves as int,
            sol_amount as int,
        ),
{
    if sol_amount == 0 {
        return Ok(0);
    }

    let virtual_sol: u128 = virtual_sol_reserves as u128;
    let virtual_token: u128 = virtual_token_reserves as u128;
    let sol_in: u128 = sol_amount as u128;

    proof {
        assert(virtual_sol * virtual_token <= u128::MAX) by (nonlinear_arith)
            requires
                virtual_sol <= 0xffff_ffff_ffff_ffffu128,
                virtual_token <= 0xffff_ffff_ffff_ffffu128,
        ;
    }
    let k: u128 = virtual_sol * virtual_token;
    let new_virtual_sol: u128 = virtual_sol + sol_in;
    let new_virtual_token: u128 = k / new_virtual_sol;
    proof {
        lemma_buy_tokens_bounds(
            virtual_sol_reserves as int,
            virtual_token_reserves as int,
            sol_amount as int,
        );
    }
    let tokens_out: u128 = virtual_token - new_virtual_token;
    Ok(tokens_out as u64)
}

/// Native currency paid out for putting `token_amount` of tokens into the
/// curve.
///
/// Rounds down: the seller receives the floor of the exact constant-product
/// quote. Selling zero tokens pays zero. The computation runs in 128-bit
/// arithmetic and can never overflow, so it always succeeds.
pub fn calculate_sell_sol(
    virtual_sol_reserves: u64,
    virtual_token_reserves: u64,
    token_amount: u64,
) -> (r: Result<u64, ErrorCode>)
    ensures
        r is Ok,
        r->Ok_0 == spec_sell_sol(
            virtual_sol_reserves as int,
            virtual_token_reserves as int,
            token_amount as int,
        ),
{
    if token_amount == 0 {
        return Ok(0);
    }

    let virtual_sol: u128 = virtual_sol_reserves as u128;
    let virtual_token: u128 = virtual_token_reserves as u128;
    let tokens_in: u128 = token_amount as u128;

    proof {
        assert(virtual_sol * virtual_token <= u128::MAX) by (nonlinear_arith)
            requires
                virtual_sol <= 0xffff_ffff_ffff_ffffu128,
                virtual_token <= 0xffff_ffff_ffff_ffffu128,
        ;
    }
    let k: u128 = virtual_sol * virtual_token;
    let new_virtual_token: u128 = virtual_token + tokens_in;
    let new_virtual_sol: u128 = k / new_virtual_token;
    proof {
        lemma_sell_sol_bounds(
            virtual_sol_reserves as int,
            virtual_token_reserves as int,
            token_amount as int,
        );
    }
    let sol_out: u128 = virtual_sol - new_virtual_sol;
    Ok(sol_out as u64)
}

/// Fee owed on `amount` at `fee_bps` basis points, rounded up.
///
/// Zero if either input is zero. Fails only when the exact fee does not fit
/// the 64-bit amount type, which requires a rate above 100%; at any rate up
/// to 10,000 bps the call always succeeds and the fee never exceeds `amount`.
pub fn calculate_fee(amount: u64, fee_bps: u16) -> (r: Result<u64, ErrorCode>)
    ensures
        spec_fee(amount as int, fee_bps as int) <= u64::MAX ==> r is Ok,
        r is Ok ==> r->Ok_0 == spec_fee(amount as int, fee_bps as int),
        spec_fee(amount as int, fee_bps as int) > u64::MAX ==> r == Err::<u64, ErrorCode>(
            ErrorCode::MathOverflow,
        ),
        fee_bps <= BPS_DENOMINATOR ==> r is Ok && r->Ok_0 <= amount,
{
    if amount == 0 || fee_bps == 0 {
        return Ok(0);
    }

    let amount_wide: u128 = amount as u128;
    let bps: u128 = fee_bps as u128;

    proof {
        assert(amount_wide * bps + 9_999 <= u128::MAX) by (nonlinear_arith)
            requires
                amount_wide <= 0xffff_ffff_ffff_ffffu128,
                bps <= 0xffffu128,
        ;
        lemma_fee_bounds(amount as int, fee_bps as int);
    }
    let numerator: u128 = amount_wide * bps + 9_999;
    let fee: u128 = numerator / 10_000;

    if fee > u64::MAX as u128 {
        Err(ErrorCode::MathOverflow)
    } else {
        Ok(fee as u64)
    }
}

/// Tokens worth `sol_value` of native currency at the current virtual
/// reserves, rounded up: slightly more tokens than the exact value, in the
/// protocol's favor. Used to price burn-for-access.
///
/// A zero value is worth zero tokens. Fails with an arithmetic error when the
/// native-currency reserve is zero or the quote does not fit the 64-bit
/// amount type.
pub fn calculate_tokens_for_sol_value(
    virtual_sol_reserves: u64,
    virtual_token_reserves: u64,
    sol_value: u64,
) -> (r: Result<u64, ErrorCode>)
    ensures
        sol_value == 0 ==> r == Ok::<u64, ErrorCode>(0),
        sol_value > 0 && virtual_sol_reserves == 0 ==> r == Err::<u64, ErrorCode>(
            ErrorCode::MathOverflow,
        ),
        sol_value > 0 && virtual_sol_reserves > 0 ==> {
            let exact = spec_tokens_for_sol_value(
                virtual_sol_reserves as int,
                virtual_token_reserves as int,
                sol_value as int,
            );
            if exact <= u64::MAX {
                r is Ok && r->Ok_0 == exact
            } else {
                r == Err::<u64, ErrorCode>(ErrorCode::MathOverflow)
            }
        },
{
    if sol_value == 0 {
        return Ok(0);
    }
    if virtual_sol_reserves == 0 {
        return Err(ErrorCode::MathOverflow);
    }

    let sol_val: u128 = sol_value as u128;
    let v_token: u128 = virtual_token_reserves as u128;
    let v_sol: u128 = virtual_sol_reserves as u128;

    proof {
        assert(sol_val * v_token + (v_sol - 1) <= u128::MAX) by (nonlinear_arith)
            requires
                sol_val <= 0xffff_ffff_ffff_ffffu128,
                v_token <= 0xffff_ffff_ffff_ffffu128,
                1 <= v_sol <= 0xffff_ffff_ffff_ffffu128,
        ;
        let exact: int = spec_tokens_for_sol_value(
            virtual_sol_reserves as int,
            virtual_token_reserves as int,
            sol_value as int,
        );
        lemma_mul_nonnegative(sol_value as int, virtual_token_reserves as int);
        lemma_div_pos_is_pos(
            sol_value as int * virtual_token_reserves as int + virtual_sol_reserves as int - 1,
            virtual_sol_reserves as int,
        );
        assert(0 <= exact);
    }
    let numerator: u128 = sol_val * v_token + (v_sol - 1);
    let tokens: u128 = numerator / v_sol;

    if tokens > u64::MAX as u128 {
        Err(ErrorCode::MathOverflow)
    } else {
        Ok(tokens as u64)
    }
}

} // verus!
