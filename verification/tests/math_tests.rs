//! Tests of the pure pricing functions.

use baremint::math::calculate_buy_tokens;
use baremint::math::calculate_fee;
use baremint::math::calculate_sell_sol;
use baremint::math::calculate_tokens_for_sol_value;

// Default reserves of a pump-style curve: 1,073,000,000 tokens (six decimal
// places) against 30 SOL (nine decimal places).
const VIRTUAL_TOKEN_RESERVES: u64 = 1_073_000_000_000_000;
const VIRTUAL_SOL_RESERVES: u64 = 30_000_000_000;

#[test]
fn test_buy_tokens_basic() {
    // Buy with 1 SOL
    let sol_amount = 1_000_000_000; // 1 SOL
    let tokens =
        calculate_buy_tokens(VIRTUAL_SOL_RESERVES, VIRTUAL_TOKEN_RESERVES, sol_amount).unwrap();

    // With constant product: tokens_out = 1073M * 1 / (30 + 1) ~= 34.6M tokens
    assert!(tokens > 0);
    assert!(tokens < VIRTUAL_TOKEN_RESERVES); // Can't get more than reserves

    // Approximate check: ~34.6M tokens (with 6 decimals)
    let tokens_in_whole = tokens / 1_000_000;
    assert!(
        tokens_in_whole > 34_000_000 && tokens_in_whole < 35_000_000,
        "Expected ~34.6M tokens, got {}",
        tokens_in_whole
    );
}

#[test]
fn test_sell_sol_basic() {
    // Sell 34M tokens
    let token_amount = 34_000_000_000_000; // 34M tokens with 6 decimals
    let sol =
        calculate_sell_sol(VIRTUAL_SOL_RESERVES, VIRTUAL_TOKEN_RESERVES, token_amount).unwrap();

    assert!(sol > 0);
    assert!(sol < VIRTUAL_SOL_RESERVES);

    // Should get roughly ~0.92 SOL for 34M tokens
    let sol_in_lamports = sol;
    assert!(
        sol_in_lamports > 500_000_000 && sol_in_lamports < 1_500_000_000,
        "Expected ~0.92 SOL, got {} lamports",
        sol_in_lamports
    );
}

#[test]
fn test_buy_sell_round_trip() {
    // Buy tokens, then sell the same tokens back.
    // Due to integer floor division, the round-trip may have tiny rounding
    // variance (at most 1 lamport).
    let sol_in = 1_000_000_000; // 1 SOL
    let tokens =
        calculate_buy_tokens(VIRTUAL_SOL_RESERVES, VIRTUAL_TOKEN_RESERVES, sol_in).unwrap();

    // After buy, reserves shift
    let new_sol_reserves = VIRTUAL_SOL_RESERVES + sol_in;
    let new_token_reserves = VIRTUAL_TOKEN_RESERVES - tokens;

    let sol_out = calculate_sell_sol(new_sol_reserves, new_token_reserves, tokens).unwrap();

    // Round-trip should be very close to the input (within 1 lamport of
    // rounding)
    let diff = if sol_out > sol_in {
        sol_out - sol_in
    } else {
        sol_in - sol_out
    };
    assert!(
        diff <= 1,
        "Round-trip should be within 1 lamport. Input: {}, output: {}, diff: {}",
        sol_in,
        sol_out,
        diff
    );
}

#[test]
fn test_fee_calculation() {
    // 5% fee on 1 SOL
    let fee = calculate_fee(1_000_000_000, 500).unwrap();
    // 1_000_000_000 * 500 / 10_000 = 50_000_000
    assert_eq!(fee, 50_000_000);

    // Fee rounds up: 1 lamport * 500 bps
    let fee_small = calculate_fee(1, 500).unwrap();
    // ceil(1 * 500 / 10000) = ceil(0.05) = 1
    assert_eq!(fee_small, 1);

    // 2.5% fee (250 bps)
    let fee_half = calculate_fee(1_000_000_000, 250).unwrap();
    assert_eq!(fee_half, 25_000_000);
}

#[test]
fn test_fee_zero_inputs() {
    assert_eq!(calculate_fee(0, 500).unwrap(), 0);
    assert_eq!(calculate_fee(1_000_000_000, 0).unwrap(), 0);
    assert_eq!(calculate_fee(0, 0).unwrap(), 0);
}

#[test]
fn test_buy_zero_amount() {
    let tokens = calculate_buy_tokens(VIRTUAL_SOL_RESERVES, VIRTUAL_TOKEN_RESERVES, 0).unwrap();
    assert_eq!(tokens, 0);
}

#[test]
fn test_sell_zero_amount() {
    let sol = calculate_sell_sol(VIRTUAL_SOL_RESERVES, VIRTUAL_TOKEN_RESERVES, 0).unwrap();
    assert_eq!(sol, 0);
}

#[test]
fn test_tokens_for_sol_value() {
    // At default reserves: price = 30 SOL / 1073M tokens
    // 1 SOL worth of tokens = 1073M / 30 ~= 35.77M
    let tokens = calculate_tokens_for_sol_value(
        VIRTUAL_SOL_RESERVES,
        VIRTUAL_TOKEN_RESERVES,
        1_000_000_000,
    )
    .unwrap();

    let tokens_whole = tokens / 1_000_000;
    assert!(
        tokens_whole > 35_000_000 && tokens_whole < 36_000_000,
        "Expected ~35.77M tokens, got {}",
        tokens_whole
    );
}

#[test]
fn test_tokens_for_sol_value_rounds_up() {
    // Use values that don't divide evenly to verify ceiling
    let tokens = calculate_tokens_for_sol_value(3, 10, 1).unwrap();
    // ceil(1 * 10 / 3) = ceil(3.33) = 4
    assert_eq!(tokens, 4);
}

#[test]
fn test_overflow_protection_buy() {
    // Large values that could overflow without u128
    let result = calculate_buy_tokens(u64::MAX, u64::MAX, u64::MAX);
    // This should either succeed or return MathOverflow, not panic
    assert!(result.is_ok() || result.is_err());
}

#[test]
fn test_overflow_protection_sell() {
    let result = calculate_sell_sol(u64::MAX, u64::MAX, u64::MAX);
    assert!(result.is_ok() || result.is_err());
}

#[test]
fn test_overflow_protection_fee() {
    let fee = calculate_fee(u64::MAX, 10000).unwrap();
    // 100% fee = amount itself (with ceiling)
    assert_eq!(fee, u64::MAX);
}

#[test]
fn test_large_buy() {
    // Buy with 10 SOL
    let tokens =
        calculate_buy_tokens(VIRTUAL_SOL_RESERVES, VIRTUAL_TOKEN_RESERVES, 10_000_000_000)
            .unwrap();

    // 10 SOL into 30 SOL reserves: tokens = 1073M * 10 / 40 = 268.25M
    let tokens_whole = tokens / 1_000_000;
    assert!(
        tokens_whole > 267_000_000 && tokens_whole < 269_000_000,
        "Expected ~268.25M tokens, got {}",
        tokens_whole
    );
}

#[test]
fn test_buy_tokens_exact_quote() {
    // floor(1073e12 * 0.95e9 / 30.95e9) leaves exactly this payout.
    let tokens =
        calculate_buy_tokens(VIRTUAL_SOL_RESERVES, VIRTUAL_TOKEN_RESERVES, 950_000_000).unwrap();
    assert_eq!(tokens, 32_935_379_644_589);
}

#[test]
fn test_fee_overflow_above_full_rate() {
    // Above 100% the exact ceiling no longer fits 64 bits.
    let result = calculate_fee(u64::MAX, 20_000);
    assert_eq!(result, Err(baremint::errors::ErrorCode::MathOverflow));
}

#[test]
fn test_tokens_for_sol_value_zero_reserve() {
    // An empty native-currency reserve cannot price a burn.
    let result = calculate_tokens_for_sol_value(0, 10, 5);
    assert_eq!(result, Err(baremint::errors::ErrorCode::MathOverflow));
}

#[test]
fn test_tokens_for_sol_value_zero_value() {
    assert_eq!(
        calculate_tokens_for_sol_value(VIRTUAL_SOL_RESERVES, VIRTUAL_TOKEN_RESERVES, 0).unwrap(),
        0
    );
}
