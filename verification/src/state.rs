//! The engine's persistent records.
//!
//! Identities (the creator, the platform authority, a token) are opaque to the
//! engine: it only ever compares them for equality, so they are carried as
//! plain 64-bit identifiers assigned by the surrounding environment.
//! Custodied balances live with that environment too; the records here hold
//! the engine's own bookkeeping of them.

use vstd::prelude::*;

verus! {

/// Global parameters, set once at initialization and immutable thereafter.
#[derive(Clone, Copy, Debug, PartialEq, Eq, Structural)]
pub struct GlobalConfig {
    /// Platform admin identity: may revoke vesting and withdraw platform fees.
    pub authority: u64,
    /// Total trade fee in basis points.
    pub fee_bps: u16,
    /// Platform's share of the fee in basis points.
    pub platform_fee_bps: u16,
    /// Creator's share of the fee in basis points.
    pub creator_fee_bps: u16,
    /// Virtual token reserves every new market starts with.
    pub initial_virtual_token_reserves: u64,
    /// Virtual native-currency reserves every new market starts with.
    pub initial_virtual_sol_reserves: u64,
    /// Seconds after a vesting schedule's start before anything is claimable.
    pub vesting_cliff_seconds: i64,
    /// Seconds over which the vesting allocation unlocks linearly.
    pub vesting_duration_seconds: i64,
    /// Vesting unlocks only in whole multiples of this many seconds.
    pub vesting_claim_interval_seconds: i64,
    /// Seconds a creator must wait between two token launches.
    pub launch_cooldown_seconds: i64,
    /// Share of a new token's supply reserved for its creator, in basis
    /// points.
    pub creator_allocation_bps: u16,
}

impl GlobalConfig {
    /// Configuration invariant: the fee shares sum to the total fee, the
    /// total fee is at most 10%, the initial virtual reserves are positive,
    /// the time parameters that appear as divisors are positive, the others
    /// non-negative, and the creator allocation is at most the whole supply.
    pub open spec fn wf(self) -> bool {
        &&& self.platform_fee_bps + self.creator_fee_bps == self.fee_bps
        &&& self.fee_bps <= 1000
        &&& self.initial_virtual_token_reserves > 0
        &&& self.initial_virtual_sol_reserves > 0
        &&& self.vesting_cliff_seconds >= 0
        &&& self.vesting_duration_seconds > 0
        &&& self.vesting_claim_interval_seconds > 0
        &&& self.launch_cooldown_seconds >= 0
        &&& self.creator_allocation_bps <= 10_000
    }
}

/// One bonding-curve market, created at a token's launch and never destroyed.
///
/// Virtual reserves drive pricing only; real reserves are the engine's
/// account of what the market actually has in custody. Accrued fees are a
/// liability held in the market's custody alongside the real reserves,
/// excluded from the price curve.
#[derive(Clone, Copy, Debug, PartialEq, Eq, Structural)]
pub struct BondingCurve {
    /// The token this market trades.
    pub token_mint: u64,
    /// Who launched it.
    pub creator: u64,
    /// Token side of the price curve.
    pub virtual_token_reserves: u64,
    /// Native-currency side of the price curve.
    pub virtual_sol_reserves: u64,
    /// Tokens actually held in the market's custody.
    pub real_token_reserves: u64,
    /// Native currency actually held in the market's custody, fees excluded.
    pub real_sol_reserves: u64,
    /// Outstanding supply of the token; only burns reduce it.
    pub token_total_supply: u64,
    /// Native-currency price of burn-for-access; zero disables burning.
    pub burn_sol_price: u64,
    /// Fees accrued to the platform, not yet withdrawn.
    pub platform_fees_accrued: u64,
    /// Fees accrued to the creator, not yet withdrawn.
    pub creator_fees_accrued: u64,
}

impl BondingCurve {
    /// Market invariant: the tokens in the market's custody never exceed the
    /// token's outstanding supply.
    pub open spec fn wf(self) -> bool {
        self.real_token_reserves <= self.token_total_supply
    }
}

/// Per-creator launch record, created on the first launch and kept forever.
#[derive(Clone, Copy, Debug, PartialEq, Eq, Structural)]
pub struct CreatorProfile {
    /// The creator this record belongs to.
    pub creator: u64,
    /// When this creator last launched a token.
    pub last_token_launch_timestamp: i64,
    /// How many tokens this creator has launched; zero means never.
    pub tokens_launched: u32,
}

/// One creator vesting schedule, created with its market.
///
/// Active until revoked (one-way) or fully claimed.
#[derive(Clone, Copy, Debug, PartialEq, Eq, Structural)]
pub struct VestingAccount {
    /// Who may claim from this schedule.
    pub creator: u64,
    /// The token being vested.
    pub token_mint: u64,
    /// Total tokens set aside for the creator, fixed at creation.
    pub total_allocation: u64,
    /// Tokens already claimed; grows monotonically.
    pub claimed_amount: u64,
    /// When the schedule started.
    pub start_timestamp: i64,
    /// Whether the schedule has been revoked; never reset.
    pub is_revoked: bool,
}

impl VestingAccount {
    /// Vesting invariant: no more has been claimed than was allocated.
    pub open spec fn wf(self) -> bool {
        self.claimed_amount <= self.total_allocation
    }
}

} // verus!
