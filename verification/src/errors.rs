//! Error taxonomy shared by every operation of the engine.

use vstd::prelude::*;

verus! {

/// Why an operation was rejected. Every mutating operation validates fully
/// before writing: a returned error means the operation had no effect.
#[derive(Clone, Copy, Debug, PartialEq, Eq, Structural)]
pub enum ErrorCode {
    /// The caller is not the identity the record requires for this operation.
    Unauthorized,
    /// Widened or narrow arithmetic overflowed or underflowed.
    MathOverflow,
    /// A trade returned less than the caller's stated minimum.
    SlippageExceeded,
    /// The payer's native-currency balance cannot cover the payment.
    InsufficientFunds,
    /// The caller's token balance cannot cover the tokens to be taken.
    InsufficientTokens,
    /// The market's custodied reserves cannot cover the debit.
    InsufficientReserves,
    /// The creator must wait out the launch cooldown before creating again.
    CooldownNotElapsed,
    /// The vesting cliff has not been reached yet.
    VestingCliffNotReached,
    /// Nothing is claimable: all vested value has been claimed already.
    VestingFullyClaimed,
    /// The vesting schedule has been revoked.
    VestingRevoked,
    /// Burn-for-access is disabled for this market (burn price is zero).
    BurnDisabled,
    /// The fee shares do not sum to the total fee, or the total fee is too
    /// large.
    InvalidFeeConfiguration,
    /// An initial virtual reserve is zero.
    InvalidReserveConfiguration,
    /// The token supply does not match the expected value.
    TokenSupplyMismatch,
}

} // verus!
