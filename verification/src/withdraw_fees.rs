//! Withdrawing accrued fees from a market's custody.

use vstd::prelude::*;

verus! {

use crate::errors::ErrorCode;
use crate::state::{BondingCurve, GlobalConfig};

/// Pays the platform its accrued fee share out of the market's custody.
///
/// Only the platform authority may withdraw. Nothing accrued is a successful
/// no-op. Otherwise the payout must be covered by the custody balance the
/// caller passes in and must leave at least the externally imposed floor
/// behind; then the accrued counter resets to zero. An error leaves the
/// market untouched. On success the caller owes the custody layer one
/// movement: the returned amount from the market's custody to the authority.
pub fn handler_withdraw_platform_fees(
    config: &GlobalConfig,
    curve: &mut BondingCurve,
    authority: u64,
    custody_balance: u64,
    custody_floor: u64,
) -> (r: Result<u64, ErrorCode>)
    requires
        old(curve).wf(),
    ensures
        final(curve).wf(),
        r is Err ==> *final(curve) == *old(curve),
        ({
            let amount = old(curve).platform_fees_accrued;
            &&& (authority != config.authority ==> r == Err::<u64, ErrorCode>(
                ErrorCode::Unauthorized,
            ))
            &&& (authority == config.authority && amount == 0 ==> r == Ok::<u64, ErrorCode>(0)
                && *final(curve) == *old(curve))
            &&& (authority == config.authority && amount > 0 && amount > custody_balance ==> r
                == Err::<u64, ErrorCode>(ErrorCode::MathOverflow))
            &&& (authority == config.authority && amount > 0 && amount <= custody_balance
                && custody_balance - amount < custody_floor ==> r == Err::<u64, ErrorCode>(
                ErrorCode::InsufficientReserves,
            ))
            &&& (authority == config.authority && amount > 0 && amount <= custody_balance
                && custody_balance - amount >= custody_floor ==> {
                &&& r == Ok::<u64, ErrorCode>(amount)
                &&& *final(curve) == (BondingCurve { platform_fees_accrued: 0u64, ..*old(curve) })
            })
        }),
{
    if authority != config.authority {
        return Err(ErrorCode::Unauthorized);
    }

    let amount: u64 = curve.platform_fees_accrued;
    if amount == 0 {
        return Ok(0);
    }

    // The market's own custody must keep the externally imposed floor after
    // the payout.
    let remaining_custody: u64 = match custody_balance.checked_sub(amount) {
        Some(value) => value,
        None => return Err(ErrorCode::MathOverflow),
    };
    if remaining_custody < custody_floor {
        return Err(ErrorCode::InsufficientReserves);
    }

    curve.platform_fees_accrued = 0;
    Ok(amount)
}

/// Pays the creator their accrued fee share out of the market's custody.
///
/// Identical to the platform withdrawal except that only the market's
/// creator may withdraw, and it is the creator's counter that resets.
pub fn handler_withdraw_creator_fees(
    curve: &mut BondingCurve,
    creator: u64,
    custody_balance: u64,
    custody_floor: u64,
) -> (r: Result<u64, ErrorCode>)
    requires
        old(curve).wf(),
    ensures
        final(curve).wf(),
        r is Err ==> *final(curve) == *old(curve),
        ({
            let amount = old(curve).creator_fees_accrued;
            &&& (creator != old(curve).creator ==> r == Err::<u64, ErrorCode>(
                ErrorCode::Unauthorized,
            ))
            &&& (creator == old(curve).creator && amount == 0 ==> r == Ok::<u64, ErrorCode>(0)
                && *final(curve) == *old(curve))
            &&& (creator == old(curve).creator && amount > 0 && amount > custody_balance ==> r
                == Err::<u64, ErrorCode>(ErrorCode::MathOverflow))
            &&& (creator == old(curve).creator && amount > 0 && amount <= custody_balance
                && custody_balance - amount < custody_floor ==> r == Err::<u64, ErrorCode>(
                ErrorCode::InsufficientReserves,
            ))
            &&& (creator == old(curve).creator && amount > 0 && amount <= custody_balance
                && custody_balance - amount >= custody_floor ==> {
                &&& r == Ok::<u64, ErrorCode>(amount)
                &&& *final(curve) == (BondingCurve { creator_fees_accrued: 0u64, ..*old(curve) })
            })
        }),
{
    if creator != curve.creator {
        return Err(ErrorCode::Unauthorized);
    }

    let amount: u64 = curve.creator_fees_accrued;
    if amount == 0 {
        return Ok(0);
    }

    let remaining_custody: u64 = match custody_balance.checked_sub(amount) {
        Some(value) => value,
        None => return Err(ErrorCode::MathOverflow),
    };
    if remaining_custody < custody_floor {
        return Err(ErrorCode::InsufficientReserves);
    }

    curve.creator_fees_accrued = 0;
    Ok(amount)
}

} // verus!
