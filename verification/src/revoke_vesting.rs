//! Revoking a vesting schedule.

use vstd::prelude::*;

verus! {

use crate::errors::ErrorCode;
use crate::state::{BondingCurve, GlobalConfig, VestingAccount};

/// The revoke transition: only the platform authority may revoke; revoking an
/// already-revoked schedule is a successful no-op; otherwise the unvested
/// remainder is destroyed — it leaves the token's outstanding supply — and
/// the schedule is marked revoked for good. Returns the schedule and market
/// after the call together with the amount destroyed.
pub open spec fn spec_revoke(
    config: GlobalConfig,
    vesting: VestingAccount,
    curve: BondingCurve,
    authority: u64,
) -> Result<(VestingAccount, BondingCurve, u64), ErrorCode> {
    if authority != config.authority {
        Err(ErrorCode::Unauthorized)
    } else if vesting.is_revoked {
        Ok((vesting, curve, 0u64))
    } else {
        let unvested = (vesting.total_allocation - vesting.claimed_amount) as u64;
        Ok(
            (
                VestingAccount { is_revoked: true, ..vesting },
                BondingCurve {
                    token_total_supply: (curve.token_total_supply - unvested) as u64,
                    ..curve
                },
                unvested,
            ),
        )
    }
}

/// Revoke is idempotent: a revoke that succeeds leaves a state on which a
/// second revoke succeeds, changes nothing, and destroys nothing — the
/// unvested tokens are destroyed exactly once.
pub proof fn lemma_revoke_idempotent(
    config: GlobalConfig,
    vesting: VestingAccount,
    curve: BondingCurve,
    authority: u64,
)
    ensures
        spec_revoke(config, vesting, curve, authority) matches Ok(first) ==> spec_revoke(
            config,
            first.0,
            first.1,
            authority,
        ) == Ok::<(VestingAccount, BondingCurve, u64), ErrorCode>((first.0, first.1, 0u64)),
{
}

/// Revokes the schedule, destroying whatever has not vested into the
/// creator's hands.
///
/// Only the platform authority may revoke. A second revoke of the same
/// schedule is a successful no-op. The unvested tokens sit in the vesting
/// custody and were never circulating or in the curve, so destroying them
/// only shrinks the token's outstanding supply. On success the caller owes
/// the token ledger one action: destroy the returned amount from the vesting
/// custody.
pub fn handler(
    config: &GlobalConfig,
    vesting: &mut VestingAccount,
    curve: &mut BondingCurve,
    authority: u64,
) -> (r: Result<u64, ErrorCode>)
    requires
        old(vesting).wf(),
        old(curve).wf(),
        old(vesting).total_allocation - old(vesting).claimed_amount <= old(
            curve,
        ).token_total_supply - old(curve).real_token_reserves,
    ensures
        final(vesting).wf(),
        final(curve).wf(),
        ({
            let outcome = spec_revoke(*config, *old(vesting), *old(curve), authority);
            &&& (outcome matches Ok(next) ==> {
                &&& r is Ok
                &&& r->Ok_0 == next.2
                &&& *final(vesting) == next.0
                &&& *final(curve) == next.1
            })
            &&& (outcome matches Err(code) ==> r == Err::<u64, ErrorCode>(code)
                && *final(vesting) == *old(vesting) && *final(curve) == *old(curve))
        }),
{
    if authority != config.authority {
        return Err(ErrorCode::Unauthorized);
    }
    if vesting.is_revoked {
        return Ok(0);
    }

    let unvested: u64 = vesting.total_allocation - vesting.claimed_amount;
    if unvested > 0 {
        // The unvested tokens count toward the outstanding supply but sit
        // outside the market's custody, so the supply covers them.
        curve.token_total_supply = curve.token_total_supply - unvested;
    }
    vesting.is_revoked = true;

    Ok(unvested)
}

} // verus!
