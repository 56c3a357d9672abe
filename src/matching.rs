use crate::error::Error;
use crate::fixed::{rate_mul_int, Rate};
use crate::primitives::Balance;
use vstd::prelude::*;

verus! {

/// Stake and unstake demand accumulated during one era.
#[derive(Clone, Copy, Debug, PartialEq, Eq, Structural)]
pub struct MatchingLedger {
    /// Base asset staked this era, net of fees.
    pub total_stake_amount: Balance,
    /// Vouchers unstaked this era.
    pub total_unstake_amount: Balance,
}

pub open spec fn min(a: int, b: int) -> int {
    if a <= b {
        a
    } else {
        b
    }
}

/// The relay-chain operations that net an era's demand, `(bond, rebond, unbond)`, for
/// `stake` and `unstake` both in base asset, `unbonding` already on its way out and
/// `bonded` currently bonded.
///
/// A surplus of stake is bonded, and as much of it as is in flight is also rebonded; a
/// surplus of unstake is unbonded, at most what is bonded.
pub open spec fn net_demand(stake: int, unstake: int, unbonding: int, bonded: int) -> (
    int,
    int,
    int,
) {
    if stake >= unstake {
        (stake - unstake, min(unbonding, stake - unstake), 0)
    } else {
        (0, 0, min(unstake - stake, bonded))
    }
}

/// Nets the demand of an era; see [`net_demand`].
pub fn net_demand_amounts(stake: Balance, unstake: Balance, unbonding: Balance, bonded: Balance) -> (r: (
    Balance,
    Balance,
    Balance,
))
    ensures
        (r.0 as int, r.1 as int, r.2 as int) == net_demand(
            stake as int,
            unstake as int,
            unbonding as int,
            bonded as int,
        ),
{
    if stake >= unstake {
        let surplus = stake - unstake;
        let rebond = if unbonding <= surplus {
            unbonding
        } else {
            surplus
        };
        (surplus, rebond, 0)
    } else {
        let deficit = unstake - stake;
        let unbond = if deficit <= bonded {
            deficit
        } else {
            bonded
        };
        (0, 0, unbond)
    }
}

impl MatchingLedger {
    /// An empty ledger, as at the start of an era.
    pub fn new() -> (r: MatchingLedger)
        ensures
            r.total_stake_amount == 0,
            r.total_unstake_amount == 0,
    {
        MatchingLedger { total_stake_amount: 0, total_unstake_amount: 0 }
    }

    /// Records `amount` of base asset staked.
    pub fn add_stake(&mut self, amount: Balance) -> (r: Result<(), Error>)
        ensures
            old(self).total_stake_amount + amount <= u128::MAX ==> r is Ok && *final(self) == (
            MatchingLedger {
                total_stake_amount: (old(self).total_stake_amount + amount) as u128,
                ..*old(self)
            }),
            old(self).total_stake_amount + amount > u128::MAX ==> r == Err::<(), Error>(
                Error::ArithmeticOverflow,
            ) && *final(self) == *old(self),
    {
        match self.total_stake_amount.checked_add(amount) {
            Some(total) => {
                self.total_stake_amount = total;
                Ok(())
            },
            None => Err(Error::ArithmeticOverflow),
        }
    }

    /// Records `amount` of vouchers unstaked.
    pub fn add_unstake(&mut self, amount: Balance) -> (r: Result<(), Error>)
        ensures
            old(self).total_unstake_amount + amount <= u128::MAX ==> r is Ok && *final(self) == (
            MatchingLedger {
                total_unstake_amount: (old(self).total_unstake_amount + amount) as u128,
                ..*old(self)
            }),
            old(self).total_unstake_amount + amount > u128::MAX ==> r == Err::<(), Error>(
                Error::ArithmeticOverflow,
            ) && *final(self) == *old(self),
    {
        match self.total_unstake_amount.checked_add(amount) {
            Some(total) => {
                self.total_unstake_amount = total;
                Ok(())
            },
            None => Err(Error::ArithmeticOverflow),
        }
    }

    /// The `(bond, rebond, unbond)` amounts that net this ledger, its unstaked vouchers
    /// valued at `rate`; fails with `ArithmeticOverflow` where that value leaves `u128`.
    pub fn matching(&self, rate: Rate, unbonding_amount: Balance, bonded_amount: Balance) -> (r:
        Result<(Balance, Balance, Balance), Error>)
        ensures
            rate_mul_int(rate, self.total_unstake_amount) is None ==> r == Err::<
                (Balance, Balance, Balance),
                Error,
            >(Error::ArithmeticOverflow),
            rate_mul_int(rate, self.total_unstake_amount) matches Some(u) ==> r matches Ok(t) && (
            t.0 as int, t.1 as int, t.2 as int) == net_demand(
                self.total_stake_amount as int,
                u as int,
                unbonding_amount as int,
                bonded_amount as int,
            ),
    {
        match rate.checked_mul_int(self.total_unstake_amount) {
            Some(unstake) => Ok(
                net_demand_amounts(self.total_stake_amount, unstake, unbonding_amount, bonded_amount),
            ),
            None => Err(Error::ArithmeticOverflow),
        }
    }
}

} // verus!
