//! Properties that hold across operations, proved from the contracts of the engine.

use crate::error::Error;
use crate::fixed::{rate_mul_int, rate_reciprocal, Rate, Ratio, RATE_ACCURACY};
use crate::matching::{min, net_demand};
use crate::pallet::{
    lemma_stake_vouchers_value, ratchet, stake_fee, stake_net, stake_vouchers, unstake_value, Pallet,
};
use crate::primitives::{Balance, CurrencyId, Weight};
use crate::queue::UnstakeEntry;
use vstd::prelude::*;

verus! {

/// The exchange rate after a settlement offered each of `candidates` in turn, from `start`.
pub open spec fn rate_after(start: Rate, candidates: Seq<Rate>) -> Rate
    decreases candidates.len(),
{
    if candidates.len() == 0 {
        start
    } else {
        ratchet(rate_after(start, candidates.drop_last()), candidates.last())
    }
}

/// However many settlements follow one another, whatever rates they compute, the exchange
/// rate never falls: after the first `i` of them it is at most what it is after the first
/// `j >= i`.
pub proof fn lemma_rate_never_decreases(start: Rate, candidates: Seq<Rate>, i: int, j: int)
    requires
        0 <= i <= j <= candidates.len(),
    ensures
        rate_after(start, candidates.take(i)).inner <= rate_after(start, candidates.take(j)).inner,
    decreases j - i,
{
    if i < j {
        lemma_rate_never_decreases(start, candidates, i, j - 1);
        assert(candidates.take(j).drop_last() =~= candidates.take(j - 1));
    }
}

/// A stake never hands out more than it takes in: the reserve fee lies between zero and
/// the amount, and the vouchers minted, valued at the rate they were bought at, are worth
/// at most what was staked net of the fee, so at most the amount paid in.
pub proof fn lemma_stake_mints_no_more_than_paid(rate: Rate, factor: Ratio, amount: Balance)
    requires
        factor.wf(),
    ensures
        0 <= stake_fee(factor, amount) <= amount,
        stake_vouchers(rate, stake_net(factor, amount) as u128) matches Some(m) ==> (rate_mul_int(
            rate,
            m,
        ) matches Some(v) && v <= stake_net(factor, amount) <= amount),
{
    lemma_fee_at_most_amount(factor, amount);
    lemma_stake_vouchers_value(rate, stake_net(factor, amount) as u128);
}

/// Staking `amount` and at once unstaking all the vouchers it minted, at an unchanged rate,
/// pays out no more than `amount`: at most what was staked once the fee was taken, and
/// exactly that at a rate of one.
pub proof fn lemma_round_trip_pays_no_more(rate: Rate, factor: Ratio, amount: Balance)
    requires
        factor.wf(),
    ensures
        stake_vouchers(rate, stake_net(factor, amount) as u128) matches Some(m) ==> (unstake_value(
            rate,
            m,
        ) matches Some(p) && p <= stake_net(factor, amount) <= amount),
        rate.inner == RATE_ACCURACY ==> stake_vouchers(rate, stake_net(factor, amount) as u128)
            == Some(stake_net(factor, amount) as u128) && unstake_value(
            rate,
            stake_net(factor, amount) as u128,
        ) == Some(stake_net(factor, amount) as u128),
{
    lemma_fee_at_most_amount(factor, amount);
    let net = stake_net(factor, amount) as u128;
    lemma_stake_vouchers_value(rate, net);
    if rate.inner == RATE_ACCURACY {
        let acc = RATE_ACCURACY as int;
        assert(acc * acc / acc == acc) by (nonlinear_arith)
            requires
                acc > 0,
        ;
        assert(acc * acc <= u128::MAX);
        assert(rate_reciprocal(rate) == Some(Rate { inner: RATE_ACCURACY }));
        assert(acc * (net as int) / acc == net) by (nonlinear_arith)
            requires
                acc > 0,
        ;
        assert(rate_mul_int(rate, net) == Some(net));
    }
}

/// The reserve fee of a stake lies between zero and the amount staked.
proof fn lemma_fee_at_most_amount(factor: Ratio, amount: Balance)
    requires
        factor.wf(),
    ensures
        0 <= stake_fee(factor, amount) <= amount,
{
    let fee = stake_fee(factor, amount);
    let parts = factor.parts as int;
    assert(0 <= fee <= amount) by (nonlinear_arith)
        requires
            fee == amount * parts / 1_000_000int,
            0 <= parts <= 1_000_000,
            0 <= amount,
    ;
}

/// The idle pass pays strictly in queue order. Take states `states[0..=n]` in which each
/// step pays the entry that [`Pallet::idle_payout`] offers, whatever the budget and
/// balance of that step, and then drops the front of the queue as
/// [`Pallet::idle_payout_done`] does: the entries paid are the first `n` entries of the
/// first queue, in order, and the queue that is left is the rest of it.
pub proof fn lemma_idle_pass_pays_in_order(
    states: Seq<Pallet>,
    budgets: Seq<Weight>,
    base_weight: Weight,
    balances: Seq<Balance>,
    paid: Seq<(CurrencyId, UnstakeEntry)>,
)
    requires
        states.len() == paid.len() + 1,
        budgets.len() == paid.len(),
        balances.len() == paid.len(),
        forall|i: int|
            0 <= i < paid.len() ==> states[i].idle_payout(budgets[i], base_weight, balances[i])
                == Some(#[trigger] paid[i]),
        forall|i: int|
            0 <= i < paid.len() ==> #[trigger] states[i + 1].unstake_queue@ == states[i].unstake_queue@.drop_first(),
    ensures
        paid.len() <= states[0].unstake_queue@.len(),
        paid.map_values(|p: (CurrencyId, UnstakeEntry)| p.1) == states[0].unstake_queue@.take(
            paid.len() as int,
        ),
        states.last().unstake_queue@ == states[0].unstake_queue@.skip(paid.len() as int),
    decreases paid.len(),
{
    let n = paid.len() as int;
    if n > 0 {
        let states1 = states.drop_last();
        let paid1 = paid.drop_last();
        assert forall|i: int| 0 <= i < paid1.len() implies states1[i].idle_payout(
            budgets.drop_last()[i],
            base_weight,
            balances.drop_last()[i],
        ) == Some(#[trigger] paid1[i]) by {
            assert(paid1[i] == paid[i]);
        }
        assert forall|i: int| 0 <= i < paid1.len() implies #[trigger] states1[i
            + 1].unstake_queue@ == states1[i].unstake_queue@.drop_first() by {
            assert(states1[i + 1] == states[i + 1]);
        }
        lemma_idle_pass_pays_in_order(
            states1,
            budgets.drop_last(),
            base_weight,
            balances.drop_last(),
            paid1,
        );
        let q0 = states[0].unstake_queue@;
        assert(states1.last() == states[n - 1]);
        assert(states[n - 1].unstake_queue@ == q0.skip(n - 1));
        assert(states[n - 1].idle_payout(budgets[n - 1], base_weight, balances[n - 1]) == Some(
            paid[n - 1],
        ));
        assert(states[n - 1].unstake_queue@.len() > 0);
        assert(paid[n - 1].1 == q0[n - 1]);
        assert(states[n].unstake_queue@ == states[n - 1].unstake_queue@.drop_first());
        assert(states[n].unstake_queue@ =~= q0.skip(n));
        assert(paid.map_values(|p: (CurrencyId, UnstakeEntry)| p.1) =~= q0.take(n)) by {
            assert forall|k: int| 0 <= k < n implies paid.map_values(
                |p: (CurrencyId, UnstakeEntry)| p.1,
            )[k] == q0.take(n)[k] by {
                if k < n - 1 {
                    assert(paid1.map_values(|p: (CurrencyId, UnstakeEntry)| p.1)[k] == q0.take(
                        n - 1,
                    )[k]);
                }
            }
        }
    } else {
        assert(states[0].unstake_queue@.take(0) =~= Seq::<UnstakeEntry>::empty());
        assert(paid.map_values(|p: (CurrencyId, UnstakeEntry)| p.1) =~= Seq::<
            UnstakeEntry,
        >::empty());
        assert(states[0].unstake_queue@.skip(0) =~= states[0].unstake_queue@);
    }
}

/// A full unstake queue takes no more withdrawals: an unstake whose payment could not be
/// made at once, and which owes something, is refused with `ExceededUnstakeQueueCapacity`
/// once the queue holds its capacity (and `unstake` then leaves the engine unchanged),
/// unless an earlier check refuses it first. No operation takes the queue past its
/// capacity, as each keeps `Pallet::wf`.
pub proof fn lemma_full_queue_refuses_unstake(p: Pallet, liquid_amount: Balance)
    requires
        p.wf(),
        p.unstake_queue@.len() == p.config.unstake_queue_capacity,
        liquid_amount > p.config.min_unstake_amount,
        unstake_value(p.exchange_rate, liquid_amount) matches Some(v) && v > 0,
        p.staking_currency is Some,
    ensures
        p.unstake_error(liquid_amount, false) == Some(Error::ExceededUnstakeQueueCapacity),
        p.unstake_queue@.len() <= p.unstake_queue.spec_capacity(),
{
}

/// Netting keeps the era in balance: bond minus unbond is stake minus unstake, so long as
/// the surplus of unstake is no more than what is bonded (beyond it the unbond is capped);
/// the rebond is at most the stake and at most what is unbonding; and an unbond never
/// comes together with a bond or a rebond.
pub proof fn lemma_netting_balances(
    stake: Balance,
    unstake: Balance,
    unbonding: Balance,
    bonded: Balance,
)
    ensures
        ({
            let (bond, rebond, unbond) = net_demand(
                stake as int,
                unstake as int,
                unbonding as int,
                bonded as int,
            );
            &&& bond >= 0 && rebond >= 0 && unbond >= 0
            &&& unstake <= stake + bonded ==> bond - unbond == stake - unstake
            &&& rebond <= min(stake as int, unbonding as int)
            &&& unbond > 0 ==> bond == 0 && rebond == 0
        }),
{
}

} // verus!
