use crate::error::Error;
use crate::fixed::{
    lemma_mul_div_at_most, lemma_mul_div_bounds, rate_from_rational, rate_mul_int,
    rate_reciprocal, Rate, Ratio, RATE_ACCURACY, RATIO_ACCURACY,
};
use crate::matching::{net_demand, MatchingLedger};
use crate::primitives::{AccountId, Balance, CurrencyId, Weight};
use crate::queue::{UnstakeEntry, UnstakeQueue};
use vstd::prelude::*;

verus! {

/// Where the relay chain pays staking rewards.
#[derive(Clone, Copy, Debug, PartialEq, Eq)]
pub enum RewardDestination {
    /// Paid into the stash and bonded.
    Staked,
    /// Paid into the stash, not bonded.
    Stash,
    /// Paid into the controller account.
    Controller,
    /// Paid into the given account.
    Account(AccountId),
    /// Not paid.
    Unpaid,
}

/// Weight bought on the relay chain for each kind of staking call.
#[derive(Clone, Copy, Debug, PartialEq, Eq, Structural)]
pub struct XcmWeightMisc {
    pub bond_weight: Weight,
    pub bond_extra_weight: Weight,
    pub unbond_weight: Weight,
    pub rebond_weight: Weight,
    pub withdraw_unbonded_weight: Weight,
    pub nominate_weight: Weight,
}

/// Fixed parameters of the engine.
#[derive(Clone, Copy, Debug, PartialEq, Eq)]
pub struct Config {
    /// A stake must be above this amount of base asset.
    pub min_stake_amount: Balance,
    /// An unstake must be above this amount of vouchers.
    pub min_unstake_amount: Balance,
    /// The most withdrawals that may wait in the unstake queue.
    pub unstake_queue_capacity: u32,
    /// The relay-chain account that bonds on the pool's behalf.
    pub derivative_account: AccountId,
    /// Weight bought for relay-chain calls until it is updated.
    pub xcm_weight: XcmWeightMisc,
}

/// Initial exchange rate and reserve factor.
#[derive(Clone, Copy, Debug, PartialEq, Eq, Structural)]
pub struct GenesisConfig {
    pub exchange_rate: Rate,
    pub reserve_factor: Ratio,
}

/// What happened, in the order it happened.
#[derive(Clone, Debug)]
pub enum Event {
    /// `(who, staked)`: base asset staked, net of the reserve fee.
    Staked(AccountId, Balance),
    /// `(who, vouchers, base asset)`: vouchers unstaked and what they are worth.
    Unstaked(AccountId, Balance, Balance),
    /// `(bond, rebond, unbond)` requested at the end of an era.
    Settlement(Balance, Balance, Balance),
    /// A bond request for the account, amount and reward destination.
    Bonding(AccountId, Balance, RewardDestination),
    /// A bond-extra request.
    BondingExtra(Balance),
    /// An unbond request.
    Unbonding(Balance),
    /// A rebond request.
    Rebonding(Balance),
    /// A withdraw-unbonded request, with its number of slashing spans.
    WithdrawingUnbonded(u32),
    /// A nominate request for the given validators.
    Nominating(Vec<AccountId>),
    /// The relay-chain fee compensation was set.
    XcmFeesUpdated(Balance),
    /// The staking pool capacity was set.
    StakingPoolCapacityUpdated(Balance),
    /// The weights bought for relay-chain calls were set.
    XcmWeightUpdated(XcmWeightMisc),
    /// The reserve factor was set.
    ReserveFactorUpdated(Ratio),
    /// `(who, amount)` was added to the insurance reserve.
    InsurancesAdded(AccountId, Balance),
    /// A slash was covered from the insurance reserve.
    SlashPaid(Balance),
    /// The exchange rate rose to the given value.
    ExchangeRateUpdated(Rate),
}

/// The state of the liquid staking engine.
#[derive(Clone, Debug)]
pub struct Pallet {
    pub config: Config,
    /// Base asset per voucher; it never decreases.
    pub exchange_rate: Rate,
    /// Fraction of each stake that goes to the insurance reserve.
    pub reserve_factor: Ratio,
    /// Demand of the current era.
    pub matching_pool: MatchingLedger,
    /// Withdrawals waiting for liquidity.
    pub unstake_queue: UnstakeQueue,
    pub liquid_currency: Option<CurrencyId>,
    pub staking_currency: Option<CurrencyId>,
    pub xcm_weight: XcmWeightMisc,
    pub xcm_fees: Balance,
    pub staking_pool_capacity: Balance,
    /// Base asset held back in the pool to cover slashes.
    pub insurance_pool: Balance,
    /// Events not yet handed out.
    pub events: Vec<Event>,
}

/// What the surrounding system carries out for a stake: move `amount` of the staking
/// currency from the staker into the pool, and mint `liquid_amount` vouchers to the staker.
#[derive(Clone, Copy, Debug, PartialEq, Eq, Structural)]
pub struct StakeReceipt {
    pub staking_currency: CurrencyId,
    pub liquid_currency: CurrencyId,
    pub amount: Balance,
    /// Part of `amount` that went to the insurance reserve.
    pub fee: Balance,
    /// Part of `amount` that is staked.
    pub staked: Balance,
    pub liquid_amount: Balance,
}

/// What the surrounding system carries out for an unstake: pay `asset_amount` of the
/// staking currency from the pool to the unstaker unless it was `queued` (the payment was
/// tried already), and burn `liquid_amount` vouchers of the unstaker.
#[derive(Clone, Copy, Debug, PartialEq, Eq, Structural)]
pub struct UnstakeReceipt {
    pub staking_currency: CurrencyId,
    pub liquid_currency: CurrencyId,
    pub liquid_amount: Balance,
    pub asset_amount: Balance,
    /// Whether the payment waits in the unstake queue.
    pub queued: bool,
}

/// What the surrounding system carries out at the end of an era: burn `bond_amount` of the
/// staking currency from the pool, and ask the relay chain to bond it (bond-extra where
/// `bond_extra`), to unbond `unbond_amount` and to rebond `rebond_amount`; zero amounts
/// ask for nothing.
#[derive(Clone, Copy, Debug, PartialEq, Eq, Structural)]
pub struct SettlementReceipt {
    pub staking_currency: CurrencyId,
    /// The exchange rate after the settlement.
    pub exchange_rate: Rate,
    pub bond_amount: Balance,
    pub rebond_amount: Balance,
    pub unbond_amount: Balance,
    /// Some stake is bonded already, so new stake is added to it.
    pub bond_extra: bool,
}

/// The rate after offering `candidate`: it replaces `current` only where it is higher.
pub open spec fn ratchet(current: Rate, candidate: Rate) -> Rate {
    if candidate.inner > current.inner {
        candidate
    } else {
        current
    }
}

/// The events of a settlement, in order.
pub open spec fn settlement_events(
    current: Rate,
    candidate: Rate,
    derivative_account: AccountId,
    bonded_amount: Balance,
    amounts: (Balance, Balance, Balance),
) -> Seq<Event> {
    let (bond, rebond, unbond) = amounts;
    let rate_events = if candidate.inner > current.inner {
        seq![Event::ExchangeRateUpdated(candidate)]
    } else {
        Seq::empty()
    };
    let bond_events = if bond == 0 {
        Seq::empty()
    } else if bonded_amount == 0 {
        seq![Event::Bonding(derivative_account, bond, RewardDestination::Staked)]
    } else {
        seq![Event::BondingExtra(bond)]
    };
    let unbond_events = if unbond == 0 {
        Seq::empty()
    } else {
        seq![Event::Unbonding(unbond)]
    };
    let rebond_events = if rebond == 0 {
        Seq::empty()
    } else {
        seq![Event::Rebonding(rebond)]
    };
    rate_events + bond_events + unbond_events + rebond_events + seq![
        Event::Settlement(bond, rebond, unbond),
    ]
}

/// `a - b`, or zero where `b` is larger.
pub open spec fn saturating_sub(a: u128, b: u128) -> u128 {
    if a >= b {
        (a - b) as u128
    } else {
        0
    }
}

/// The fee taken from a stake of `amount`.
pub open spec fn stake_fee(factor: Ratio, amount: u128) -> int {
    amount * factor.parts / (RATIO_ACCURACY as int)
}

/// What remains of a stake of `amount` once the fee is taken.
pub open spec fn stake_net(factor: Ratio, amount: u128) -> int {
    amount - stake_fee(factor, amount)
}

/// The vouchers minted for `net` base asset at `rate`: `net / rate`, through the
/// reciprocal of the rate; `None` where the rate is zero or the result overflows.
pub open spec fn vouchers_for(rate: Rate, net: u128) -> Option<u128> {
    match rate_reciprocal(rate) {
        Some(r) => rate_mul_int(r, net),
        None => None,
    }
}

/// The vouchers a stake mints for `net` base asset at `rate`: those that
/// [`vouchers_for`] buys, or one fewer where the rate values those above `net`, as it
/// can where the purchase was rounded up.
pub open spec fn stake_vouchers(rate: Rate, net: u128) -> Option<u128> {
    match vouchers_for(rate, net) {
        Some(m) => if rate_mul_int(rate, m) matches Some(v) && v <= net {
            Some(m)
        } else {
            Some((m - 1) as u128)
        },
        None => None,
    }
}

/// The vouchers a stake mints are worth, at the rate they were bought at, no more than
/// the base asset they were bought with.
pub proof fn lemma_stake_vouchers_value(rate: Rate, net: u128)
    ensures
        stake_vouchers(rate, net) matches Some(m) ==> m <= vouchers_for(rate, net)->0 && (
        rate_mul_int(rate, m) matches Some(v) && v <= net),
{
    if let Some(m) = vouchers_for(rate, net) {
        let acc = RATE_ACCURACY as int;
        let inner = rate.inner as int;
        assert(inner > 0);
        lemma_mul_div_bounds(acc, acc, inner);
        assert(acc * acc <= u128::MAX);
        let recip = rate_reciprocal(rate)->0.inner as int;
        assert(recip == acc * acc / inner);
        assert(recip * inner <= acc * acc) by (nonlinear_arith)
            requires
                recip == acc * acc / inner,
                inner > 0,
        ;
        lemma_mul_div_bounds(recip, net as int, acc);
        let f = recip * net / acc;
        assert(m <= f + 1);
        assert(f * inner <= (net as int) * acc) by (nonlinear_arith)
            requires
                f == recip * net / acc,
                recip * inner <= acc * acc,
                recip >= 0,
                net >= 0,
                inner > 0,
                acc > 0,
        ;
        if m == 0 {
            lemma_mul_div_bounds(inner, 0, acc);
            assert(inner * 0 == 0);
        } else if !(rate_mul_int(rate, m) matches Some(v) && v <= net) {
            let k = m - 1;
            assert(k * inner <= (net as int) * acc) by (nonlinear_arith)
                requires
                    k <= f,
                    f * inner <= (net as int) * acc,
                    k >= 0,
                    inner > 0,
            ;
            assert(inner * k == k * inner) by (nonlinear_arith);
            lemma_mul_div_at_most(inner, k, acc, net as int);
            lemma_mul_div_bounds(inner, k, acc);
        }
    }
}

/// The base asset owed for `liquid` vouchers at `rate`; `None` where the rate is zero
/// or the result overflows.
pub open spec fn unstake_value(rate: Rate, liquid: u128) -> Option<u128> {
    if rate.inner == 0 {
        None
    } else {
        rate_mul_int(rate, liquid)
    }
}

impl GenesisConfig {
    /// An engine with this rate and reserve factor, nothing staked and no currency set.
    pub fn build(&self, config: Config) -> (r: Pallet)
        requires
            self.reserve_factor.wf(),
        ensures
            r.wf(),
            r.config == config,
            r.exchange_rate == self.exchange_rate,
            r.reserve_factor == self.reserve_factor,
            r.matching_pool == (MatchingLedger { total_stake_amount: 0, total_unstake_amount: 0 }),
            r.unstake_queue@.len() == 0,
            (r.liquid_currency is None),
            (r.staking_currency is None),
            r.xcm_weight == config.xcm_weight,
            r.xcm_fees == 0,
            r.staking_pool_capacity == 0,
            r.insurance_pool == 0,
            r.events@.len() == 0,
    {
        Pallet {
            config,
            exchange_rate: self.exchange_rate,
            reserve_factor: self.reserve_factor,
            matching_pool: MatchingLedger::new(),
            unstake_queue: UnstakeQueue::new(config.unstake_queue_capacity),
            liquid_currency: None,
            staking_currency: None,
            xcm_weight: config.xcm_weight,
            xcm_fees: 0,
            staking_pool_capacity: 0,
            insurance_pool: 0,
            events: Vec::new(),
        }
    }
}

impl Default for GenesisConfig {
    fn default() -> (r: GenesisConfig)
        ensures
            r.exchange_rate.inner == 0,
            r.reserve_factor.parts == 0,
    {
        GenesisConfig { exchange_rate: Rate { inner: 0 }, reserve_factor: Ratio { parts: 0 } }
    }
}

impl Pallet {
    /// The reserve factor is a fraction, and the queue keeps to the configured capacity.
    pub open spec fn wf(&self) -> bool {
        &&& self.reserve_factor.wf()
        &&& self.unstake_queue.wf()
        &&& self.unstake_queue.spec_capacity() == self.config.unstake_queue_capacity
    }

    /// The staking currency, or `StakingCurrencyNotReady`.
    pub fn staking_currency(&self) -> (r: Result<CurrencyId, Error>)
        ensures
            self.staking_currency matches Some(c) ==> r == Ok::<CurrencyId, Error>(c),
            (self.staking_currency is None) ==> r == Err::<CurrencyId, Error>(
                Error::StakingCurrencyNotReady,
            ),
    {
        match self.staking_currency {
            Some(c) => Ok(c),
            None => Err(Error::StakingCurrencyNotReady),
        }
    }

    /// The liquid currency, or `LiquidCurrencyNotReady`.
    pub fn liquid_currency(&self) -> (r: Result<CurrencyId, Error>)
        ensures
            self.liquid_currency matches Some(c) ==> r == Ok::<CurrencyId, Error>(c),
            (self.liquid_currency is None) ==> r == Err::<CurrencyId, Error>(
                Error::LiquidCurrencyNotReady,
            ),
    {
        match self.liquid_currency {
            Some(c) => Ok(c),
            None => Err(Error::LiquidCurrencyNotReady),
        }
    }

    pub fn get_exchange_rate(&self) -> (r: Rate)
        ensures
            r == self.exchange_rate,
    {
        self.exchange_rate
    }

    pub fn get_staking_currency(&self) -> (r: Option<CurrencyId>)
        ensures
            r == self.staking_currency,
    {
        self.staking_currency
    }

    pub fn get_liquid_currency(&self) -> (r: Option<CurrencyId>)
        ensures
            r == self.liquid_currency,
    {
        self.liquid_currency
    }

    /// Why a stake of `amount` is refused, if it is.
    pub open spec fn stake_error(&self, amount: Balance) -> Option<Error> {
        if amount <= self.config.min_stake_amount {
            Some(Error::StakeAmountTooSmall)
        } else if self.staking_currency is None {
            Some(Error::StakingCurrencyNotReady)
        } else if self.insurance_pool + stake_fee(self.reserve_factor, amount) > u128::MAX {
            Some(Error::ArithmeticOverflow)
        } else if vouchers_for(self.exchange_rate, stake_net(self.reserve_factor, amount) as u128)
            is None {
            Some(Error::InvalidExchangeRate)
        } else if self.liquid_currency is None {
            Some(Error::LiquidCurrencyNotReady)
        } else if self.matching_pool.total_stake_amount + stake_net(self.reserve_factor, amount)
            > u128::MAX {
            Some(Error::ArithmeticOverflow)
        } else {
            None
        }
    }

    /// Stakes `amount` of base asset for `who`: the reserve factor's share of it goes to
    /// the insurance reserve, the rest is added to this era's stake demand and bought as
    /// vouchers at the current rate.
    pub fn stake(&mut self, who: AccountId, amount: Balance) -> (r: Result<StakeReceipt, Error>)
        requires
            old(self).wf(),
        ensures
            final(self).wf(),
            old(self).stake_error(amount) matches Some(e) ==> r == Err::<StakeReceipt, Error>(e)
                && *final(self) == *old(self),
            old(self).stake_error(amount) is None ==> ({
                let fee = stake_fee(old(self).reserve_factor, amount);
                let net = stake_net(old(self).reserve_factor, amount);
                &&& r matches Ok(receipt)
                &&& Some(receipt.staking_currency) == old(self).staking_currency
                &&& Some(receipt.liquid_currency) == old(self).liquid_currency
                &&& receipt.amount == amount
                &&& receipt.fee == fee
                &&& receipt.staked == net
                &&& Some(receipt.liquid_amount) == stake_vouchers(old(self).exchange_rate, net as u128)
                &&& rate_mul_int(old(self).exchange_rate, receipt.liquid_amount) matches Some(v)
                    && v <= net
                &&& final(self).insurance_pool == old(self).insurance_pool + fee
                &&& final(self).matching_pool.total_stake_amount
                    == old(self).matching_pool.total_stake_amount + net
                &&& final(self).matching_pool.total_unstake_amount
                    == old(self).matching_pool.total_unstake_amount
                &&& final(self).events@ == old(self).events@.push(Event::Staked(who, net as u128))
                &&& final(self).config == old(self).config
                &&& final(self).exchange_rate == old(self).exchange_rate
                &&& final(self).reserve_factor == old(self).reserve_factor
                &&& final(self).unstake_queue == old(self).unstake_queue
                &&& final(self).liquid_currency == old(self).liquid_currency
                &&& final(self).staking_currency == old(self).staking_currency
                &&& final(self).xcm_weight == old(self).xcm_weight
                &&& final(self).xcm_fees == old(self).xcm_fees
                &&& final(self).staking_pool_capacity == old(self).staking_pool_capacity
            }),
    {
        if amount <= self.config.min_stake_amount {
            return Err(Error::StakeAmountTooSmall);
        }
        let staking_currency = match self.staking_currency() {
            Ok(c) => c,
            Err(e) => return Err(e),
        };
        let fee = self.reserve_factor.mul_floor(amount);
        proof {
            assert(fee <= amount) by (nonlinear_arith)
                requires
                    fee == amount * self.reserve_factor.parts / 1_000_000int,
                    self.reserve_factor.parts <= 1_000_000,
            ;
        }
        let insurance_pool = match self.insurance_pool.checked_add(fee) {
            Some(v) => v,
            None => return Err(Error::ArithmeticOverflow),
        };
        let net = amount - fee;
        let bought = match self.exchange_rate.reciprocal() {
            Some(r) => match r.checked_mul_int(net) {
                Some(v) => v,
                None => return Err(Error::InvalidExchangeRate),
            },
            None => return Err(Error::InvalidExchangeRate),
        };
        proof {
            lemma_stake_vouchers_value(self.exchange_rate, net);
        }
        // The purchase may round up; never mint vouchers worth more than was paid.
        let worth_at_most_net = match self.exchange_rate.checked_mul_int(bought) {
            Some(v) => v <= net,
            None => false,
        };
        let liquid_amount = if worth_at_most_net {
            bought
        } else {
            bought - 1
        };
        let liquid_currency = match self.liquid_currency() {
            Ok(c) => c,
            Err(e) => return Err(e),
        };
        let mut matching_pool = self.matching_pool;
        match matching_pool.add_stake(net) {
            Ok(()) => {},
            Err(e) => return Err(e),
        }
        self.insurance_pool = insurance_pool;
        self.matching_pool = matching_pool;
        self.events.push(Event::Staked(who, net));
        Ok(
            StakeReceipt {
                staking_currency,
                liquid_currency,
                amount,
                fee,
                staked: net,
                liquid_amount,
            },
        )
    }

    /// Why an unstake of `liquid_amount` is refused, if it is; `paid_out` tells whether the
    /// pool could pay at once.
    pub open spec fn unstake_error(&self, liquid_amount: Balance, paid_out: bool) -> Option<
        Error,
    > {
        if liquid_amount <= self.config.min_unstake_amount {
            Some(Error::UnstakeAmountTooSmall)
        } else if unstake_value(self.exchange_rate, liquid_amount) is None {
            Some(Error::InvalidExchangeRate)
        } else if self.staking_currency is None {
            Some(Error::StakingCurrencyNotReady)
        } else if !paid_out && unstake_value(self.exchange_rate, liquid_amount)->0 > 0
            && self.unstake_queue@.len() >= self.config.unstake_queue_capacity {
            Some(Error::ExceededUnstakeQueueCapacity)
        } else if self.liquid_currency is None {
            Some(Error::LiquidCurrencyNotReady)
        } else if self.matching_pool.total_unstake_amount + liquid_amount > u128::MAX {
            Some(Error::ArithmeticOverflow)
        } else {
            None
        }
    }

    /// The base asset that `liquid_amount` vouchers are worth at the current rate, which the
    /// pool tries to pay before `unstake` is called.
    pub fn unstake_asset_amount(&self, liquid_amount: Balance) -> (r: Result<Balance, Error>)
        ensures
            liquid_amount <= self.config.min_unstake_amount ==> r == Err::<Balance, Error>(
                Error::UnstakeAmountTooSmall,
            ),
            liquid_amount > self.config.min_unstake_amount && (unstake_value(
                self.exchange_rate,
                liquid_amount,
            ) is None) ==> r == Err::<Balance, Error>(Error::InvalidExchangeRate),
            liquid_amount > self.config.min_unstake_amount && unstake_value(
                self.exchange_rate,
                liquid_amount,
            ) is Some && (self.staking_currency is None) ==> r == Err::<Balance, Error>(
                Error::StakingCurrencyNotReady,
            ),
            liquid_amount > self.config.min_unstake_amount && unstake_value(
                self.exchange_rate,
                liquid_amount,
            ) is Some && self.staking_currency is Some ==> r == Ok::<Balance, Error>(
                unstake_value(self.exchange_rate, liquid_amount)->0,
            ),
    {
        if liquid_amount <= self.config.min_unstake_amount {
            return Err(Error::UnstakeAmountTooSmall);
        }
        if self.exchange_rate.inner == 0 {
            return Err(Error::InvalidExchangeRate);
        }
        let asset_amount = match self.exchange_rate.checked_mul_int(liquid_amount) {
            Some(v) => v,
            None => return Err(Error::InvalidExchangeRate),
        };
        match self.staking_currency() {
            Ok(_) => Ok(asset_amount),
            Err(e) => Err(e),
        }
    }

    /// Unstakes `liquid_amount` vouchers of `who`: they are burnt and added to this era's
    /// unstake demand. What they are worth is paid at once where `paid_out`, and otherwise
    /// waits at the back of the unstake queue.
    pub fn unstake(&mut self, who: AccountId, liquid_amount: Balance, paid_out: bool) -> (r: Result<
        UnstakeReceipt,
        Error,
    >)
        requires
            old(self).wf(),
        ensures
            final(self).wf(),
            old(self).unstake_error(liquid_amount, paid_out) matches Some(e) ==> r == Err::<
                UnstakeReceipt,
                Error,
            >(e) && *final(self) == *old(self),
            old(self).unstake_error(liquid_amount, paid_out) is None ==> ({
                let asset_amount = unstake_value(old(self).exchange_rate, liquid_amount)->0;
                let queued = !paid_out && asset_amount > 0;
                &&& r matches Ok(receipt)
                &&& Some(receipt.staking_currency) == old(self).staking_currency
                &&& Some(receipt.liquid_currency) == old(self).liquid_currency
                &&& receipt.liquid_amount == liquid_amount
                &&& receipt.asset_amount == asset_amount
                &&& receipt.queued == queued
                &&& final(self).unstake_queue@ == if queued {
                    old(self).unstake_queue@.push((who, asset_amount))
                } else {
                    old(self).unstake_queue@
                }
                &&& final(self).matching_pool.total_unstake_amount
                    == old(self).matching_pool.total_unstake_amount + liquid_amount
                &&& final(self).matching_pool.total_stake_amount
                    == old(self).matching_pool.total_stake_amount
                &&& final(self).events@ == old(self).events@.push(
                    Event::Unstaked(who, liquid_amount, asset_amount),
                )
                &&& final(self).config == old(self).config
                &&& final(self).exchange_rate == old(self).exchange_rate
                &&& final(self).reserve_factor == old(self).reserve_factor
                &&& final(self).liquid_currency == old(self).liquid_currency
                &&& final(self).staking_currency == old(self).staking_currency
                &&& final(self).xcm_weight == old(self).xcm_weight
                &&& final(self).xcm_fees == old(self).xcm_fees
                &&& final(self).staking_pool_capacity == old(self).staking_pool_capacity
                &&& final(self).insurance_pool == old(self).insurance_pool
            }),
    {
        let asset_amount = match self.unstake_asset_amount(liquid_amount) {
            Ok(v) => v,
            Err(e) => return Err(e),
        };
        let staking_currency = match self.staking_currency() {
            Ok(c) => c,
            Err(e) => return Err(e),
        };
        let queued = !paid_out && asset_amount > 0;
        if queued && self.unstake_queue.len() >= self.config.unstake_queue_capacity as usize {
            return Err(Error::ExceededUnstakeQueueCapacity);
        }
        let liquid_currency = match self.liquid_currency() {
            Ok(c) => c,
            Err(e) => return Err(e),
        };
        let mut matching_pool = self.matching_pool;
        match matching_pool.add_unstake(liquid_amount) {
            Ok(()) => {},
            Err(e) => return Err(e),
        }
        if queued {
            match self.unstake_queue.try_push(who, asset_amount) {
                Ok(()) => {},
                Err(e) => return Err(e),
            }
        }
        self.matching_pool = matching_pool;
        self.events.push(Event::Unstaked(who, liquid_amount, asset_amount));
        Ok(
            UnstakeReceipt {
                staking_currency,
                liquid_currency,
                liquid_amount,
                asset_amount,
                queued,
            },
        )
    }

    /// The rate that a settlement offers: bonded stake and this era's stake, over the
    /// voucher issuance and this era's unstaked vouchers.
    pub open spec fn settlement_candidate(&self, bonded_amount: Balance, liquid_issuance: Balance) -> Option<Rate> {
        let stake = bonded_amount + self.matching_pool.total_stake_amount;
        let issuance = liquid_issuance + self.matching_pool.total_unstake_amount;
        if stake > u128::MAX || issuance > u128::MAX {
            None
        } else {
            rate_from_rational(stake as u128, issuance as u128)
        }
    }

    /// Why a settlement is refused, if it is.
    pub open spec fn settlement_error(
        &self,
        authorized: bool,
        bonded_amount: Balance,
        liquid_issuance: Balance,
    ) -> Option<Error> {
        if !authorized {
            Some(Error::Unauthorized)
        } else if self.liquid_currency is None {
            Some(Error::LiquidCurrencyNotReady)
        } else if bonded_amount + self.matching_pool.total_stake_amount > u128::MAX
            || liquid_issuance + self.matching_pool.total_unstake_amount > u128::MAX {
            Some(Error::ArithmeticOverflow)
        } else if self.settlement_candidate(bonded_amount, liquid_issuance) is None {
            Some(Error::InvalidExchangeRate)
        } else if rate_mul_int(
            ratchet(self.exchange_rate, self.settlement_candidate(bonded_amount, liquid_issuance)->0),
            self.matching_pool.total_unstake_amount,
        ) is None {
            Some(Error::ArithmeticOverflow)
        } else if self.staking_currency is None {
            Some(Error::StakingCurrencyNotReady)
        } else {
            None
        }
    }


    /// Settles the era: offers the rate `(bonded_amount + stake) / (liquid_issuance +
    /// unstake)`, which replaces the current rate only where it is higher, then nets the
    /// era's demand at the resulting rate and empties the matching ledger. `bonded_amount`
    /// is what the relay chain reports bonded, `unbonding_amount` what is on its way out.
    pub fn settlement(
        &mut self,
        authorized: bool,
        bonded_amount: Balance,
        unbonding_amount: Balance,
        liquid_issuance: Balance,
    ) -> (r: Result<SettlementReceipt, Error>)
        requires
            old(self).wf(),
        ensures
            final(self).wf(),
            old(self).settlement_error(authorized, bonded_amount, liquid_issuance) matches Some(e)
                ==> r == Err::<SettlementReceipt, Error>(e) && *final(self) == *old(self),
            old(self).settlement_error(authorized, bonded_amount, liquid_issuance) is None ==> ({
                let candidate = old(self).settlement_candidate(bonded_amount, liquid_issuance)->0;
                let rate = ratchet(old(self).exchange_rate, candidate);
                let unstake = rate_mul_int(rate, old(self).matching_pool.total_unstake_amount)->0;
                let amounts = net_demand(
                    old(self).matching_pool.total_stake_amount as int,
                    unstake as int,
                    unbonding_amount as int,
                    bonded_amount as int,
                );
                &&& r matches Ok(receipt)
                &&& Some(receipt.staking_currency) == old(self).staking_currency
                &&& receipt.exchange_rate == rate
                &&& receipt.bond_amount == amounts.0
                &&& receipt.rebond_amount == amounts.1
                &&& receipt.unbond_amount == amounts.2
                &&& receipt.bond_extra == (bonded_amount != 0)
                &&& final(self).exchange_rate == rate
                &&& final(self).matching_pool == (MatchingLedger {
                    total_stake_amount: 0,
                    total_unstake_amount: 0,
                })
                &&& final(self).events@ == old(self).events@ + settlement_events(
                    old(self).exchange_rate,
                    candidate,
                    old(self).config.derivative_account,
                    bonded_amount,
                    (receipt.bond_amount, receipt.rebond_amount, receipt.unbond_amount),
                )
                &&& final(self).config == old(self).config
                &&& final(self).reserve_factor == old(self).reserve_factor
                &&& final(self).unstake_queue == old(self).unstake_queue
                &&& final(self).liquid_currency == old(self).liquid_currency
                &&& final(self).staking_currency == old(self).staking_currency
                &&& final(self).xcm_weight == old(self).xcm_weight
                &&& final(self).xcm_fees == old(self).xcm_fees
                &&& final(self).staking_pool_capacity == old(self).staking_pool_capacity
                &&& final(self).insurance_pool == old(self).insurance_pool
            }),
    {
        if !authorized {
            return Err(Error::Unauthorized);
        }
        if self.liquid_currency.is_none() {
            return Err(Error::LiquidCurrencyNotReady);
        }
        let stake = match bonded_amount.checked_add(self.matching_pool.total_stake_amount) {
            Some(v) => v,
            None => return Err(Error::ArithmeticOverflow),
        };
        let issuance = match liquid_issuance.checked_add(self.matching_pool.total_unstake_amount) {
            Some(v) => v,
            None => return Err(Error::ArithmeticOverflow),
        };
        let candidate = match Rate::checked_from_rational(stake, issuance) {
            Some(v) => v,
            None => return Err(Error::InvalidExchangeRate),
        };
        let rate = if candidate.inner > self.exchange_rate.inner {
            candidate
        } else {
            self.exchange_rate
        };
        let (bond_amount, rebond_amount, unbond_amount) = match self.matching_pool.matching(
            rate,
            unbonding_amount,
            bonded_amount,
        ) {
            Ok(t) => t,
            Err(e) => return Err(e),
        };
        let staking_currency = match self.staking_currency() {
            Ok(c) => c,
            Err(e) => return Err(e),
        };
        let ghost events0 = self.events@;
        let ghost rate_events = if candidate.inner > self.exchange_rate.inner {
            seq![Event::ExchangeRateUpdated(candidate)]
        } else {
            Seq::<Event>::empty()
        };
        if candidate.inner > self.exchange_rate.inner {
            self.exchange_rate = candidate;
            self.events.push(Event::ExchangeRateUpdated(candidate));
        }
        assert(self.events@ =~= events0 + rate_events);
        let bond_extra = bonded_amount != 0;
        if bond_amount != 0 {
            if !bond_extra {
                self.events.push(
                    Event::Bonding(self.config.derivative_account, bond_amount, RewardDestination::Staked),
                );
            } else {
                self.events.push(Event::BondingExtra(bond_amount));
            }
        }
        if unbond_amount != 0 {
            self.events.push(Event::Unbonding(unbond_amount));
        }
        if rebond_amount != 0 {
            self.events.push(Event::Rebonding(rebond_amount));
        }
        self.events.push(Event::Settlement(bond_amount, rebond_amount, unbond_amount));
        self.matching_pool = MatchingLedger::new();
        proof {
            let spec_events = settlement_events(
                old(self).exchange_rate,
                candidate,
                old(self).config.derivative_account,
                bonded_amount,
                (bond_amount, rebond_amount, unbond_amount),
            );
            assert(self.events@ =~= events0 + spec_events);
        }
        Ok(
            SettlementReceipt {
                staking_currency,
                exchange_rate: rate,
                bond_amount,
                rebond_amount,
                unbond_amount,
                bond_extra,
            },
        )
    }


    /// Equal to `other` in every field but the events.
    pub open spec fn same_but_events(&self, other: &Pallet) -> bool {
        &&& self.config == other.config
        &&& self.exchange_rate == other.exchange_rate
        &&& self.reserve_factor == other.reserve_factor
        &&& self.matching_pool == other.matching_pool
        &&& self.unstake_queue == other.unstake_queue
        &&& self.liquid_currency == other.liquid_currency
        &&& self.staking_currency == other.staking_currency
        &&& self.xcm_weight == other.xcm_weight
        &&& self.xcm_fees == other.xcm_fees
        &&& self.staking_pool_capacity == other.staking_pool_capacity
        &&& self.insurance_pool == other.insurance_pool
    }

    /// The withdrawal that an idle pass pays next, and the currency to pay it in: none
    /// where the staking currency is not set, where less than `base_weight` of the budget
    /// is left, where the queue is empty, or where the pool's balance beyond the insurance
    /// reserve does not cover the front entry.
    pub open spec fn idle_payout(
        &self,
        remaining_weight: Weight,
        base_weight: Weight,
        reducible_balance: Balance,
    ) -> Option<(CurrencyId, UnstakeEntry)> {
        if self.staking_currency is None || remaining_weight < base_weight
            || self.unstake_queue@.len() == 0 || saturating_sub(
            reducible_balance,
            self.insurance_pool,
        ) < self.unstake_queue@[0].1 {
            None
        } else {
            Some((self.staking_currency->0, self.unstake_queue@[0]))
        }
    }

    /// One decision of the idle pass over the unstake queue; see [`Pallet::idle_payout`].
    /// Only the front entry is ever offered. Once its payment succeeds the caller reports
    /// it with [`Pallet::idle_payout_done`]; when it fails, or nothing is offered, the pass
    /// ends, with the queue as it is.
    pub fn next_idle_payout(
        &self,
        remaining_weight: Weight,
        base_weight: Weight,
        reducible_balance: Balance,
    ) -> (r: Option<(CurrencyId, UnstakeEntry)>)
        ensures
            r == self.idle_payout(remaining_weight, base_weight, reducible_balance),
    {
        let staking_currency = match self.staking_currency {
            Some(c) => c,
            None => return None,
        };
        if remaining_weight < base_weight {
            return None;
        }
        let front = match self.unstake_queue.front() {
            Some(e) => e,
            None => return None,
        };
        let free_balance = if reducible_balance >= self.insurance_pool {
            reducible_balance - self.insurance_pool
        } else {
            0
        };
        if free_balance < front.1 {
            return None;
        }
        Some((staking_currency, front))
    }

    /// Records that the front entry of the unstake queue was paid: it leaves the queue,
    /// and one payment's weight leaves the budget, whose rest is returned.
    pub fn idle_payout_done(&mut self, remaining_weight: Weight, base_weight: Weight) -> (r: Weight)
        requires
            old(self).wf(),
            old(self).unstake_queue@.len() > 0,
            remaining_weight >= base_weight,
        ensures
            final(self).wf(),
            r == remaining_weight - base_weight,
            final(self).unstake_queue@ == old(self).unstake_queue@.drop_first(),
            final(self).unstake_queue.spec_capacity() == old(self).unstake_queue.spec_capacity(),
            final(self).events == old(self).events,
            final(self).config == old(self).config,
            final(self).exchange_rate == old(self).exchange_rate,
            final(self).reserve_factor == old(self).reserve_factor,
            final(self).matching_pool == old(self).matching_pool,
            final(self).liquid_currency == old(self).liquid_currency,
            final(self).staking_currency == old(self).staking_currency,
            final(self).xcm_weight == old(self).xcm_weight,
            final(self).xcm_fees == old(self).xcm_fees,
            final(self).staking_pool_capacity == old(self).staking_pool_capacity,
            final(self).insurance_pool == old(self).insurance_pool,
    {
        let _ = self.unstake_queue.pop_front();
        remaining_weight - base_weight
    }

    /// Why a request to the relay chain is refused, if it is.
    pub open spec fn relay_error(&self, authorized: bool) -> Option<Error> {
        if !authorized {
            Some(Error::Unauthorized)
        } else if self.staking_currency is None {
            Some(Error::StakingCurrencyNotReady)
        } else {
            None
        }
    }

    /// Records a request to the relay chain and hands back the staking currency that pays
    /// for it.
    fn relay_request(&mut self, authorized: bool, event: Event) -> (r: Result<CurrencyId, Error>)
        requires
            old(self).wf(),
        ensures
            final(self).wf(),
            old(self).relay_error(authorized) matches Some(e) ==> r == Err::<CurrencyId, Error>(e)
                && *final(self) == *old(self),
            old(self).relay_error(authorized) is None ==> r == Ok::<CurrencyId, Error>(
                old(self).staking_currency->0,
            ) && final(self).same_but_events(old(self)) && final(self).events@ == old(
                self,
            ).events@.push(event),
    {
        if !authorized {
            return Err(Error::Unauthorized);
        }
        let staking_currency = match self.staking_currency() {
            Ok(c) => c,
            Err(e) => return Err(e),
        };
        self.events.push(event);
        Ok(staking_currency)
    }

    /// Asks the relay chain to bond `value` with rewards paid to `payee`.
    pub fn bond(&mut self, authorized: bool, value: Balance, payee: RewardDestination) -> (r: Result<
        CurrencyId,
        Error,
    >)
        requires
            old(self).wf(),
        ensures
            final(self).wf(),
            old(self).relay_error(authorized) matches Some(e) ==> r == Err::<CurrencyId, Error>(e)
                && *final(self) == *old(self),
            old(self).relay_error(authorized) is None ==> r == Ok::<CurrencyId, Error>(
                old(self).staking_currency->0,
            ) && final(self).same_but_events(old(self)) && final(self).events@ == old(
                self,
            ).events@.push(Event::Bonding(old(self).config.derivative_account, value, payee)),
    {
        let event = Event::Bonding(self.config.derivative_account, value, payee);
        self.relay_request(authorized, event)
    }

    /// Asks the relay chain to bond `value` more.
    pub fn bond_extra(&mut self, authorized: bool, value: Balance) -> (r: Result<CurrencyId, Error>)
        requires
            old(self).wf(),
        ensures
            final(self).wf(),
            old(self).relay_error(authorized) matches Some(e) ==> r == Err::<CurrencyId, Error>(e)
                && *final(self) == *old(self),
            old(self).relay_error(authorized) is None ==> r == Ok::<CurrencyId, Error>(
                old(self).staking_currency->0,
            ) && final(self).same_but_events(old(self)) && final(self).events@ == old(
                self,
            ).events@.push(Event::BondingExtra(value)),
    {
        self.relay_request(authorized, Event::BondingExtra(value))
    }

    /// Asks the relay chain to unbond `value`.
    pub fn unbond(&mut self, authorized: bool, value: Balance) -> (r: Result<CurrencyId, Error>)
        requires
            old(self).wf(),
        ensures
            final(self).wf(),
            old(self).relay_error(authorized) matches Some(e) ==> r == Err::<CurrencyId, Error>(e)
                && *final(self) == *old(self),
            old(self).relay_error(authorized) is None ==> r == Ok::<CurrencyId, Error>(
                old(self).staking_currency->0,
            ) && final(self).same_but_events(old(self)) && final(self).events@ == old(
                self,
            ).events@.push(Event::Unbonding(value)),
    {
        self.relay_request(authorized, Event::Unbonding(value))
    }

    /// Asks the relay chain to rebond `value` of what is unbonding.
    pub fn rebond(&mut self, authorized: bool, value: Balance) -> (r: Result<CurrencyId, Error>)
        requires
            old(self).wf(),
        ensures
            final(self).wf(),
            old(self).relay_error(authorized) matches Some(e) ==> r == Err::<CurrencyId, Error>(e)
                && *final(self) == *old(self),
            old(self).relay_error(authorized) is None ==> r == Ok::<CurrencyId, Error>(
                old(self).staking_currency->0,
            ) && final(self).same_but_events(old(self)) && final(self).events@ == old(
                self,
            ).events@.push(Event::Rebonding(value)),
    {
        self.relay_request(authorized, Event::Rebonding(value))
    }

    /// Asks the relay chain to withdraw `amount` of unbonded stake.
    pub fn withdraw_unbonded(
        &mut self,
        authorized: bool,
        num_slashing_spans: u32,
        amount: Balance,
    ) -> (r: Result<CurrencyId, Error>)
        requires
            old(self).wf(),
        ensures
            final(self).wf(),
            old(self).relay_error(authorized) matches Some(e) ==> r == Err::<CurrencyId, Error>(e)
                && *final(self) == *old(self),
            old(self).relay_error(authorized) is None ==> r == Ok::<CurrencyId, Error>(
                old(self).staking_currency->0,
            ) && final(self).same_but_events(old(self)) && final(self).events@ == old(
                self,
            ).events@.push(Event::WithdrawingUnbonded(num_slashing_spans)),
    {
        self.relay_request(authorized, Event::WithdrawingUnbonded(num_slashing_spans))
    }

    /// Asks the relay chain to nominate `targets`.
    pub fn nominate(&mut self, authorized: bool, targets: Vec<AccountId>) -> (r: Result<
        CurrencyId,
        Error,
    >)
        requires
            old(self).wf(),
        ensures
            final(self).wf(),
            old(self).relay_error(authorized) matches Some(e) ==> r == Err::<CurrencyId, Error>(e)
                && *final(self) == *old(self),
            old(self).relay_error(authorized) is None ==> r == Ok::<CurrencyId, Error>(
                old(self).staking_currency->0,
            ) && final(self).same_but_events(old(self)) && final(self).events@ == old(
                self,
            ).events@.push(Event::Nominating(targets)),
    {
        self.relay_request(authorized, Event::Nominating(targets))
    }

    /// Why covering a slash of `amount` from the insurance reserve is refused, if it is.
    pub open spec fn payout_slashed_error(&self, authorized: bool, amount: Balance) -> Option<Error> {
        if !authorized {
            Some(Error::Unauthorized)
        } else if self.insurance_pool < amount {
            Some(Error::ArithmeticUnderflow)
        } else if self.staking_currency is None {
            Some(Error::StakingCurrencyNotReady)
        } else {
            None
        }
    }

    /// Covers a slash of `amount` from the insurance reserve, bonding it again on the relay
    /// chain.
    pub fn payout_slashed(&mut self, authorized: bool, amount: Balance) -> (r: Result<
        CurrencyId,
        Error,
    >)
        requires
            old(self).wf(),
        ensures
            final(self).wf(),
            old(self).payout_slashed_error(authorized, amount) matches Some(e) ==> r == Err::<
                CurrencyId,
                Error,
            >(e) && *final(self) == *old(self),
            old(self).payout_slashed_error(authorized, amount) is None ==> ({
                &&& r == Ok::<CurrencyId, Error>(old(self).staking_currency->0)
                &&& final(self).insurance_pool == old(self).insurance_pool - amount
                &&& final(self).events@ == old(self).events@.push(Event::BondingExtra(amount)).push(
                    Event::SlashPaid(amount),
                )
                &&& final(self).same_but_events(
                    &(Pallet { insurance_pool: final(self).insurance_pool, ..*old(self) }),
                )
            }),
    {
        if !authorized {
            return Err(Error::Unauthorized);
        }
        let insurance_pool = match self.insurance_pool.checked_sub(amount) {
            Some(v) => v,
            None => return Err(Error::ArithmeticUnderflow),
        };
        let staking_currency = match self.staking_currency() {
            Ok(c) => c,
            Err(e) => return Err(e),
        };
        self.insurance_pool = insurance_pool;
        self.events.push(Event::BondingExtra(amount));
        self.events.push(Event::SlashPaid(amount));
        Ok(staking_currency)
    }

    /// Why adding `amount` to the insurance reserve is refused, if it is.
    pub open spec fn add_insurances_error(&self, amount: Balance) -> Option<Error> {
        if self.staking_currency is None {
            Some(Error::StakingCurrencyNotReady)
        } else if self.insurance_pool + amount > u128::MAX {
            Some(Error::ArithmeticOverflow)
        } else {
            None
        }
    }

    /// Adds `amount` of base asset from `who` to the insurance reserve; the caller moves it
    /// into the pool in the returned currency.
    pub fn add_insurances(&mut self, who: AccountId, amount: Balance) -> (r: Result<CurrencyId, Error>)
        requires
            old(self).wf(),
        ensures
            final(self).wf(),
            old(self).add_insurances_error(amount) matches Some(e) ==> r == Err::<CurrencyId, Error>(
                e,
            ) && *final(self) == *old(self),
            old(self).add_insurances_error(amount) is None ==> ({
                &&& r == Ok::<CurrencyId, Error>(old(self).staking_currency->0)
                &&& final(self).insurance_pool == old(self).insurance_pool + amount
                &&& final(self).events@ == old(self).events@.push(Event::InsurancesAdded(who, amount))
                &&& final(self).same_but_events(
                    &(Pallet { insurance_pool: final(self).insurance_pool, ..*old(self) }),
                )
            }),
    {
        let staking_currency = match self.staking_currency() {
            Ok(c) => c,
            Err(e) => return Err(e),
        };
        let insurance_pool = match self.insurance_pool.checked_add(amount) {
            Some(v) => v,
            None => return Err(Error::ArithmeticOverflow),
        };
        self.insurance_pool = insurance_pool;
        self.events.push(Event::InsurancesAdded(who, amount));
        Ok(staking_currency)
    }


    /// Sets the fee compensation for relay-chain calls.
    pub fn update_xcm_fees(&mut self, authorized: bool, fees: Balance) -> (r: Result<(), Error>)
        requires
            old(self).wf(),
        ensures
            final(self).wf(),
            !authorized ==> r == Err::<(), Error>(Error::Unauthorized) && *final(self) == *old(self),
            authorized ==> ({
                &&& r == Ok::<(), Error>(())
                &&& final(self).xcm_fees == fees
                &&& final(self).events@ == old(self).events@.push(Event::XcmFeesUpdated(fees))
                &&& final(self).same_but_events(&(Pallet { xcm_fees: fees, ..*old(self) }))
            }),
    {
        if !authorized {
            return Err(Error::Unauthorized);
        }
        self.xcm_fees = fees;
        self.events.push(Event::XcmFeesUpdated(fees));
        Ok(())
    }

    /// Sets the share of each stake that goes to the insurance reserve.
    pub fn update_reserve_factor(&mut self, authorized: bool, reserve_factor: Ratio) -> (r: Result<(), Error>)
        requires
            old(self).wf(),
            reserve_factor.wf(),
        ensures
            final(self).wf(),
            !authorized ==> r == Err::<(), Error>(Error::Unauthorized) && *final(self) == *old(self),
            authorized ==> ({
                &&& r == Ok::<(), Error>(())
                &&& final(self).reserve_factor == reserve_factor
                &&& final(self).events@ == old(self).events@.push(Event::ReserveFactorUpdated(reserve_factor))
                &&& final(self).same_but_events(&(Pallet { reserve_factor: reserve_factor, ..*old(self) }))
            }),
    {
        if !authorized {
            return Err(Error::Unauthorized);
        }
        self.reserve_factor = reserve_factor;
        self.events.push(Event::ReserveFactorUpdated(reserve_factor));
        Ok(())
    }

    /// Sets the weights bought for relay-chain calls.
    pub fn update_xcm_weight(&mut self, authorized: bool, xcm_weight_misc: XcmWeightMisc) -> (r: Result<(), Error>)
        requires
            old(self).wf(),
        ensures
            final(self).wf(),
            !authorized ==> r == Err::<(), Error>(Error::Unauthorized) && *final(self) == *old(self),
            authorized ==> ({
                &&& r == Ok::<(), Error>(())
                &&& final(self).xcm_weight == xcm_weight_misc
                &&& final(self).events@ == old(self).events@.push(Event::XcmWeightUpdated(xcm_weight_misc))
                &&& final(self).same_but_events(&(Pallet { xcm_weight: xcm_weight_misc, ..*old(self) }))
            }),
    {
        if !authorized {
            return Err(Error::Unauthorized);
        }
        self.xcm_weight = xcm_weight_misc;
        self.events.push(Event::XcmWeightUpdated(xcm_weight_misc));
        Ok(())
    }

    /// Sets the cap on the base asset staked in the pool.
    pub fn update_staking_pool_capacity(&mut self, authorized: bool, cap: Balance) -> (r: Result<(), Error>)
        requires
            old(self).wf(),
        ensures
            final(self).wf(),
            !authorized ==> r == Err::<(), Error>(Error::Unauthorized) && *final(self) == *old(self),
            authorized ==> ({
                &&& r == Ok::<(), Error>(())
                &&& final(self).staking_pool_capacity == cap
                &&& final(self).events@ == old(self).events@.push(Event::StakingPoolCapacityUpdated(cap))
                &&& final(self).same_but_events(&(Pallet { staking_pool_capacity: cap, ..*old(self) }))
            }),
    {
        if !authorized {
            return Err(Error::Unauthorized);
        }
        self.staking_pool_capacity = cap;
        self.events.push(Event::StakingPoolCapacityUpdated(cap));
        Ok(())
    }

    /// Sets the currency of the vouchers.
    pub fn set_liquid_currency(&mut self, authorized: bool, asset_id: CurrencyId) -> (r: Result<(), Error>)
        requires
            old(self).wf(),
        ensures
            final(self).wf(),
            !authorized ==> r == Err::<(), Error>(Error::Unauthorized) && *final(self) == *old(self),
            authorized ==> ({
                &&& r == Ok::<(), Error>(())
                &&& final(self).liquid_currency == Some(asset_id)
                &&& final(self).events == old(self).events
                &&& final(self).same_but_events(&(Pallet { liquid_currency: Some(asset_id), ..*old(self) }))
            }),
    {
        if !authorized {
            return Err(Error::Unauthorized);
        }
        self.liquid_currency = Some(asset_id);
        Ok(())
    }

    /// Sets the currency that is staked.
    pub fn set_staking_currency(&mut self, authorized: bool, asset_id: CurrencyId) -> (r: Result<(), Error>)
        requires
            old(self).wf(),
        ensures
            final(self).wf(),
            !authorized ==> r == Err::<(), Error>(Error::Unauthorized) && *final(self) == *old(self),
            authorized ==> ({
                &&& r == Ok::<(), Error>(())
                &&& final(self).staking_currency == Some(asset_id)
                &&& final(self).events == old(self).events
                &&& final(self).same_but_events(&(Pallet { staking_currency: Some(asset_id), ..*old(self) }))
            }),
    {
        if !authorized {
            return Err(Error::Unauthorized);
        }
        self.staking_currency = Some(asset_id);
        Ok(())
    }

    /// Hands out the events recorded so far, oldest first, and forgets them.
    pub fn take_events(&mut self) -> (r: Vec<Event>)
        requires
            old(self).wf(),
        ensures
            final(self).wf(),
            r@ == old(self).events@,
            final(self).events@.len() == 0,
            final(self).same_but_events(old(self)),
    {
        let mut events: Vec<Event> = Vec::new();
        std::mem::swap(&mut self.events, &mut events);
        events
    }

}

} // verus!
