use liquid_staking::error::Error;
use liquid_staking::fixed::{Rate, Ratio};
use liquid_staking::matching::{net_demand_amounts, MatchingLedger};
use liquid_staking::pallet::{Config, Event, GenesisConfig, Pallet, RewardDestination, XcmWeightMisc};
use liquid_staking::primitives::{
    LiquidStakingHubMethod, ParachainPallet, Phase, ResponseStatus, StakingOperationType,
};

const ONE: u128 = 1_000_000_000_000_000_000;
const ALICE: [u8; 32] = [1u8; 32];
const DERIVATIVE: [u8; 32] = [9u8; 32];

fn engine(rate_inner: u128) -> Pallet {
    let weights = XcmWeightMisc {
        bond_weight: 1,
        bond_extra_weight: 2,
        unbond_weight: 3,
        rebond_weight: 4,
        withdraw_unbonded_weight: 5,
        nominate_weight: 6,
    };
    let config = Config {
        min_stake_amount: 0,
        min_unstake_amount: 0,
        unstake_queue_capacity: 4,
        derivative_account: DERIVATIVE,
        xcm_weight: weights,
    };
    let genesis = GenesisConfig { exchange_rate: Rate::from_inner(rate_inner), reserve_factor: Ratio::from_parts(0) };
    let mut p = genesis.build(config);
    p.set_staking_currency(true, 100).unwrap();
    p.set_liquid_currency(true, 1000).unwrap();
    p
}

#[test]
fn matching_stake_surplus_bonds_difference() {
    let ledger = MatchingLedger { total_stake_amount: 500, total_unstake_amount: 300 };
    assert_eq!(ledger.matching(Rate::one(), 0, 10_000), Ok((200, 0, 0)));
}

#[test]
fn matching_unstake_surplus_unbonds_difference() {
    let ledger = MatchingLedger { total_stake_amount: 100, total_unstake_amount: 400 };
    assert_eq!(ledger.matching(Rate::one(), 50, 10_000), Ok((0, 0, 300)));
}

#[test]
fn matching_values_unstake_at_the_rate() {
    let ledger = MatchingLedger { total_stake_amount: 500, total_unstake_amount: 300 };
    assert_eq!(ledger.matching(Rate::from_inner(3 * ONE / 2), 0, 10_000), Ok((50, 0, 0)));
    let overflow = MatchingLedger { total_stake_amount: 0, total_unstake_amount: u128::MAX };
    assert_eq!(overflow.matching(Rate::from_inner(2 * ONE), 0, 0), Err(Error::ArithmeticOverflow));
}

#[test]
fn netting_rebonds_what_is_in_flight() {
    assert_eq!(net_demand_amounts(300, 100, 500, 1000), (200, 200, 0));
    assert_eq!(net_demand_amounts(300, 100, 50, 1000), (200, 50, 0));
    assert_eq!(net_demand_amounts(100, 100, 50, 1000), (0, 0, 0));
}

#[test]
fn netting_caps_unbond_at_bonded() {
    assert_eq!(net_demand_amounts(0, 100, 0, 50), (0, 0, 50));
    assert_eq!(net_demand_amounts(20, 100, 7, 1000), (0, 0, 80));
}

#[test]
fn settlement_bonds_net_stake() {
    let mut p = engine(ONE);
    p.stake(ALICE, 500).unwrap();
    p.unstake(ALICE, 300, true).unwrap();
    p.take_events();
    // (1000 + 500) / (1200 + 300) keeps the rate at one
    let r = p.settlement(true, 1000, 0, 1200).unwrap();
    assert_eq!(r.exchange_rate, Rate::one());
    assert_eq!((r.bond_amount, r.rebond_amount, r.unbond_amount), (200, 0, 0));
    assert!(r.bond_extra);
    assert_eq!(r.staking_currency, 100);
    assert_eq!(p.matching_pool, MatchingLedger::new());
    let events = p.take_events();
    assert_eq!(events.len(), 2);
    assert!(matches!(events[0], Event::BondingExtra(200)));
    assert!(matches!(events[1], Event::Settlement(200, 0, 0)));
}

#[test]
fn settlement_unbonds_net_unstake() {
    let mut p = engine(ONE);
    p.stake(ALICE, 100).unwrap();
    p.unstake(ALICE, 400, true).unwrap();
    p.take_events();
    // (2300 + 100) / (2000 + 400) keeps the rate at one
    let r = p.settlement(true, 2300, 50, 2000).unwrap();
    assert_eq!((r.bond_amount, r.rebond_amount, r.unbond_amount), (0, 0, 300));
    let events = p.take_events();
    assert_eq!(events.len(), 2);
    assert!(matches!(events[0], Event::Unbonding(300)));
    assert!(matches!(events[1], Event::Settlement(0, 0, 300)));
}

#[test]
fn settlement_first_bond_and_rebond() {
    let mut p = engine(ONE);
    p.stake(ALICE, 500).unwrap();
    p.take_events();
    // nothing bonded yet: the candidate 500 / 500 is one
    let r = p.settlement(true, 0, 80, 500).unwrap();
    assert!(!r.bond_extra);
    assert_eq!((r.bond_amount, r.rebond_amount, r.unbond_amount), (500, 80, 0));
    let events = p.take_events();
    assert_eq!(events.len(), 3);
    assert!(matches!(events[0], Event::Bonding(who, 500, RewardDestination::Staked) if who == DERIVATIVE));
    assert!(matches!(events[1], Event::Rebonding(80)));
    assert!(matches!(events[2], Event::Settlement(500, 80, 0)));
}

#[test]
fn settlement_raises_rate_but_never_lowers_it() {
    let mut p = engine(ONE);
    let r = p.settlement(true, 3000, 0, 2000).unwrap();
    assert_eq!(r.exchange_rate, Rate::from_inner(3 * ONE / 2));
    assert_eq!(p.get_exchange_rate(), Rate::from_inner(3 * ONE / 2));
    let events = p.take_events();
    assert!(matches!(events[0], Event::ExchangeRateUpdated(rate) if rate == Rate::from_inner(3 * ONE / 2)));
    // a slash lowers the computed rate: the recorded one stays
    let r2 = p.settlement(true, 1000, 0, 2000).unwrap();
    assert_eq!(r2.exchange_rate, Rate::from_inner(3 * ONE / 2));
    assert_eq!(p.get_exchange_rate(), Rate::from_inner(3 * ONE / 2));
    let r3 = p.settlement(true, 4000, 0, 2000).unwrap();
    assert_eq!(r3.exchange_rate, Rate::from_inner(2 * ONE));
}

#[test]
fn settlement_refusals_change_nothing() {
    let mut p = engine(ONE);
    p.stake(ALICE, 500).unwrap();
    assert_eq!(p.settlement(false, 1000, 0, 1000).unwrap_err(), Error::Unauthorized);
    assert_eq!(p.matching_pool.total_stake_amount, 500);
    let mut q = engine(ONE);
    q.stake(ALICE, 500).unwrap();
    q.take_events();
    q.matching_pool.total_stake_amount = 0;
    // no vouchers at all: the rate cannot be computed
    assert_eq!(q.settlement(true, 1000, 0, 0).unwrap_err(), Error::InvalidExchangeRate);
    // a rate beyond what the fixed-point type holds
    assert_eq!(q.settlement(true, u128::MAX, 0, 1).unwrap_err(), Error::InvalidExchangeRate);
    q.matching_pool.total_stake_amount = 1;
    assert_eq!(q.settlement(true, u128::MAX, 0, 1).unwrap_err(), Error::ArithmeticOverflow);
    assert_eq!(q.matching_pool.total_stake_amount, 1);
    assert_eq!(q.events.len(), 0);
}

#[test]
fn settlement_without_liquid_currency_is_refused() {
    let genesis = GenesisConfig { exchange_rate: Rate::one(), reserve_factor: Ratio::from_parts(0) };
    let mut p = genesis.build(engine(ONE).config);
    assert_eq!(p.settlement(true, 1, 0, 1).unwrap_err(), Error::LiquidCurrencyNotReady);
    p.set_liquid_currency(true, 1).unwrap();
    assert_eq!(p.settlement(true, 1, 0, 1).unwrap_err(), Error::StakingCurrencyNotReady);
}

#[test]
fn relay_requests_record_events() {
    let mut p = engine(ONE);
    assert_eq!(p.bond(false, 10, RewardDestination::Stash).unwrap_err(), Error::Unauthorized);
    assert_eq!(p.bond(true, 10, RewardDestination::Stash).unwrap(), 100);
    assert_eq!(p.bond_extra(true, 11).unwrap(), 100);
    assert_eq!(p.unbond(true, 12).unwrap(), 100);
    assert_eq!(p.rebond(true, 13).unwrap(), 100);
    assert_eq!(p.withdraw_unbonded(true, 3, 14).unwrap(), 100);
    assert_eq!(p.nominate(true, vec![ALICE]).unwrap(), 100);
    let events = p.take_events();
    assert_eq!(events.len(), 6);
    assert!(matches!(events[0], Event::Bonding(who, 10, RewardDestination::Stash) if who == DERIVATIVE));
    assert!(matches!(events[3], Event::Rebonding(13)));
    assert!(matches!(events[4], Event::WithdrawingUnbonded(3)));
    assert!(matches!(&events[5], Event::Nominating(t) if t == &vec![ALICE]));
}

#[test]
fn relay_request_needs_staking_currency() {
    let genesis = GenesisConfig::default();
    let mut p = genesis.build(engine(ONE).config);
    assert_eq!(p.get_exchange_rate(), Rate::from_inner(0));
    assert_eq!(p.unbond(true, 1).unwrap_err(), Error::StakingCurrencyNotReady);
    assert_eq!(p.get_staking_currency(), None);
    assert_eq!(p.staking_currency(), Err(Error::StakingCurrencyNotReady));
    assert_eq!(p.liquid_currency(), Err(Error::LiquidCurrencyNotReady));
}

#[test]
fn primitives_compare_by_variant() {
    assert_eq!(StakingOperationType::Bond, StakingOperationType::Bond);
    assert_ne!(Phase::Started, Phase::Finished);
    assert_eq!(
        ParachainPallet::LiquidStaking(LiquidStakingHubMethod::TriggerNewEra(3)),
        ParachainPallet::LiquidStaking(LiquidStakingHubMethod::TriggerNewEra(3))
    );
    assert_ne!(ResponseStatus::Ready, ResponseStatus::Failed);
}
