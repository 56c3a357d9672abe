use liquid_staking::error::Error;
use liquid_staking::fixed::{Rate, Ratio};
use liquid_staking::pallet::{Config, Event, GenesisConfig, Pallet, XcmWeightMisc};

const ONE: u128 = 1_000_000_000_000_000_000;
const ALICE: [u8; 32] = [1u8; 32];
const BOB: [u8; 32] = [2u8; 32];

fn engine(rate_inner: u128, percent: u32, capacity: u32) -> Pallet {
    let weights = XcmWeightMisc {
        bond_weight: 1,
        bond_extra_weight: 1,
        unbond_weight: 1,
        rebond_weight: 1,
        withdraw_unbonded_weight: 1,
        nominate_weight: 1,
    };
    let config = Config {
        min_stake_amount: 0,
        min_unstake_amount: 0,
        unstake_queue_capacity: capacity,
        derivative_account: [9u8; 32],
        xcm_weight: weights,
    };
    let genesis = GenesisConfig {
        exchange_rate: Rate::from_inner(rate_inner),
        reserve_factor: Ratio::from_percent(percent),
    };
    let mut p = genesis.build(config);
    p.set_staking_currency(true, 100).unwrap();
    p.set_liquid_currency(true, 1000).unwrap();
    p
}

#[test]
fn stake_one_percent_fee_at_rate_one() {
    let mut p = engine(ONE, 1, 10);
    let r = p.stake(ALICE, 1000).unwrap();
    assert_eq!(r.fee, 10);
    assert_eq!(r.staked, 990);
    assert_eq!(r.liquid_amount, 990);
    assert_eq!(r.amount, 1000);
    assert_eq!(r.staking_currency, 100);
    assert_eq!(r.liquid_currency, 1000);
    assert_eq!(p.matching_pool.total_stake_amount, 990);
    assert_eq!(p.insurance_pool, 10);
    let events = p.take_events();
    assert_eq!(events.len(), 1);
    assert!(matches!(events[0], Event::Staked(who, 990) if who == ALICE));
    assert_eq!(p.events.len(), 0);
}

#[test]
fn stake_at_rate_two_mints_half() {
    let mut p = engine(2 * ONE, 1, 10);
    let r = p.stake(ALICE, 1000).unwrap();
    assert_eq!(r.staked, 990);
    assert_eq!(r.liquid_amount, 495);
}

#[test]
fn stake_minted_value_does_not_exceed_amount() {
    // rate 1.5: 999 staked without fee buys 666 vouchers, worth 999
    let mut p = engine(3 * ONE / 2, 0, 10);
    let r = p.stake(ALICE, 1000).unwrap();
    assert_eq!(r.fee, 0);
    assert_eq!(r.liquid_amount, 666);
    assert!(r.liquid_amount * 3 / 2 <= 1000);
}

#[test]
fn stake_never_mints_a_rounded_up_voucher() {
    // rate 4: the purchase is 500000000000000000000.75 vouchers, which the fixed-point
    // helper rounds up once the intermediate product leaves 128 bits; the extra voucher
    // would be worth more than was paid, so it is not minted
    let mut p = engine(4 * ONE, 0, 10);
    let amount: u128 = 2_000_000_000_000_000_000_003;
    let r = p.stake(ALICE, amount).unwrap();
    assert_eq!(r.liquid_amount, 500_000_000_000_000_000_000);
    assert!(p.unstake_asset_amount(r.liquid_amount).unwrap() <= amount);
}

#[test]
fn round_trip_at_high_rate_pays_no_more_than_staked() {
    let mut p = engine(1_000_000 * ONE, 0, 10);
    let amount: u128 = 350_000_000_000_000_000_000_999_999;
    let r = p.stake(ALICE, amount).unwrap();
    assert_eq!(r.liquid_amount, 350_000_000_000_000_000_000);
    let u = p.unstake(ALICE, r.liquid_amount, true).unwrap();
    assert_eq!(u.asset_amount, 350_000_000_000_000_000_000_000_000);
    assert!(u.asset_amount <= amount);
}

#[test]
fn round_trip_at_rate_one_returns_net_of_fee() {
    let mut p = engine(ONE, 2, 10);
    let r = p.stake(ALICE, 5000).unwrap();
    assert_eq!(r.fee, 100);
    assert_eq!(r.liquid_amount, 4900);
    let u = p.unstake(ALICE, r.liquid_amount, false).unwrap();
    assert_eq!(u.asset_amount, 4900);
    assert!(u.queued);
}

#[test]
fn round_trip_pays_no_more_than_staked() {
    let mut p = engine(3 * ONE / 2, 5, 10);
    let r = p.stake(ALICE, 10_000).unwrap();
    assert_eq!(r.fee, 500);
    assert_eq!(r.liquid_amount, 6333);
    let payout = p.unstake_asset_amount(r.liquid_amount).unwrap();
    assert_eq!(payout, 9499);
    assert!(payout <= 9500);
    let u = p.unstake(ALICE, r.liquid_amount, true).unwrap();
    assert_eq!(u.asset_amount, 9499);
    assert!(!u.queued);
    assert_eq!(p.unstake_queue.len(), 0);
    assert_eq!(p.matching_pool.total_unstake_amount, 6333);
}

#[test]
fn stake_below_minimum_is_refused() {
    let mut p = engine(ONE, 1, 10);
    p.config.min_stake_amount = 1000;
    assert_eq!(p.stake(ALICE, 1000).unwrap_err(), Error::StakeAmountTooSmall);
    assert_eq!(p.matching_pool.total_stake_amount, 0);
    assert_eq!(p.insurance_pool, 0);
    assert!(p.stake(ALICE, 1001).is_ok());
}

#[test]
fn stake_at_zero_rate_is_refused() {
    let mut p = engine(0, 1, 10);
    assert_eq!(p.stake(ALICE, 1000).unwrap_err(), Error::InvalidExchangeRate);
    assert_eq!(p.insurance_pool, 0);
    assert_eq!(p.events.len(), 0);
}

#[test]
fn stake_without_currencies_is_refused() {
    let genesis = GenesisConfig { exchange_rate: Rate::one(), reserve_factor: Ratio::from_parts(0) };
    let mut p = genesis.build(engine(ONE, 0, 1).config);
    assert_eq!(p.stake(ALICE, 10).unwrap_err(), Error::StakingCurrencyNotReady);
    p.set_staking_currency(true, 7).unwrap();
    assert_eq!(p.stake(ALICE, 10).unwrap_err(), Error::LiquidCurrencyNotReady);
    p.set_liquid_currency(true, 8).unwrap();
    assert_eq!(p.stake(ALICE, 10).unwrap().liquid_amount, 10);
}

#[test]
fn stake_overflowing_the_ledger_is_refused() {
    let mut p = engine(ONE, 0, 10);
    p.stake(ALICE, u128::MAX - 5).unwrap();
    assert_eq!(p.stake(BOB, 10).unwrap_err(), Error::ArithmeticOverflow);
    assert_eq!(p.matching_pool.total_stake_amount, u128::MAX - 5);
}

#[test]
fn unstake_values_vouchers_at_the_rate() {
    let p = engine(3 * ONE / 2, 0, 10);
    assert_eq!(p.unstake_asset_amount(1000).unwrap(), 1500);
}

#[test]
fn unstake_below_minimum_is_refused() {
    let mut p = engine(ONE, 0, 10);
    p.config.min_unstake_amount = 50;
    assert_eq!(p.unstake(ALICE, 50, false).unwrap_err(), Error::UnstakeAmountTooSmall);
    assert_eq!(p.unstake_asset_amount(50).unwrap_err(), Error::UnstakeAmountTooSmall);
}

#[test]
fn unstake_at_zero_rate_is_refused() {
    let mut p = engine(0, 0, 10);
    assert_eq!(p.unstake(ALICE, 50, false).unwrap_err(), Error::InvalidExchangeRate);
}

#[test]
fn unstake_queue_full_after_two_requests() {
    let mut p = engine(ONE, 0, 2);
    let a = p.unstake(ALICE, 100, false).unwrap();
    assert!(a.queued);
    let b = p.unstake(BOB, 200, false).unwrap();
    assert!(b.queued);
    let events_before = p.events.len();
    assert_eq!(p.unstake(ALICE, 300, false).unwrap_err(), Error::ExceededUnstakeQueueCapacity);
    let q = p.unstake_queue.to_vec();
    assert_eq!(q, vec![(ALICE, 100), (BOB, 200)]);
    assert_eq!(p.matching_pool.total_unstake_amount, 300);
    assert_eq!(p.events.len(), events_before);
    // a payout that succeeds at once needs no room in the queue
    assert!(p.unstake(ALICE, 300, true).is_ok());
}

#[test]
fn insurance_added_and_slash_paid() {
    let mut p = engine(ONE, 0, 2);
    assert_eq!(p.add_insurances(ALICE, 500).unwrap(), 100);
    assert_eq!(p.insurance_pool, 500);
    assert_eq!(p.payout_slashed(false, 100).unwrap_err(), Error::Unauthorized);
    assert_eq!(p.payout_slashed(true, 501).unwrap_err(), Error::ArithmeticUnderflow);
    assert_eq!(p.payout_slashed(true, 200).unwrap(), 100);
    assert_eq!(p.insurance_pool, 300);
    let events = p.take_events();
    assert_eq!(events.len(), 3);
    assert!(matches!(events[1], Event::BondingExtra(200)));
    assert!(matches!(events[2], Event::SlashPaid(200)));
}

#[test]
fn privileged_updates_need_authorization() {
    let mut p = engine(ONE, 0, 2);
    assert_eq!(p.update_reserve_factor(false, Ratio::from_percent(3)).unwrap_err(), Error::Unauthorized);
    assert_eq!(p.reserve_factor.deconstruct(), 0);
    p.update_reserve_factor(true, Ratio::from_percent(3)).unwrap();
    assert_eq!(p.reserve_factor.deconstruct(), 30_000);
    p.update_staking_pool_capacity(true, 77).unwrap();
    assert_eq!(p.staking_pool_capacity, 77);
    p.update_xcm_fees(true, 5).unwrap();
    assert_eq!(p.xcm_fees, 5);
    let events = p.take_events();
    assert_eq!(events.len(), 3);
    assert!(matches!(events[1], Event::StakingPoolCapacityUpdated(77)));
}

#[test]
fn reserve_factor_saturates_at_one() {
    assert_eq!(Ratio::from_percent(150).deconstruct(), 1_000_000);
    assert_eq!(Ratio::from_parts(2_000_000).deconstruct(), 1_000_000);
    let mut p = engine(ONE, 100, 2);
    let r = p.stake(ALICE, 1000).unwrap();
    assert_eq!(r.fee, 1000);
    assert_eq!(r.liquid_amount, 0);
}
