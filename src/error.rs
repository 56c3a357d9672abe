use vstd::prelude::*;

verus! {

/// Why an operation of the engine was refused. A refused operation changes nothing.
#[derive(Clone, Copy, Debug, PartialEq, Eq, Structural)]
pub enum Error {
    /// The exchange rate is zero, or cannot be computed.
    InvalidExchangeRate,
    /// The stake amount is not above the configured minimum.
    StakeAmountTooSmall,
    /// The unstake amount is not above the configured minimum.
    UnstakeAmountTooSmall,
    /// The liquid currency has not been set.
    LiquidCurrencyNotReady,
    /// The staking currency has not been set.
    StakingCurrencyNotReady,
    /// The unstake queue is full.
    ExceededUnstakeQueueCapacity,
    /// A checked addition or multiplication overflowed.
    ArithmeticOverflow,
    /// A checked subtraction went below zero.
    ArithmeticUnderflow,
    /// The caller does not hold the role that the operation asks for.
    Unauthorized,
}

} // verus!
