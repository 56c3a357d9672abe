use vstd::prelude::*;

verus! {

/// Amount of an asset, in its smallest unit.
pub type Balance = u128;

/// Identifier of an asset.
pub type CurrencyId = u32;

/// Index of a relay-chain era.
pub type EraIndex = u32;

/// Execution budget, in weight units.
pub type Weight = u64;

/// A 32-byte account identifier.
pub type AccountId = [u8; 32];

} // verus!

verus! {

/// Kinds of staking operation performed on the relay chain.
#[derive(Clone, Copy, Debug, PartialEq, Eq, Structural)]
pub enum StakingOperationType {
    Bond,
    BondExtra,
    Unbond,
    Rebond,
    TransferToRelaychain,
    RecordReward,
    RecordSlash,
}

/// Methods of the liquid staking hub that the relay-chain bridge can be asked to run.
#[derive(Clone, Copy, Debug, PartialEq, Eq, Structural)]
pub enum LiquidStakingHubMethod {
    EmitEventToRelaychain,
    TransferToRelaychain(Balance),
    TriggerNewEra(EraIndex),
    RecordReward(Balance),
    RecordSlash(Balance),
    RecordBondResponse,
    RecordBondExtraResponse,
    RecordUnbondResponse,
    RecordRebondResponse,
    RecordXcmTransfer,
}

/// Steps of an era's processing.
#[derive(Clone, Copy, Debug, PartialEq, Eq, Structural)]
pub enum Phase {
    Started,
    UpdateEraIndex,
    RecordReward,
    EmitEventToRelaychain,
    RecordStakingOperation,
    Finished,
}

/// The parachain pallet, and its method, that a relay-chain request concerns.
#[derive(Clone, Copy, Debug, PartialEq, Eq, Structural)]
pub enum ParachainPallet {
    LiquidStaking(LiquidStakingHubMethod),
}

/// State of a request sent to the relay chain.
#[derive(Clone, Copy, Debug, PartialEq, Eq, Structural)]
pub enum ResponseStatus {
    Ready,
    Processing,
    Successed,
    Failed,
}

} // verus!
