//! Liquid staking engine: an exchange-rate ratchet, per-era matching of stake and
//! unstake demand, a bounded queue of pending withdrawals and an insurance reserve.
//!
//! The engine decides; moving assets and sending bonding requests to the relay chain
//! is left to the surrounding system, which carries out what each operation returns.

pub mod primitives;
pub mod fixed;
pub mod error;
pub mod matching;
pub mod queue;
pub mod pallet;
pub mod laws;
