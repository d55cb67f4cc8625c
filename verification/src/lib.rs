//! Verified core of the StellarSwipe contracts: the fee collector's fee
//! clamping, configuration and pending-fee bookkeeping, and the auto-trade
//! contract's trade execution flow, written over plain values so that the
//! contract wrappers only move data between the ledger and these functions.
pub mod account;
pub mod auto_trade;
pub mod errors;
pub mod fee_collector;
mod keyed;
pub mod laws;

pub use account::{AccountId, AddressKind};
pub use auto_trade::{AutoTradeContract, OrderType, Trade, TradeResult, TradeStatus};
pub use errors::AutoTradeError;
pub use fee_collector::{
    DataKey, FeeClaim, FeeCollectorContract, FeeCollectorError, FeeConfig, StorageKey,
};
