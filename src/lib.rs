//! An escrow engine: a seller and a buyer trade through a custody account,
//! optionally under a registered arbitrator, and a platform fee is kept on
//! every settlement.
//!
//! The engine is a plain state record. Value movements are returned as
//! [`Transfer`] values for the host to carry out; authorization is modelled by
//! the `caller` argument, the single account that proved its identity for the
//! invocation.

pub mod contract;
pub mod errors;
pub mod fees;
pub mod laws;
pub mod model;
pub mod types;

pub use contract::StellarEscrowContract;
pub use errors::ContractError;
pub use fees::compute_fee;
pub use model::EscrowModel;
pub use types::{Address, DisputeResolution, Trade, TradeStatus, Transfer};
