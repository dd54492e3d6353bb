//! Valuation engine for yield-bearing positions held across a lending market,
//! a concentrated-liquidity AMM and a stableswap AMM.
//!
//! The engine never talks to the outside world itself. Every external read is
//! described by a [`chain::Query`]; the caller performs it and records the
//! answer in a [`chain::Chain`], from which the engine computes positions and
//! portfolio summaries.

pub mod adapters;
pub mod address;
pub mod aggregator;
pub mod chain;
pub mod defaults;
pub mod engine;
pub mod error;
pub mod hex_text;
pub mod numeric;
pub mod ownable;
pub mod plan;
pub mod position;
pub mod registry;
pub mod summary;

pub use crate::address::Address;
pub use crate::aggregator::YieldAggregator;
pub use crate::chain::{Chain, Query, Reply};
pub use crate::error::Error;
pub use crate::numeric::{I256, U256};
pub use crate::position::{PortfolioSummary, PositionView, Protocol};
