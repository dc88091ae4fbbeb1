//! The lending market: one collateral asset against the protocol's debt asset.

pub mod book;
pub mod contract;
pub mod error;
pub mod execute;
pub mod position;
pub mod query;
pub mod state;
