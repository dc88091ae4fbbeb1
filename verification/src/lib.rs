//! Verified core of the noi lending protocol: a per-asset lending market
//! (positions, collateral, debt and a compounding fee index), the core
//! registry of markets, the price oracle settings and the treasury token.

pub mod decimal;
pub mod error;
pub mod market;
pub mod interface;
pub mod payment;
pub mod pagination;
pub mod core_contract;
pub mod oracle;
pub mod treasury;
pub mod laws;
