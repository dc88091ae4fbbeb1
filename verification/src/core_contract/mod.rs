//! The core contract: protocol settings and the registry of markets.

pub mod error;
pub mod execute;
pub mod pair_set;
pub mod reply;
pub mod state;
