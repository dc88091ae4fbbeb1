//! Messages and responses exchanged between the protocol's contracts.

pub mod core_msg;
pub mod helpers;
pub mod market;
pub mod oracle;
pub mod treasury;

use vstd::prelude::*;

verus! {

/// Largest page that a listing query may ask for.
pub const MAX_LIMIT: u32 = 30;

/// Page size of a listing query that names none.
pub const DEFAULT_LIMIT: u32 = 10;

/// Direction of a listing.
#[derive(Clone, Copy, Debug, PartialEq, Eq, Structural)]
pub enum RangeOrder {
    Asc,
    Desc,
}

/// An amount of one denomination.
#[derive(Debug)]
pub struct Coin {
    pub denom: String,
    pub amount: u128,
}

/// Who sent a message and what funds came with it.
#[derive(Debug)]
pub struct MessageInfo {
    pub sender: String,
    pub funds: Vec<Coin>,
}

} // verus!
