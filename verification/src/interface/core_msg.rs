use vstd::prelude::*;

use crate::decimal::Decimal;
use crate::interface::market;

verus! {

/// How the core obtains its treasury: instantiate one for a fee, or reuse
/// an existing contract.
#[derive(Debug)]
pub enum TreasuryInfo {
    Create { code_id: u64, fee: u128, fee_asset: String },
    Reuse(String),
}

/// How the core obtains its liquidator.
#[derive(Debug)]
pub enum LiquidatorInfo {
    Create { code_id: u64 },
    Reuse(String),
}

#[derive(Debug)]
pub struct InstantiateMsg {
    pub gov: String,
    pub denom: String,
    pub treasury: TreasuryInfo,
    pub liquidator: LiquidatorInfo,
}

/// Settings of a market that the core creates.
#[derive(Debug)]
pub struct MarketCreateMsg {
    pub name: String,
    pub code_id: u64,
    pub oracle: String,
    pub collateral: String,
    pub borrow_ltv: Decimal,
    pub fee_base: Decimal,
    pub fee_multiplier: Decimal,
}

#[derive(Debug)]
pub enum MarketMsg {
    Create(MarketCreateMsg),
    Config { market: String, msg: market::ConfigMsg },
}

/// What a market reports back to the core after an action.
#[derive(Debug)]
pub enum CallbackMsg {
    Open { owner: String, position_id: u64 },
    Close { owner: String, position_id: u64 },
    Liquidation { owner: String, asset: String, collateral: u128, debt: u128 },
    Lock { owner: String, position_id: u64, amount: u128 },
    Unlock { owner: String, position_id: u64, amount: u128 },
    Borrow { owner: String, position_id: u64, amount: u128 },
    Repay { owner: String, position_id: u64, amount: u128 },
}

#[derive(Debug)]
pub enum ExecuteMsg {
    Market(MarketMsg),
    Callback(CallbackMsg),
}

impl From<CallbackMsg> for ExecuteMsg {
    fn from(msg: CallbackMsg) -> (r: Self) {
        ExecuteMsg::Callback(msg)
    }
}

impl vstd::std_specs::convert::FromSpecImpl<CallbackMsg> for ExecuteMsg {
    open spec fn obeys_from_spec() -> bool {
        true
    }

    open spec fn from_spec(msg: CallbackMsg) -> Self {
        ExecuteMsg::Callback(msg)
    }
}

} // verus!
