use vstd::prelude::*;

use crate::decimal::Decimal;
use crate::interface::RangeOrder;

verus! {

/// Settings of a new market.
#[derive(Debug)]
pub struct InstantiateMsg {
    pub name: String,
    pub core: String,
    pub oracle: String,
    pub liquidator: String,
    pub debt_asset: String,
    pub collateral_asset: String,
    pub borrow_ltv: Decimal,
    pub fee_base: Decimal,
    pub fee_multiplier: Decimal,
}

/// Changes to a market's settings.
#[derive(Debug)]
pub enum ConfigMsg {
    ChangeName(String),
    ManageRoles { core: Option<String>, oracle: Option<String> },
    AdjustLTV { borrow_ltv: Option<Decimal> },
    AdjustFeeMultiplier(Decimal),
}

/// Actions on a market.
#[derive(Debug)]
pub enum ExecuteMsg {
    Config(ConfigMsg),
    Open,
    Close { position_id: u64 },
    Liquidate { position_id: u64 },
    Lock { position_id: u64 },
    Unlock { position_id: u64, amount: u128 },
    Borrow { position_id: u64, amount: u128 },
    Repay { position_id: u64 },
}

/// A page request over positions: all of them, or those of one owner.
#[derive(Debug)]
pub enum ListPositionMsg {
    Default { start_after: Option<u64>, limit: Option<u32>, order: Option<RangeOrder> },
    ByOwner { owner: String, start_after: Option<u64>, limit: Option<u32>, order: Option<RangeOrder> },
}

/// Queries of a market.
#[derive(Debug)]
pub enum QueryMsg {
    GetConfig,
    GetState,
    GetPosition { position_id: u64 },
    ListPosition(ListPositionMsg),
}

#[derive(Debug)]
pub struct GetConfigResponse {
    pub name: String,
    pub core: String,
    pub oracle: String,
    pub debt_asset: String,
    pub collateral_asset: String,
    pub borrow_ltv: Decimal,
    pub fee_multiplier: Decimal,
    pub fee_apy: Decimal,
}

#[derive(Debug)]
pub struct GetStateResponse {
    pub total_debt: u128,
    pub total_collateral: u128,
    pub fee_updated_at: u64,
    pub global_fee_index: Decimal,
}

#[derive(Debug)]
pub struct GetPositionResponse {
    pub id: u64,
    pub owner: String,
    pub collateral: u128,
    pub debt: u128,
    pub pending_fee: u128,
}

#[derive(Debug)]
pub struct ListPositionResponse(pub Vec<GetPositionResponse>);

} // verus!
