use vstd::prelude::*;

use crate::decimal::Decimal;

verus! {

/// Settings of a new price oracle over one pool.
#[derive(Debug)]
pub struct InstantiateMsg {
    pub gov: String,
    pub pool_id: u64,
    pub quote_asset: String,
    pub base_asset: String,
    /// Length (seconds) of the averaging window.
    pub time_range: u64,
}

/// A pool and the pair of assets priced in it.
#[derive(Debug)]
pub struct PoolInfo {
    pub pool_id: u64,
    pub quote_asset: String,
    pub base_asset: String,
}

/// Changes to the oracle; only its governance may make them.
#[derive(Debug)]
pub enum ExecuteMsg {
    UpdateGov(String),
    UpdatePool(PoolInfo),
    AdjustTimeRange(u64),
}

#[derive(Debug)]
pub enum QueryMsg {
    GetConfig,
    GetRate,
}

#[derive(Debug)]
pub struct GetConfigResponse {
    pub gov: String,
    pub pool_id: u64,
    pub quote_asset: String,
    pub base_asset: String,
    pub time_range: u64,
}

#[derive(Debug)]
pub struct GetRateResponse {
    pub quote_asset: String,
    pub base_asset: String,
    pub rate: Decimal,
}

} // verus!
