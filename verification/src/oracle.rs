//! The price oracle: a time-weighted average price over one pool.

use vstd::prelude::*;

use crate::decimal::Decimal;
use crate::error::StdError;
use crate::interface::MessageInfo;
use crate::interface::oracle::{ExecuteMsg, GetConfigResponse, GetRateResponse, InstantiateMsg, QueryMsg};

verus! {

/// Longest averaging window the oracle accepts at instantiation: two days.
pub const MAX_TIME_RANGE: u64 = 172_800;

/// The oracle's settings.
pub struct Config {
    pub gov: String,
    pub pool_id: u64,
    pub quote_asset: String,
    pub base_asset: String,
    pub time_range: u64,
}

/// Errors of the oracle contract.
#[derive(Debug)]
pub enum ContractError {
    Std(StdError),
    Unauthorized,
    InvalidTimeRange,
}

/// Sets up the oracle from `msg`; a window longer than `MAX_TIME_RANGE` is
/// refused before anything else. `gov` is the host's answer to validating
/// the governance address.
pub fn instantiate(msg: InstantiateMsg, gov: Result<String, StdError>) -> (r: Result<Config, ContractError>)
    ensures
        msg.time_range > MAX_TIME_RANGE ==> r == Err::<Config, ContractError>(ContractError::InvalidTimeRange),
        msg.time_range <= MAX_TIME_RANGE && gov is Err ==> r == Err::<Config, ContractError>(ContractError::Std(gov->Err_0)),
        msg.time_range <= MAX_TIME_RANGE && gov is Ok ==> r == Ok::<Config, ContractError>(Config {
            gov: gov->Ok_0,
            pool_id: msg.pool_id,
            quote_asset: msg.quote_asset,
            base_asset: msg.base_asset,
            time_range: msg.time_range,
        }),
{
    if msg.time_range > MAX_TIME_RANGE {
        return Err(ContractError::InvalidTimeRange);
    }
    let gov = match gov {
        Ok(a) => a,
        Err(e) => return Err(ContractError::Std(e)),
    };
    Ok(Config {
        gov,
        pool_id: msg.pool_id,
        quote_asset: msg.quote_asset,
        base_asset: msg.base_asset,
        time_range: msg.time_range,
    })
}

/// Changes the oracle's settings; only its governance may. `gov_check` is the
/// host's answer to validating the new governance address of `UpdateGov`
/// (not read otherwise). A new window is taken as it is. On any error nothing
/// changes.
pub fn execute(config: &mut Config, info: &MessageInfo, msg: ExecuteMsg, gov_check: Result<String, StdError>) -> (r: Result<(), ContractError>)
    ensures
        r is Err ==> *final(config) == *old(config),
        info.sender@ != old(config).gov@ ==> r == Err::<(), ContractError>(ContractError::Unauthorized),
        info.sender@ == old(config).gov@ ==> match msg {
            ExecuteMsg::UpdateGov(_) => match gov_check {
                Err(e) => r == Err::<(), ContractError>(ContractError::Std(e)),
                Ok(g) => r is Ok && *final(config) == Config { gov: g, ..*old(config) },
            },
            ExecuteMsg::UpdatePool(pool) => r is Ok && *final(config) == Config {
                pool_id: pool.pool_id,
                quote_asset: pool.quote_asset,
                base_asset: pool.base_asset,
                ..*old(config)
            },
            ExecuteMsg::AdjustTimeRange(t) => r is Ok && *final(config) == Config { time_range: t, ..*old(config) },
        },
{
    if info.sender != config.gov {
        return Err(ContractError::Unauthorized);
    }
    match msg {
        ExecuteMsg::UpdateGov(_) => {
            match gov_check {
                Ok(g) => {
                    config.gov = g;
                },
                Err(e) => return Err(ContractError::Std(e)),
            }
        },
        ExecuteMsg::UpdatePool(pool) => {
            config.pool_id = pool.pool_id;
            config.quote_asset = pool.quote_asset;
            config.base_asset = pool.base_asset;
        },
        ExecuteMsg::AdjustTimeRange(t) => {
            config.time_range = t;
        },
    }
    Ok(())
}

/// The oracle's settings.
pub fn get_config(config: &Config) -> (r: GetConfigResponse)
    ensures
        r == (GetConfigResponse {
            gov: config.gov,
            pool_id: config.pool_id,
            quote_asset: config.quote_asset,
            base_asset: config.base_asset,
            time_range: config.time_range,
        }),
{
    GetConfigResponse {
        gov: config.gov.clone(),
        pool_id: config.pool_id,
        quote_asset: config.quote_asset.clone(),
        base_asset: config.base_asset.clone(),
        time_range: config.time_range,
    }
}

/// The start of the averaging window at time `now`: `now - time_range`, as
/// the signed seconds that the pool's average query takes (the bit pattern
/// reinterpreted).
pub fn twap_start(config: &Config, now: u64) -> (r: i64)
    requires
        config.time_range <= now,
    ensures
        r == (now - config.time_range) as i64,
{
    (now - config.time_range) as i64
}

/// The pool's average-price query that a rate needs: the pool, the quote and
/// the base asset, and the start of the averaging window (signed seconds).
#[derive(Debug)]
pub struct TwapRequest {
    pub pool_id: u64,
    pub quote_asset: String,
    pub base_asset: String,
    pub start_time: i64,
}

/// The average-price query for a rate at time `now`: the configured pool and
/// assets, over the window of `time_range` seconds that ends now.
pub fn rate_request(config: &Config, now: u64) -> (q: TwapRequest)
    requires
        config.time_range <= now,
    ensures
        q == (TwapRequest {
            pool_id: config.pool_id,
            quote_asset: config.quote_asset,
            base_asset: config.base_asset,
            start_time: (now - config.time_range) as i64,
        }),
{
    TwapRequest {
        pool_id: config.pool_id,
        quote_asset: config.quote_asset.clone(),
        base_asset: config.base_asset.clone(),
        start_time: twap_start(config, now),
    }
}

/// The rate report for the average price `twap` that the pool gave, or the
/// error of that query.
pub fn get_rate(config: &Config, twap: Result<Decimal, StdError>) -> (r: Result<GetRateResponse, StdError>)
    ensures
        twap is Err ==> r == Err::<GetRateResponse, StdError>(twap->Err_0),
        twap is Ok ==> r == Ok::<GetRateResponse, StdError>(GetRateResponse {
            quote_asset: config.quote_asset,
            base_asset: config.base_asset,
            rate: twap->Ok_0,
        }),
{
    let rate = match twap {
        Ok(t) => t,
        Err(e) => return Err(e),
    };
    Ok(GetRateResponse { quote_asset: config.quote_asset.clone(), base_asset: config.base_asset.clone(), rate })
}


/// The answer to an oracle query.
pub enum QueryResponse {
    Config(GetConfigResponse),
    Rate(GetRateResponse),
}

/// Answers a query of the oracle. `twap` is the pool's average price over
/// the window ending now, or the error of that query (read only for
/// `GetRate`).
pub fn query(config: &Config, msg: &QueryMsg, twap: Result<Decimal, StdError>) -> (r: Result<QueryResponse, StdError>)
    ensures
        match *msg {
            QueryMsg::GetConfig => r == Ok::<QueryResponse, StdError>(QueryResponse::Config(GetConfigResponse {
                gov: config.gov,
                pool_id: config.pool_id,
                quote_asset: config.quote_asset,
                base_asset: config.base_asset,
                time_range: config.time_range,
            })),
            QueryMsg::GetRate => match twap {
                Err(e) => r == Err::<QueryResponse, StdError>(e),
                Ok(rate) => r == Ok::<QueryResponse, StdError>(QueryResponse::Rate(GetRateResponse {
                    quote_asset: config.quote_asset,
                    base_asset: config.base_asset,
                    rate,
                })),
            },
        },
{
    match msg {
        QueryMsg::GetConfig => Ok(QueryResponse::Config(get_config(config))),
        QueryMsg::GetRate => match get_rate(config, twap) {
            Ok(rate) => Ok(QueryResponse::Rate(rate)),
            Err(e) => Err(e),
        },
    }
}

} // verus!
