use noi::decimal::Decimal;
use noi::error::{PaymentError, StdError};
use noi::interface::oracle::{ExecuteMsg as OracleExecuteMsg, InstantiateMsg as OracleInstantiateMsg, PoolInfo, QueryMsg as OracleQueryMsg};
use noi::interface::treasury::{ExecuteMsg as TreasuryExecuteMsg, InstantiateMsg as TreasuryInstantiateMsg, QueryMsg as TreasuryQueryMsg};
use noi::interface::{Coin, MessageInfo};
use noi::oracle;
use noi::pagination::page_keys;
use noi::treasury::{self, TokenMsg};

fn info(sender: &str, funds: Vec<(&str, u128)>) -> MessageInfo {
    MessageInfo {
        sender: sender.to_string(),
        funds: funds
            .into_iter()
            .map(|(d, a)| Coin { denom: d.to_string(), amount: a })
            .collect(),
    }
}

fn oracle_msg(time_range: u64) -> OracleInstantiateMsg {
    OracleInstantiateMsg {
        gov: "gov".to_string(),
        pool_id: 1,
        quote_asset: "uosmo".to_string(),
        base_asset: "uatom".to_string(),
        time_range,
    }
}

#[test]
fn oracle_window_is_at_most_two_days() {
    assert!(matches!(
        oracle::instantiate(oracle_msg(172_801), Ok("gov".to_string())),
        Err(oracle::ContractError::InvalidTimeRange)
    ));
    let cfg = oracle::instantiate(oracle_msg(172_800), Ok("gov".to_string())).unwrap();
    assert_eq!(cfg.time_range, 172_800);
}

#[test]
fn oracle_settings_are_for_governance() {
    let mut cfg = oracle::instantiate(oracle_msg(600), Ok("gov".to_string())).unwrap();
    assert!(matches!(
        oracle::execute(&mut cfg, &info("alice", vec![]), OracleExecuteMsg::AdjustTimeRange(10), Ok(String::new())),
        Err(oracle::ContractError::Unauthorized)
    ));
    oracle::execute(
        &mut cfg,
        &info("gov", vec![]),
        OracleExecuteMsg::UpdatePool(PoolInfo { pool_id: 9, quote_asset: "q".to_string(), base_asset: "b".to_string() }),
        Ok(String::new()),
    )
    .unwrap();
    assert_eq!(cfg.pool_id, 9);
    oracle::execute(&mut cfg, &info("gov", vec![]), OracleExecuteMsg::UpdateGov("gov2".to_string()), Ok("gov2".to_string())).unwrap();
    assert_eq!(cfg.gov, "gov2");
    assert_eq!(oracle::twap_start(&cfg, 1000), 400);
    let r = oracle::get_rate(&cfg, Ok(Decimal::percent(250))).unwrap();
    assert_eq!(r.rate.atomics(), Decimal::percent(250).atomics());
    assert!(oracle::get_rate(&cfg, Err(StdError::Host { msg: "no pool".to_string() })).is_err());
}

#[test]
fn treasury_actions() {
    let (cfg, create) = treasury::instantiate(
        TreasuryInstantiateMsg { denom: "noi".to_string(), core: "core".to_string() },
        Ok("core".to_string()),
    )
    .unwrap();
    assert!(matches!(create, TokenMsg::CreateDenom { subdenom } if subdenom == "noi"));
    assert!(matches!(
        treasury::execute(&cfg, &info("alice", vec![]), &"treasury".to_string(), TreasuryExecuteMsg::Burn),
        Err(treasury::ContractError::Unauthorized)
    ));
    match treasury::execute(&cfg, &info("core", vec![]), &"treasury".to_string(), TreasuryExecuteMsg::Mint { to: "bob".to_string(), amount: 5 }).unwrap() {
        TokenMsg::MintTokens { denom, amount, mint_to_address } => {
            assert_eq!(denom, "noi");
            assert_eq!(amount, 5);
            assert_eq!(mint_to_address, "bob");
        }
        _ => panic!("expected a mint"),
    }
    match treasury::execute(&cfg, &info("core", vec![("noi", 7)]), &"treasury".to_string(), TreasuryExecuteMsg::Burn).unwrap() {
        TokenMsg::BurnTokens { amount, burn_from_address, .. } => {
            assert_eq!(amount, 7);
            assert_eq!(burn_from_address, "treasury");
        }
        _ => panic!("expected a burn"),
    }
    assert!(matches!(
        treasury::execute(&cfg, &info("core", vec![("noi", 0)]), &"treasury".to_string(), TreasuryExecuteMsg::Burn),
        Err(treasury::ContractError::PaymentError(PaymentError::NoFunds))
    ));
    let r = treasury::query(&cfg, &TreasuryQueryMsg::Config);
    assert_eq!(r.core, "core");
    assert_eq!(r.denom, "noi");
}

#[test]
fn pages_of_keys() {
    let keys = vec![5u64, 1, 9, 3, 7];
    assert_eq!(page_keys(&keys, None, 3, true), vec![1, 3, 5]);
    assert_eq!(page_keys(&keys, Some(5), 10, true), vec![7, 9]);
    assert_eq!(page_keys(&keys, Some(5), 10, false), vec![3, 1]);
    assert_eq!(page_keys(&keys, None, 2, false), vec![9, 7]);
    assert_eq!(page_keys(&keys, Some(9), 2, true), Vec::<u64>::new());
    assert_eq!(page_keys(&keys, None, 0, true), Vec::<u64>::new());
    // the same request gives the same page
    assert_eq!(page_keys(&keys, Some(1), 2, true), page_keys(&keys, Some(1), 2, true));
}

#[test]
fn oracle_query_answers_config_and_rate() {
    let cfg = oracle::instantiate(oracle_msg(600), Ok("gov".to_string())).unwrap();
    match oracle::query(&cfg, &OracleQueryMsg::GetConfig, Err(StdError::Host { msg: "unused".to_string() })).unwrap() {
        oracle::QueryResponse::Config(c) => {
            assert_eq!(c.gov, "gov");
            assert_eq!(c.time_range, 600);
        }
        _ => panic!("expected the settings"),
    }
    match oracle::query(&cfg, &OracleQueryMsg::GetRate, Ok(Decimal::percent(150))).unwrap() {
        oracle::QueryResponse::Rate(r) => assert_eq!(r.rate.atomics(), Decimal::percent(150).atomics()),
        _ => panic!("expected the rate"),
    }
    assert!(oracle::query(&cfg, &OracleQueryMsg::GetRate, Err(StdError::Host { msg: "no pool".to_string() })).is_err());
}

#[test]
fn oracle_rate_request_asks_for_the_configured_pool() {
    let cfg = oracle::instantiate(oracle_msg(600), Ok("gov".to_string())).unwrap();
    let q = oracle::rate_request(&cfg, 1000);
    assert_eq!(q.pool_id, cfg.pool_id);
    assert_eq!(q.quote_asset, cfg.quote_asset);
    assert_eq!(q.base_asset, cfg.base_asset);
    assert_eq!(q.start_time, 400);
}
