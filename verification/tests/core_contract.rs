use noi::core_contract::error::ContractError;
use noi::core_contract::execute::{
    config_market, create, instantiate, reply, reply_address, CoreMsgOut, InstantiatePayload,
    REPLY_ID_LIQUIDATOR_CREATION, REPLY_ID_MARKET_CREATION, REPLY_ID_TREASURY_CREATION,
};
use noi::core_contract::reply::SubMsgOutcome;
use noi::core_contract::state::{Config, Market, Registry};
use noi::decimal::Decimal;
use noi::error::{PaymentError, RecordKind, StdError};
use noi::interface::core_msg::{InstantiateMsg, LiquidatorInfo, MarketCreateMsg, TreasuryInfo};
use noi::interface::market;
use noi::interface::{Coin, MessageInfo};

fn info(sender: &str, funds: Vec<(&str, u128)>) -> MessageInfo {
    MessageInfo {
        sender: sender.to_string(),
        funds: funds
            .into_iter()
            .map(|(d, a)| Coin { denom: d.to_string(), amount: a })
            .collect(),
    }
}

fn config() -> Config {
    Config {
        gov: "gov".to_string(),
        denom: "unoi".to_string(),
        treasury: "treasury".to_string(),
        liquidator: "liq".to_string(),
    }
}

/// Protobuf encoding of a `MsgInstantiateContractResponse` with only the
/// contract address (field 1).
fn instantiate_response(address: &str) -> Vec<u8> {
    let mut data = vec![0x0a, address.len() as u8];
    data.extend_from_slice(address.as_bytes());
    data
}

#[test]
fn instantiate_creating_treasury_and_liquidator() {
    let (cfg, msgs) = instantiate(
        InstantiateMsg {
            gov: "gov".to_string(),
            denom: "unoi".to_string(),
            treasury: TreasuryInfo::Create { code_id: 7, fee: 100, fee_asset: "uosmo".to_string() },
            liquidator: LiquidatorInfo::Create { code_id: 8 },
        },
        &info("creator", vec![("uosmo", 100)]),
        &"core".to_string(),
        Ok("gov".to_string()),
        Ok(String::new()),
        Ok(String::new()),
    )
    .unwrap();
    assert_eq!(cfg.gov, "gov");
    assert_eq!(cfg.treasury, "");
    assert_eq!(cfg.liquidator, "");
    assert_eq!(msgs.len(), 2);
    match &msgs[0] {
        CoreMsgOut::Instantiate { admin, code_id, msg, funds, label, reply_id } => {
            assert_eq!(admin, "core");
            assert_eq!(*code_id, 7);
            assert!(matches!(msg, InstantiatePayload::Treasury(t) if t.denom == "unoi" && t.core == "core"));
            assert_eq!(funds.len(), 1);
            assert_eq!(funds[0].amount, 100);
            assert_eq!(label, "noi-treasury");
            assert_eq!(*reply_id, REPLY_ID_TREASURY_CREATION);
        }
        _ => panic!("expected the treasury instantiation"),
    }
    match &msgs[1] {
        CoreMsgOut::Instantiate { label, reply_id, .. } => {
            assert_eq!(label, "noi-liquidator");
            assert_eq!(*reply_id, REPLY_ID_LIQUIDATOR_CREATION);
        }
        _ => panic!("expected the liquidator instantiation"),
    }
}

#[test]
fn instantiate_refuses_a_wrong_fee() {
    let r = instantiate(
        InstantiateMsg {
            gov: "gov".to_string(),
            denom: "unoi".to_string(),
            treasury: TreasuryInfo::Create { code_id: 7, fee: 100, fee_asset: "uosmo".to_string() },
            liquidator: LiquidatorInfo::Reuse("liq".to_string()),
        },
        &info("creator", vec![("uosmo", 99)]),
        &"core".to_string(),
        Ok("gov".to_string()),
        Ok(String::new()),
        Ok("liq".to_string()),
    );
    assert!(matches!(r, Err(ContractError::InsufficientTokenCreationFee)));
    let r = instantiate(
        InstantiateMsg {
            gov: "gov".to_string(),
            denom: "unoi".to_string(),
            treasury: TreasuryInfo::Create { code_id: 7, fee: 100, fee_asset: "uosmo".to_string() },
            liquidator: LiquidatorInfo::Reuse("liq".to_string()),
        },
        &info("creator", vec![]),
        &"core".to_string(),
        Ok("gov".to_string()),
        Ok(String::new()),
        Ok("liq".to_string()),
    );
    assert!(matches!(r, Err(ContractError::PaymentError(PaymentError::NoFunds))));
}

#[test]
fn instantiate_reusing_contracts() {
    let (cfg, msgs) = instantiate(
        InstantiateMsg {
            gov: "gov".to_string(),
            denom: "unoi".to_string(),
            treasury: TreasuryInfo::Reuse("t".to_string()),
            liquidator: LiquidatorInfo::Reuse("l".to_string()),
        },
        &info("creator", vec![]),
        &"core".to_string(),
        Ok("gov".to_string()),
        Ok("t".to_string()),
        Ok("l".to_string()),
    )
    .unwrap();
    assert_eq!(cfg.treasury, "t");
    assert_eq!(cfg.liquidator, "l");
    assert_eq!(msgs.len(), 0);
}

#[test]
fn create_market_is_for_governance() {
    let msg = || MarketCreateMsg {
        name: "atom".to_string(),
        code_id: 3,
        oracle: "oracle".to_string(),
        collateral: "uatom".to_string(),
        borrow_ltv: Decimal::percent(150),
        fee_base: Decimal::one(),
        fee_multiplier: Decimal::zero(),
    };
    assert!(matches!(
        create(&config(), &info("alice", vec![]), &"core".to_string(), msg()),
        Err(ContractError::Unauthorized)
    ));
    let msgs = create(&config(), &info("gov", vec![]), &"core".to_string(), msg()).unwrap();
    match &msgs[0] {
        CoreMsgOut::Instantiate { msg: InstantiatePayload::Market(m), label, reply_id, .. } => {
            assert_eq!(label, "noi-market::atom");
            assert_eq!(*reply_id, REPLY_ID_MARKET_CREATION);
            assert_eq!(m.core, "core");
            assert_eq!(m.liquidator, "liq");
            assert_eq!(m.debt_asset, "unoi");
            assert_eq!(m.collateral_asset, "uatom");
        }
        _ => panic!("expected the market instantiation"),
    }
}

#[test]
fn registry_save_load_remove() {
    let mut reg = Registry::new();
    let addr = "m1".to_string();
    Market { name: "atom".to_string(), collateral: "uatom".to_string() }.save(&mut reg, &addr).unwrap();
    let m = Market::load(&reg, &addr).unwrap();
    assert_eq!(m.name, "atom");
    assert_eq!(reg.by_name.get("atom").unwrap(), "m1");
    assert!(reg.by_collateral.contains(&"uatom".to_string(), &addr));
    m.remove(&mut reg, &addr).unwrap();
    assert!(matches!(Market::load(&reg, &addr), Err(StdError::NotFound { kind: RecordKind::Market })));
    assert!(reg.by_name.get("atom").is_none());
    assert!(!reg.by_collateral.contains(&"uatom".to_string(), &addr));
}

#[test]
fn rename_moves_the_name_index() {
    let mut reg = Registry::new();
    let addr = "m1".to_string();
    Market { name: "atom".to_string(), collateral: "uatom".to_string() }.save(&mut reg, &addr).unwrap();
    let msgs = config_market(
        &config(),
        &mut reg,
        &info("gov", vec![]),
        "m1".to_string(),
        market::ConfigMsg::ChangeName("cosmos".to_string()),
        Ok("m1".to_string()),
    )
    .unwrap();
    assert_eq!(msgs.len(), 1);
    assert!(matches!(&msgs[0], CoreMsgOut::ExecuteMarket(call) if call.contract_addr == "m1"));
    assert!(reg.by_name.get("atom").is_none());
    assert_eq!(reg.by_name.get("cosmos").unwrap(), "m1");
    assert_eq!(Market::load(&reg, &addr).unwrap().name, "cosmos");
    let r = config_market(
        &config(),
        &mut reg,
        &info("gov", vec![]),
        "m2".to_string(),
        market::ConfigMsg::ChangeName("x".to_string()),
        Ok("m2".to_string()),
    );
    assert!(matches!(r, Err(ContractError::Std(StdError::NotFound { kind: RecordKind::Market }))));
}

#[test]
fn reply_records_new_contracts() {
    let mut cfg = config();
    let mut reg = Registry::new();
    assert!(matches!(
        reply(&mut cfg, &mut reg, 9, SubMsgOutcome::Success { data: None }, Ok(()), Err(StdError::Host { msg: String::new() })),
        Err(ContractError::InvalidReplyId)
    ));
    assert!(matches!(
        reply_address(REPLY_ID_TREASURY_CREATION, SubMsgOutcome::Failure("boom".to_string())),
        Err(ContractError::ParseReplyError(noi::core_contract::reply::ParseReplyError::SubMsgFailure(_)))
    ));
    assert!(matches!(
        reply_address(REPLY_ID_TREASURY_CREATION, SubMsgOutcome::Success { data: None }),
        Err(ContractError::ParseReplyError(noi::core_contract::reply::ParseReplyError::ParseFailure(_)))
    ));
    assert_eq!(
        reply_address(REPLY_ID_TREASURY_CREATION, SubMsgOutcome::Success { data: Some(instantiate_response("treasury2")) }).unwrap(),
        "treasury2"
    );
    reply(
        &mut cfg,
        &mut reg,
        REPLY_ID_TREASURY_CREATION,
        SubMsgOutcome::Success { data: Some(instantiate_response("treasury2")) },
        Ok(()),
        Err(StdError::Host { msg: String::new() }),
    )
    .unwrap();
    assert_eq!(cfg.treasury, "treasury2");
    reply(
        &mut cfg,
        &mut reg,
        REPLY_ID_MARKET_CREATION,
        SubMsgOutcome::Success { data: Some(instantiate_response("market1")) },
        Ok(()),
        Ok(("atom".to_string(), "uatom".to_string())),
    )
    .unwrap();
    assert_eq!(Market::load(&reg, &"market1".to_string()).unwrap().collateral, "uatom");
}
