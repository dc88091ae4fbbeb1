use noi::decimal::Decimal;
use noi::error::{PaymentError, RecordKind, StdError};
use noi::interface::core_msg::{CallbackMsg, ExecuteMsg as CoreExecuteMsg};
use noi::interface::market::{InstantiateMsg, ListPositionMsg, QueryMsg};
use noi::interface::{Coin, MessageInfo, RangeOrder};
use noi::market::contract::{instantiate, MarketEvent, MarketMsgOut, MarketStore};
use noi::market::error::ContractError;
use noi::market::execute::{
    borrow, close, config, execute, liquidate, lock, open, repay, unlock, Action, ConfigChange,
};
use noi::market::query::{get_and_check_limit, get_position, list_position, query, QueryResponse};
use noi::market::book::{PositionBook, PositionEntry};
use noi::market::query::{page_fees_applicable_check, position_fee_applicable_check};

fn market() -> MarketStore {
    instantiate(
        InstantiateMsg {
            name: "atom".to_string(),
            core: "core".to_string(),
            oracle: "oracle".to_string(),
            liquidator: "liq".to_string(),
            debt_asset: "unoi".to_string(),
            collateral_asset: "uatom".to_string(),
            borrow_ltv: Decimal::percent(200),
            fee_base: Decimal::one(),
            fee_multiplier: Decimal::zero(),
        },
        1000,
        Ok("core".to_string()),
        Ok("oracle".to_string()),
        Ok("liq".to_string()),
    )
    .unwrap()
}

fn info(sender: &str, funds: Vec<(&str, u128)>) -> MessageInfo {
    MessageInfo {
        sender: sender.to_string(),
        funds: funds
            .into_iter()
            .map(|(d, a)| Coin { denom: d.to_string(), amount: a })
            .collect(),
    }
}

fn opened(store: &mut MarketStore, owner: &str) -> u64 {
    let fee_state = store.state.clone_state();
    let resp = open(store, fee_state, &info(owner, vec![])).unwrap();
    match resp.event {
        Some(MarketEvent::Open { position_id, .. }) => position_id,
        _ => panic!("no open event"),
    }
}

#[test]
fn instantiate_sets_up_an_empty_market() {
    let store = market();
    assert_eq!(store.config.name, "atom");
    assert_eq!(store.state.fee_updated_at, 1000);
    assert_eq!(store.state.total_debt, 0);
    assert_eq!(store.state.global_fee_index.atomics(), Decimal::one().atomics());
    assert_eq!(store.book.position_count(), 0);
}

#[test]
fn instantiate_reports_the_first_invalid_address() {
    let r = instantiate(
        InstantiateMsg {
            name: "n".to_string(),
            core: "c".to_string(),
            oracle: "o".to_string(),
            liquidator: "l".to_string(),
            debt_asset: "d".to_string(),
            collateral_asset: "c".to_string(),
            borrow_ltv: Decimal::one(),
            fee_base: Decimal::one(),
            fee_multiplier: Decimal::zero(),
        },
        0,
        Ok("c".to_string()),
        Err(StdError::Host { msg: "bad oracle".to_string() }),
        Err(StdError::Host { msg: "bad liquidator".to_string() }),
    );
    match r {
        Err(ContractError::Std(StdError::Host { msg })) => assert_eq!(msg, "bad oracle"),
        _ => panic!("expected the oracle's error"),
    }
}

#[test]
fn open_assigns_sequential_ids_and_tells_the_core() {
    let mut store = market();
    let fee_state = store.state.clone_state();
    let resp = open(&mut store, fee_state, &info("alice", vec![])).unwrap();
    assert_eq!(resp.messages.len(), 1);
    match &resp.messages[0] {
        MarketMsgOut::Core(call) => {
            assert_eq!(call.contract_addr, "core");
            match &call.msg {
                CoreExecuteMsg::Callback(CallbackMsg::Open { owner, position_id }) => {
                    assert_eq!(owner, "alice");
                    assert_eq!(*position_id, 0);
                }
                _ => panic!("wrong callback"),
            }
        }
        _ => panic!("wrong message"),
    }
    assert_eq!(opened(&mut store, "bob"), 1);
    assert_eq!(store.book.position_count(), 2);
    let p = store.book.load(0).unwrap();
    assert_eq!(p.owner, "alice");
    assert_eq!(p.collateral, 0);
    assert_eq!(p.debt, 0);
}

#[test]
fn lock_adds_the_paid_collateral() {
    let mut store = market();
    let id = opened(&mut store, "alice");
    let fee_state = store.state.clone_state();
    let resp = lock(&mut store, fee_state, &info("alice", vec![("uatom", 100)]), id).unwrap();
    assert!(matches!(resp.event, Some(MarketEvent::Lock { amount: 100, .. })));
    assert_eq!(store.book.load(id).unwrap().collateral, 100);
    assert_eq!(store.state.total_collateral, 100);
    assert_eq!(store.book.position_count(), 1);
}

#[test]
fn lock_refuses_wrong_payments_and_strangers() {
    let mut store = market();
    let id = opened(&mut store, "alice");
    let fs = store.state.clone_state();
    assert!(matches!(
        lock(&mut store, fs, &info("alice", vec![]), id),
        Err(ContractError::PaymentError(PaymentError::NoFunds))
    ));
    let fs = store.state.clone_state();
    assert!(matches!(
        lock(&mut store, fs, &info("alice", vec![("uatom", 1), ("unoi", 1)]), id),
        Err(ContractError::PaymentError(PaymentError::MultipleDenoms))
    ));
    let fs = store.state.clone_state();
    match lock(&mut store, fs, &info("alice", vec![("unoi", 5)]), id) {
        Err(ContractError::PaymentError(PaymentError::MissingDenom(d))) => assert_eq!(d, "uatom"),
        _ => panic!("expected a missing denom"),
    }
    let fs = store.state.clone_state();
    assert!(matches!(
        lock(&mut store, fs, &info("mallory", vec![("uatom", 5)]), id),
        Err(ContractError::Unauthorized)
    ));
    let fs = store.state.clone_state();
    assert!(matches!(
        lock(&mut store, fs, &info("alice", vec![("uatom", 5)]), 99),
        Err(ContractError::Std(StdError::NotFound { kind: RecordKind::Position }))
    ));
    assert_eq!(store.state.total_collateral, 0);
}

#[test]
fn borrow_stores_the_grown_position_under_a_new_id() {
    let mut store = market();
    let id = opened(&mut store, "alice");
    let fs = store.state.clone_state();
    lock(&mut store, fs, &info("alice", vec![("uatom", 100)]), id).unwrap();
    // rate 3: value 300, red line 0, so up to 300 can be borrowed
    let fs = store.state.clone_state();
    assert!(matches!(
        borrow(&mut store, fs, &info("alice", vec![]), id, 301, Ok(Decimal::percent(300))),
        Err(ContractError::OverflowBorrowCapacity)
    ));
    let fs = store.state.clone_state();
    let resp = borrow(&mut store, fs, &info("alice", vec![]), id, 50, Ok(Decimal::percent(300))).unwrap();
    assert!(matches!(resp.event, Some(MarketEvent::Borrow { amount: 50, .. })));
    assert_eq!(store.state.total_debt, 50);
    // the old entry is unchanged; the new one carries the debt
    assert_eq!(store.book.load(id).unwrap().debt, 0);
    let grown = store.book.load(1).unwrap();
    assert_eq!(grown.debt, 50);
    assert_eq!(grown.collateral, 100);
    assert_eq!(grown.owner, "alice");
    assert_eq!(store.book.position_count(), 2);
}

#[test]
fn repay_refuses_overpayment_and_reduces_debt() {
    let mut store = market();
    let id = opened(&mut store, "alice");
    let fs = store.state.clone_state();
    lock(&mut store, fs, &info("alice", vec![("uatom", 100)]), id).unwrap();
    let fs = store.state.clone_state();
    borrow(&mut store, fs, &info("alice", vec![]), id, 50, Ok(Decimal::percent(300))).unwrap();
    let fs = store.state.clone_state();
    assert!(matches!(
        repay(&mut store, fs, &info("alice", vec![("unoi", 60)]), 1, Ok(Decimal::one())),
        Err(ContractError::Overpaid)
    ));
    let fs = store.state.clone_state();
    repay(&mut store, fs, &info("alice", vec![("unoi", 20)]), 1, Ok(Decimal::one())).unwrap();
    assert_eq!(store.state.total_debt, 30);
    assert_eq!(store.book.load(2).unwrap().debt, 30);
}

#[test]
fn unlock_respects_the_red_line() {
    let mut store = market();
    let id = opened(&mut store, "alice");
    let fs = store.state.clone_state();
    lock(&mut store, fs, &info("alice", vec![("uatom", 100)]), id).unwrap();
    let fs = store.state.clone_state();
    borrow(&mut store, fs, &info("alice", vec![]), id, 60, Ok(Decimal::percent(300))).unwrap();
    // position 1: collateral 100, debt 60; red line 120; at rate 3 locked 40
    let fs = store.state.clone_state();
    assert!(matches!(
        unlock(&mut store, fs, &info("alice", vec![]), 1, 61, Ok(Decimal::percent(300))),
        Err(ContractError::OverflowUnlockCapacity)
    ));
    let fs = store.state.clone_state();
    unlock(&mut store, fs, &info("alice", vec![]), 1, 60, Ok(Decimal::percent(300))).unwrap();
    assert_eq!(store.book.load(2).unwrap().collateral, 40);
    assert_eq!(store.state.total_collateral, 40);
}

#[test]
fn close_requires_no_debt_and_returns_the_collateral() {
    let mut store = market();
    let id = opened(&mut store, "alice");
    let fs = store.state.clone_state();
    lock(&mut store, fs, &info("alice", vec![("uatom", 70)]), id).unwrap();
    let fs = store.state.clone_state();
    let resp = close(&mut store, fs, &info("alice", vec![]), id).unwrap();
    assert_eq!(resp.messages.len(), 2);
    match &resp.messages[0] {
        MarketMsgOut::Bank { to_address, denom, amount } => {
            assert_eq!(to_address, "alice");
            assert_eq!(denom, "uatom");
            assert_eq!(*amount, 70);
        }
        _ => panic!("expected the collateral back"),
    }
    assert!(store.book.load(id).is_err());
    assert_eq!(store.state.total_collateral, 0);
    assert_eq!(store.book.ids_of(&"alice".to_string()).len(), 0);
}

#[test]
fn close_with_debt_is_refused() {
    let mut store = market();
    let id = opened(&mut store, "alice");
    let fs = store.state.clone_state();
    lock(&mut store, fs, &info("alice", vec![("uatom", 100)]), id).unwrap();
    let fs = store.state.clone_state();
    borrow(&mut store, fs, &info("alice", vec![]), id, 10, Ok(Decimal::percent(300))).unwrap();
    let fs = store.state.clone_state();
    assert!(matches!(close(&mut store, fs, &info("alice", vec![]), 1), Err(ContractError::NotLiquidated)));
}

#[test]
fn liquidate_only_below_the_red_line() {
    let mut store = market();
    let id = opened(&mut store, "alice");
    let fs = store.state.clone_state();
    lock(&mut store, fs, &info("alice", vec![("uatom", 100)]), id).unwrap();
    let fs = store.state.clone_state();
    borrow(&mut store, fs, &info("alice", vec![]), id, 100, Ok(Decimal::percent(300))).unwrap();
    // position 1: collateral 100, debt 100, red line 200
    let fs = store.state.clone_state();
    assert!(matches!(
        liquidate(&mut store, fs, &info("liq", vec![]), 1, Ok(Decimal::percent(300))),
        Err(ContractError::NotLiquidatable)
    ));
    let fs = store.state.clone_state();
    assert!(matches!(
        liquidate(&mut store, fs, &info("alice", vec![]), 1, Ok(Decimal::percent(150))),
        Err(ContractError::Unauthorized)
    ));
    assert_eq!(store.state.total_debt, 100);
    assert!(store.book.load(1).is_ok());
    let fs = store.state.clone_state();
    let resp = liquidate(&mut store, fs, &info("core", vec![]), 1, Ok(Decimal::percent(150))).unwrap();
    assert!(matches!(resp.event, Some(MarketEvent::Liquidate { collateral: 100, debt: 100, .. })));
    assert_eq!(store.state.total_debt, 0);
    assert_eq!(store.state.total_collateral, 0);
    assert!(store.book.load(1).is_err());
}

#[test]
fn config_is_for_the_core_only() {
    let mut store = market();
    let fs = store.state.clone_state();
    assert!(matches!(
        config(&mut store, fs, &info("alice", vec![]), ConfigChange::ChangeName("x".to_string())),
        Err(ContractError::Unauthorized)
    ));
    let fs = store.state.clone_state();
    config(
        &mut store,
        fs,
        &info("core", vec![]),
        ConfigChange::ManageRoles { core: None, oracle: Some(Ok("oracle2".to_string())) },
    )
    .unwrap();
    assert_eq!(store.config.oracle, "oracle2");
    assert_eq!(store.config.core, "core");
    let fs = store.state.clone_state();
    assert!(matches!(
        config(
            &mut store,
            fs,
            &info("core", vec![]),
            ConfigChange::ManageRoles { core: Some(Err(StdError::Host { msg: "bad".to_string() })), oracle: None },
        ),
        Err(ContractError::Std(StdError::Host { .. }))
    ));
    let fs = store.state.clone_state();
    config(&mut store, fs, &info("core", vec![]), ConfigChange::AdjustLTV { borrow_ltv: Some(Decimal::percent(150)) }).unwrap();
    assert_eq!(store.config.borrow_ltv.atomics(), Decimal::percent(150).atomics());
}

#[test]
fn execute_brings_fees_up_to_date_first() {
    let mut store = market();
    let fs = store.state.clone_state();
    config(&mut store, fs, &info("core", vec![]), ConfigChange::AdjustFeeMultiplier(Decimal::percent(10))).unwrap();
    let r = execute(&mut store, 1002, &info("alice", vec![]), Action::Open).unwrap().unwrap();
    assert!(matches!(r.event, Some(MarketEvent::Open { position_id: 0, .. })));
    assert_eq!(store.state.fee_updated_at, 1002);
    assert_eq!(store.state.global_fee_index.atomics(), 1_210_000_000_000_000_000);
    assert_eq!(store.book.load(0).unwrap().stored_fee_index.atomics(), 1_210_000_000_000_000_000);
}

#[test]
fn get_position_reports_the_pending_fee() {
    let mut store = market();
    let id = opened(&mut store, "alice");
    let fs = store.state.clone_state();
    lock(&mut store, fs, &info("alice", vec![("uatom", 100)]), id).unwrap();
    let fs = store.state.clone_state();
    borrow(&mut store, fs, &info("alice", vec![]), id, 40, Ok(Decimal::percent(300))).unwrap();
    store.state.global_fee_index = Decimal::percent(150);
    let r = get_position(&store, 1).unwrap();
    assert_eq!(r.debt, 40);
    assert_eq!(r.pending_fee, 20);
    assert!(matches!(get_position(&store, 7), Err(StdError::NotFound { kind: RecordKind::Position })));
}

#[test]
fn get_and_check_limit_cases() {
    assert_eq!(get_and_check_limit(None, 30, 10).unwrap(), 10);
    assert_eq!(get_and_check_limit(Some(30), 30, 10).unwrap(), 30);
    assert!(matches!(
        get_and_check_limit(Some(31), 30, 10),
        Err(ContractError::OversizedRequest { size: 31, max: 30 })
    ));
}

fn ids(r: &noi::interface::market::ListPositionResponse) -> Vec<u64> {
    r.0.iter().map(|p| p.id).collect()
}

#[test]
fn list_position_pages_in_both_orders() {
    let mut store = market();
    for owner in ["a", "b", "a", "b", "a"] {
        opened(&mut store, owner);
    }
    let all = list_position(
        &store,
        &ListPositionMsg::Default { start_after: None, limit: None, order: None },
        Ok(String::new()),
    )
    .unwrap();
    assert_eq!(ids(&all), vec![0, 1, 2, 3, 4]);
    let page = list_position(
        &store,
        &ListPositionMsg::Default { start_after: Some(1), limit: Some(2), order: None },
        Ok(String::new()),
    )
    .unwrap();
    assert_eq!(ids(&page), vec![2, 3]);
    let desc = list_position(
        &store,
        &ListPositionMsg::Default { start_after: Some(3), limit: Some(10), order: Some(RangeOrder::Desc) },
        Ok(String::new()),
    )
    .unwrap();
    assert_eq!(ids(&desc), vec![2, 1, 0]);
    let of_a = list_position(
        &store,
        &ListPositionMsg::ByOwner { owner: "a".to_string(), start_after: Some(0), limit: None, order: None },
        Ok("a".to_string()),
    )
    .unwrap();
    assert_eq!(ids(&of_a), vec![2, 4]);
    assert!(matches!(
        list_position(
            &store,
            &ListPositionMsg::Default { start_after: None, limit: Some(31), order: None },
            Ok(String::new()),
        ),
        Err(ContractError::OversizedRequest { size: 31, max: 30 })
    ));
    assert!(matches!(
        list_position(
            &store,
            &ListPositionMsg::ByOwner { owner: "?".to_string(), start_after: None, limit: None, order: None },
            Err(StdError::Host { msg: "invalid".to_string() }),
        ),
        Err(ContractError::Std(StdError::Host { .. }))
    ));
}

#[test]
fn query_dispatches() {
    let mut store = market();
    opened(&mut store, "a");
    match query(&store, &QueryMsg::GetState, Ok(String::new())).unwrap() {
        QueryResponse::State(s) => assert_eq!(s.fee_updated_at, 1000),
        _ => panic!("wrong response"),
    }
    match query(&store, &QueryMsg::GetConfig, Ok(String::new())).unwrap() {
        QueryResponse::Config(c) => {
            assert_eq!(c.name, "atom");
            assert_eq!(c.fee_apy.atomics(), 0);
        }
        _ => panic!("wrong response"),
    }
}

fn position(owner: &str, collateral: u128, debt: u128) -> noi::market::position::Position {
    noi::market::position::Position {
        owner: owner.to_string(),
        collateral,
        debt,
        stored_fee_index: Decimal::one(),
    }
}

#[test]
fn restore_rebuilds_positions_and_owner_index() {
    let book = PositionBook::restore(
        5,
        vec![
            PositionEntry { id: 3, position: position("alice", 10, 0) },
            PositionEntry { id: 0, position: position("bob", 20, 5) },
            PositionEntry { id: 4, position: position("alice", 30, 0) },
        ],
    )
    .unwrap();
    assert_eq!(book.position_count(), 5);
    assert_eq!(book.load(0).unwrap().collateral, 20);
    assert_eq!(book.load(4).unwrap().owner, "alice");
    assert!(book.load(1).is_err());
    let mut alice = book.ids_of(&"alice".to_string());
    alice.sort();
    assert_eq!(alice, vec![3, 4]);
    assert_eq!(book.ids_of(&"bob".to_string()), vec![0]);
}

#[test]
fn restore_refuses_duplicate_or_too_large_ids() {
    assert!(PositionBook::restore(
        5,
        vec![
            PositionEntry { id: 1, position: position("alice", 10, 0) },
            PositionEntry { id: 1, position: position("bob", 20, 0) },
        ],
    )
    .is_none());
    assert!(PositionBook::restore(2, vec![PositionEntry { id: 2, position: position("alice", 1, 0) }]).is_none());
    assert!(PositionBook::restore(0, vec![]).is_some());
}

#[test]
fn fee_checks_spot_an_index_ahead_of_the_global_one() {
    let mut store = market();
    let id = opened(&mut store, "alice");
    let listing = ListPositionMsg::Default { start_after: None, limit: None, order: None };
    assert!(position_fee_applicable_check(&store, id));
    assert!(page_fees_applicable_check(&store, &listing, &Ok(String::new())));
    store.state.global_fee_index = Decimal::zero();
    assert!(!position_fee_applicable_check(&store, id));
    assert!(!page_fees_applicable_check(&store, &listing, &Ok(String::new())));
    // an absent position and a page that does not reach the position ask nothing
    assert!(position_fee_applicable_check(&store, 7));
    let later = ListPositionMsg::Default { start_after: Some(id), limit: None, order: None };
    assert!(page_fees_applicable_check(&store, &later, &Ok(String::new())));
    // a refused listing reads no position
    let oversized = ListPositionMsg::Default { start_after: None, limit: Some(31), order: None };
    assert!(page_fees_applicable_check(&store, &oversized, &Ok(String::new())));
}

#[test]
fn close_right_after_open_restores_the_book() {
    let mut store = market();
    let before = opened(&mut store, "bob");
    let fs = store.state.clone_state();
    let id = match open(&mut store, fs, &info("alice", vec![])).unwrap().event {
        Some(MarketEvent::Open { position_id, .. }) => position_id,
        _ => panic!("no open event"),
    };
    let fs = store.state.clone_state();
    close(&mut store, fs, &info("alice", vec![]), id).unwrap();
    assert!(store.book.load(id).is_err());
    assert_eq!(store.book.load(before).unwrap().owner, "bob");
    assert_eq!(store.book.ids(), vec![before]);
    assert_eq!(store.book.ids_of(&"alice".to_string()).len(), 0);
    assert_eq!(store.book.position_count(), 2);
    assert_eq!(store.state.total_collateral, 0);
}

#[test]
fn refused_actions_change_nothing() {
    let mut store = market();
    let id = opened(&mut store, "alice");
    let fs = store.state.clone_state();
    lock(&mut store, fs, &info("alice", vec![("uatom", 100)]), id).unwrap();
    let fs = store.state.clone_state();
    assert!(execute(&mut store, 1000, &info("mallory", vec![]), Action::Close { position_id: id })
        .unwrap()
        .is_err());
    assert!(execute(
        &mut store,
        1000,
        &info("alice", vec![]),
        Action::Borrow { position_id: id, amount: 1_000, rate: Ok(Decimal::one()) },
    )
    .unwrap()
    .is_err());
    assert_eq!(store.state.total_collateral, fs.total_collateral);
    assert_eq!(store.state.total_debt, 0);
    assert_eq!(store.book.load(id).unwrap().collateral, 100);
    assert_eq!(store.book.load(id).unwrap().debt, 0);
    assert_eq!(store.book.position_count(), 1);
}

#[test]
fn owner_listing_shows_exactly_the_owner_positions() {
    let mut store = market();
    let a = opened(&mut store, "alice");
    opened(&mut store, "bob");
    let fs = store.state.clone_state();
    lock(&mut store, fs, &info("alice", vec![("uatom", 100)]), a).unwrap();
    let fs = store.state.clone_state();
    borrow(&mut store, fs, &info("alice", vec![]), a, 10, Ok(Decimal::percent(300))).unwrap();
    let listing = list_position(
        &store,
        &ListPositionMsg::ByOwner { owner: "alice".to_string(), start_after: None, limit: None, order: None },
        Ok("alice".to_string()),
    )
    .unwrap();
    assert_eq!(ids(&listing), vec![0, 2]);
    assert!(listing.0.iter().all(|p| p.owner == "alice"));
}

#[test]
fn fee_apy_compounds_the_multiplier_over_a_year() {
    let mut store = market();
    // the multiplier of an APY of 3.3%, compounded every second
    store.config.fee_multiplier = Decimal::raw(1_029_528_000);
    let c = noi::market::query::get_config(&store).unwrap();
    assert_eq!(c.fee_apy.atomics() * 1000 / Decimal::one().atomics(), 33);
    assert_eq!(c.fee_multiplier.atomics(), 1_029_528_000);
}

#[test]
fn listing_entries_match_the_position_query() {
    let mut store = market();
    let a = opened(&mut store, "alice");
    opened(&mut store, "bob");
    let fs = store.state.clone_state();
    lock(&mut store, fs, &info("alice", vec![("uatom", 100)]), a).unwrap();
    let fs = store.state.clone_state();
    borrow(&mut store, fs, &info("alice", vec![]), a, 10, Ok(Decimal::percent(300))).unwrap();
    store.state.global_fee_index = Decimal::percent(150);
    let listing = list_position(
        &store,
        &ListPositionMsg::Default { start_after: None, limit: None, order: None },
        Ok(String::new()),
    )
    .unwrap();
    assert_eq!(listing.0.len(), 3);
    for entry in &listing.0 {
        let single = get_position(&store, entry.id).unwrap();
        assert_eq!(single.owner, entry.owner);
        assert_eq!(single.collateral, entry.collateral);
        assert_eq!(single.debt, entry.debt);
        assert_eq!(single.pending_fee, entry.pending_fee);
    }
    assert_eq!(listing.0[2].pending_fee, 5);
}


#[test]
fn a_failed_rate_query_is_reported_where_the_rate_is_needed() {
    let mut store = market();
    let id = opened(&mut store, "alice");
    let fs = store.state.clone_state();
    lock(&mut store, fs, &info("alice", vec![("uatom", 100)]), id).unwrap();
    let no_rate = || Err(StdError::Host { msg: "no rate".to_string() });
    // the owner check comes first
    let fs = store.state.clone_state();
    assert!(matches!(
        borrow(&mut store, fs, &info("mallory", vec![]), id, 1, no_rate()),
        Err(ContractError::Unauthorized)
    ));
    let fs = store.state.clone_state();
    assert!(matches!(
        unlock(&mut store, fs, &info("alice", vec![]), id, 1, no_rate()),
        Err(ContractError::Std(StdError::Host { .. }))
    ));
    // for a liquidation, the sender check comes first, then the rate
    let fs = store.state.clone_state();
    assert!(matches!(
        liquidate(&mut store, fs, &info("alice", vec![]), id, no_rate()),
        Err(ContractError::Unauthorized)
    ));
    let fs = store.state.clone_state();
    assert!(matches!(
        liquidate(&mut store, fs, &info("core", vec![]), 99, no_rate()),
        Err(ContractError::Std(StdError::Host { .. }))
    ));
    // a repayment reports the rate's error only after its own checks
    let fs = store.state.clone_state();
    assert!(matches!(
        repay(&mut store, fs, &info("alice", vec![("unoi", 5)]), id, no_rate()),
        Err(ContractError::Overpaid)
    ));
    assert_eq!(store.state.total_collateral, 100);
    assert_eq!(store.book.position_count(), 1);
}
