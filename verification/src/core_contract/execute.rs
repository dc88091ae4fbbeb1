use vstd::prelude::*;

use crate::core_contract::error::ContractError;
use crate::core_contract::reply::{SubMsgOutcome, parse_reply_instantiate_data, instantiated_address};
use crate::core_contract::state::{Config, Market, Registry};
use crate::error::StdError;
use crate::interface::{Coin, MessageInfo};
use crate::interface::core_msg::{InstantiateMsg, LiquidatorInfo, MarketCreateMsg, MarketMsg, TreasuryInfo};
use crate::interface::helpers::{NoiMarket, WasmExecute};
use crate::interface::market;
use crate::interface::treasury;
use crate::payment::{must_pay, paid_amount, payment_refused};

verus! {

/// Reply id of the treasury instantiation.
pub const REPLY_ID_TREASURY_CREATION: u64 = 0;
/// Reply id of the liquidator instantiation.
pub const REPLY_ID_LIQUIDATOR_CREATION: u64 = 1;
/// Reply id of a market instantiation.
pub const REPLY_ID_MARKET_CREATION: u64 = 2;

/// What the core asks a new contract to start with.
#[derive(Debug)]
pub enum InstantiatePayload {
    Treasury(treasury::InstantiateMsg),
    /// The liquidator is instantiated with an empty message.
    Liquidator,
    Market(market::InstantiateMsg),
}

/// A message that the core sends.
#[derive(Debug)]
pub enum CoreMsgOut {
    /// Instantiates a contract administered by `admin`, with a reply under
    /// `reply_id` when it succeeds.
    Instantiate {
        admin: String,
        code_id: u64,
        msg: InstantiatePayload,
        funds: Vec<Coin>,
        label: String,
        reply_id: u64,
    },
    /// A call on a market.
    ExecuteMarket(WasmExecute<market::ExecuteMsg>),
}

/// The message that instantiates the treasury for `denom` under the core at
/// `contract`, paid with `funds`.
pub open spec fn is_treasury_creation(m: CoreMsgOut, contract: String, code_id: u64, denom: String, fee_asset: String, amount: u128) -> bool {
    m matches CoreMsgOut::Instantiate { admin, code_id: c, msg, funds, label, reply_id }
        && admin == contract && c == code_id
        && msg == InstantiatePayload::Treasury(treasury::InstantiateMsg { denom, core: contract })
        && funds@ == seq![Coin { denom: fee_asset, amount }]
        && label@ == "noi-treasury"@
        && reply_id == REPLY_ID_TREASURY_CREATION
}

/// The message that instantiates the liquidator under the core at `contract`.
pub open spec fn is_liquidator_creation(m: CoreMsgOut, contract: String, code_id: u64) -> bool {
    m matches CoreMsgOut::Instantiate { admin, code_id: c, msg, funds, label, reply_id }
        && admin == contract && c == code_id
        && msg == InstantiatePayload::Liquidator
        && funds@.len() == 0
        && label@ == "noi-liquidator"@
        && reply_id == REPLY_ID_LIQUIDATOR_CREATION
}

fn treasury_creation(contract: &String, code_id: u64, denom: String, fee_asset: String, amount: u128) -> (m: CoreMsgOut)
    ensures
        is_treasury_creation(m, *contract, code_id, denom, fee_asset, amount),
{
    let mut funds: Vec<Coin> = Vec::new();
    funds.push(Coin { denom: fee_asset, amount });
    let ghost f = funds@;
    let m = CoreMsgOut::Instantiate {
        admin: contract.clone(),
        code_id,
        msg: InstantiatePayload::Treasury(treasury::InstantiateMsg { denom, core: contract.clone() }),
        funds,
        label: "noi-treasury".to_owned(),
        reply_id: REPLY_ID_TREASURY_CREATION,
    };
    proof {
        assert(f =~= seq![Coin { denom: fee_asset, amount }]);
    }
    m
}

fn liquidator_creation(contract: &String, code_id: u64) -> (m: CoreMsgOut)
    ensures
        is_liquidator_creation(m, *contract, code_id),
{
    CoreMsgOut::Instantiate {
        admin: contract.clone(),
        code_id,
        msg: InstantiatePayload::Liquidator,
        funds: Vec::new(),
        label: "noi-liquidator".to_owned(),
        reply_id: REPLY_ID_LIQUIDATOR_CREATION,
    }
}

/// Sets up the core at address `contract` from `msg`: governance, the debt
/// denom, and a treasury and a liquidator that are either created (an
/// instantiation with a reply; creating the treasury asks for exactly its
/// fee, which goes to the new treasury) or reused.
///
/// `gov`, `treasury_check` and `liquidator_check` are the host's answers to
/// validating the governance address and the reused treasury and liquidator
/// addresses (the latter two are read only when reusing). Checks run in the
/// order gov, treasury, liquidator. On success the config (treasury or
/// liquidator left empty when created) and the messages, treasury first.
pub fn instantiate(
    msg: InstantiateMsg,
    info: &MessageInfo,
    contract: &String,
    gov: Result<String, StdError>,
    treasury_check: Result<String, StdError>,
    liquidator_check: Result<String, StdError>,
) -> (r: Result<(Config, Vec<CoreMsgOut>), ContractError>)
    ensures
        gov is Err ==> r == Err::<(Config, Vec<CoreMsgOut>), ContractError>(ContractError::Std(gov->Err_0)),
        gov is Ok ==> match msg.treasury {
            TreasuryInfo::Create { code_id, fee, fee_asset } => match paid_amount(info.funds@, fee_asset@) {
                None => r matches Err(ContractError::PaymentError(e)) && payment_refused(info.funds@, fee_asset@, e),
                Some(received) => if received != fee {
                    r == Err::<(Config, Vec<CoreMsgOut>), ContractError>(ContractError::InsufficientTokenCreationFee)
                } else {
                    liquidator_outcome(r, msg, *contract, gov->Ok_0, Seq::empty(), liquidator_check, 1)
                        && (r matches Ok((_, msgs)) ==> is_treasury_creation(msgs@[0], *contract, code_id, msg.denom, fee_asset, received))
                },
            },
            TreasuryInfo::Reuse(_) => match treasury_check {
                Err(e) => r == Err::<(Config, Vec<CoreMsgOut>), ContractError>(ContractError::Std(e)),
                Ok(t) => liquidator_outcome(r, msg, *contract, gov->Ok_0, t@, liquidator_check, 0),
            },
        },
{
    let gov = match gov {
        Ok(a) => a,
        Err(e) => return Err(ContractError::Std(e)),
    };
    let mut messages: Vec<CoreMsgOut> = Vec::new();
    let treasury = match msg.treasury {
        TreasuryInfo::Create { code_id, fee, fee_asset } => {
            let received = match must_pay(info, &fee_asset) {
                Ok(a) => a,
                Err(e) => return Err(ContractError::PaymentError(e)),
            };
            if received != fee {
                return Err(ContractError::InsufficientTokenCreationFee);
            }
            messages.push(treasury_creation(contract, code_id, msg.denom.clone(), fee_asset, received));
            String::new()
        },
        TreasuryInfo::Reuse(_) => match treasury_check {
            Ok(a) => a,
            Err(e) => return Err(ContractError::Std(e)),
        },
    };
    let liquidator = match msg.liquidator {
        LiquidatorInfo::Create { code_id } => {
            messages.push(liquidator_creation(contract, code_id));
            String::new()
        },
        LiquidatorInfo::Reuse(_) => match liquidator_check {
            Ok(a) => a,
            Err(e) => return Err(ContractError::Std(e)),
        },
    };
    Ok((Config { gov, denom: msg.denom, treasury, liquidator }, messages))
}

/// The rest of instantiation once the treasury part gave `treasury` and
/// `n` messages: the liquidator is created (one more message) or reused.
pub open spec fn liquidator_outcome(
    r: Result<(Config, Vec<CoreMsgOut>), ContractError>,
    msg: InstantiateMsg,
    contract: String,
    gov: String,
    treasury: Seq<char>,
    liquidator_check: Result<String, StdError>,
    n: nat,
) -> bool {
    match msg.liquidator {
        LiquidatorInfo::Create { code_id } => r matches Ok((config, msgs))
            && config.gov == gov && config.denom == msg.denom
            && config.treasury@ == treasury && config.liquidator@ == Seq::<char>::empty()
            && msgs@.len() == n + 1
            && is_liquidator_creation(msgs@[n as int], contract, code_id),
        LiquidatorInfo::Reuse(_) => match liquidator_check {
            Err(e) => r == Err::<(Config, Vec<CoreMsgOut>), ContractError>(ContractError::Std(e)),
            Ok(l) => r matches Ok((config, msgs))
                && config.gov == gov && config.denom == msg.denom
                && config.treasury@ == treasury && config.liquidator == l
                && msgs@.len() == n,
        },
    }
}

/// The label of a market's contract: `noi-market::` and its name.
pub open spec fn market_label(name: Seq<char>) -> Seq<char> {
    "noi-market::"@ + name
}

/// The message that instantiates a market from `init` under the core at
/// `contract`.
pub open spec fn is_market_creation(m: CoreMsgOut, contract: String, code_id: u64, init: market::InstantiateMsg) -> bool {
    m matches CoreMsgOut::Instantiate { admin, code_id: c, msg, funds, label, reply_id }
        && admin == contract && c == code_id
        && msg == InstantiatePayload::Market(init)
        && funds@.len() == 0
        && label@ == market_label(init.name@)
        && reply_id == REPLY_ID_MARKET_CREATION
}

/// What `create` answers for the core at `contract` with settings `config`.
pub open spec fn create_post(config: Config, info: MessageInfo, contract: String, msg: MarketCreateMsg, r: Result<Vec<CoreMsgOut>, ContractError>) -> bool {
    &&& (config.gov@ != info.sender@ ==> r == Err::<Vec<CoreMsgOut>, ContractError>(ContractError::Unauthorized))
    &&& (config.gov@ == info.sender@ ==> (r matches Ok(msgs) && msgs@.len() == 1
            && is_market_creation(msgs@[0], contract, msg.code_id, market::InstantiateMsg {
                name: msg.name,
                core: contract,
                oracle: msg.oracle,
                liquidator: config.liquidator,
                debt_asset: config.denom,
                collateral_asset: msg.collateral,
                borrow_ltv: msg.borrow_ltv,
                fee_base: msg.fee_base,
                fee_multiplier: msg.fee_multiplier,
            })))
}

/// Asks for a new market (governance only): an instantiation of `msg.code_id`
/// administered by the core at `contract`, with the core as the market's
/// core, the core's liquidator and debt denom, and the rest from `msg`; a
/// reply comes back under `REPLY_ID_MARKET_CREATION`.
pub fn create(config: &Config, info: &MessageInfo, contract: &String, msg: MarketCreateMsg) -> (r: Result<Vec<CoreMsgOut>, ContractError>)
    ensures
        create_post(*config, *info, *contract, msg, r),
{
    if config.gov != info.sender {
        return Err(ContractError::Unauthorized);
    }
    let label = "noi-market::".to_owned().concat(msg.name.as_str());
    let init = market::InstantiateMsg {
        name: msg.name,
        core: contract.clone(),
        oracle: msg.oracle,
        liquidator: config.liquidator.clone(),
        debt_asset: config.denom.clone(),
        collateral_asset: msg.collateral,
        borrow_ltv: msg.borrow_ltv,
        fee_base: msg.fee_base,
        fee_multiplier: msg.fee_multiplier,
    };
    let mut messages: Vec<CoreMsgOut> = Vec::new();
    messages.push(CoreMsgOut::Instantiate {
        admin: contract.clone(),
        code_id: msg.code_id,
        msg: InstantiatePayload::Market(init),
        funds: Vec::new(),
        label,
        reply_id: REPLY_ID_MARKET_CREATION,
    });
    Ok(messages)
}

/// What `config_market` does: how the registry `r1` after the call and the
/// result `r` relate to the registry `r0` before it.
pub open spec fn config_market_post(
    config: Config,
    r0: Registry,
    r1: Registry,
    info: MessageInfo,
    market: String,
    msg: market::ConfigMsg,
    market_check: Result<String, StdError>,
    r: Result<Vec<CoreMsgOut>, ContractError>,
) -> bool {
    &&& (r is Err ==> r1.markets() == r0.markets()
            && r1.names() == r0.names()
            && r1.collaterals() == r0.collaterals())
    &&& (config.gov@ != info.sender@ ==> r == Err::<Vec<CoreMsgOut>, ContractError>(ContractError::Unauthorized))
    &&& (config.gov@ == info.sender@ && !(msg is ChangeName) ==> {
            &&& r1.markets() == r0.markets()
            &&& r1.names() == r0.names()
            &&& r1.collaterals() == r0.collaterals()
            &&& r matches Ok(msgs) && msgs@ == seq![CoreMsgOut::ExecuteMarket(WasmExecute {
                contract_addr: market, msg: market::ExecuteMsg::Config(msg) })]
        })
    &&& (config.gov@ == info.sender@ && msg is ChangeName ==> match market_check {
            Err(e) => r == Err::<Vec<CoreMsgOut>, ContractError>(ContractError::Std(e)),
            Ok(addr) => if !r0.markets().contains_key(addr@) {
                r == Err::<Vec<CoreMsgOut>, ContractError>(ContractError::Std(StdError::NotFound {
                    kind: crate::error::RecordKind::Market,
                }))
            } else {
                let m = r0.markets()[addr@];
                let new_name = msg->ChangeName_0;
                &&& r1.markets() == r0.markets().insert(addr@, Market { name: new_name, ..m })
                &&& r1.names() == r0.names().remove(m.name@).insert(new_name@, addr)
                &&& r1.collaterals() == r0.collaterals().insert((m.collateral@, addr@))
                &&& r matches Ok(msgs) && msgs@ == seq![CoreMsgOut::ExecuteMarket(WasmExecute {
                    contract_addr: market, msg: market::ExecuteMsg::Config(msg) })]
            },
        })
}

/// Forwards a settings change to the market at `market` (governance only).
/// A rename also moves the market's entry in the registry: its old name is
/// dropped and it is saved again under the new one.
///
/// `market_check` is the host's answer to validating `market`, read only for
/// a rename.
pub fn config_market(
    config: &Config,
    registry: &mut Registry,
    info: &MessageInfo,
    market: String,
    msg: market::ConfigMsg,
    market_check: Result<String, StdError>,
) -> (r: Result<Vec<CoreMsgOut>, ContractError>)
    requires
        old(registry).wf(),
    ensures
        final(registry).wf(),
        config_market_post(*config, *old(registry), *final(registry), *info, market, msg, market_check, r),
{
    if config.gov != info.sender {
        return Err(ContractError::Unauthorized);
    }
    if let market::ConfigMsg::ChangeName(new_name) = &msg {
        let addr = match market_check {
            Ok(a) => a,
            Err(e) => return Err(ContractError::Std(e)),
        };
        let mut m = match Market::load(registry, &addr) {
            Ok(m) => m,
            Err(e) => return Err(ContractError::Std(e)),
        };
        registry.by_name.remove(m.name.as_str());
        registry.by_name.insert(new_name.clone(), addr.clone());
        let ghost old_name = m.name@;
        m.name = new_name.clone();
        let _ = m.save(registry, &addr);
        assert(registry.names() =~= old(registry).names().remove(old_name).insert(new_name@, addr));
    }
    let call = NoiMarket(market).call(market::ExecuteMsg::Config(msg));
    let mut messages: Vec<CoreMsgOut> = Vec::new();
    let ghost m0 = CoreMsgOut::ExecuteMarket(call);
    messages.push(CoreMsgOut::ExecuteMarket(call));
    assert(messages@ =~= seq![m0]);
    Ok(messages)
}

/// Handles a market message: creation or a settings change.
pub fn handle_market_msg(
    config: &Config,
    registry: &mut Registry,
    info: &MessageInfo,
    contract: &String,
    msg: MarketMsg,
    market_check: Result<String, StdError>,
) -> (r: Result<Vec<CoreMsgOut>, ContractError>)
    requires
        old(registry).wf(),
    ensures
        final(registry).wf(),
        match msg {
            MarketMsg::Create(m) => {
                &&& create_post(*config, *info, *contract, m, r)
                &&& final(registry).markets() == old(registry).markets()
                &&& final(registry).names() == old(registry).names()
                &&& final(registry).collaterals() == old(registry).collaterals()
            },
            MarketMsg::Config { market, msg } => config_market_post(
                *config, *old(registry), *final(registry), *info, market, msg, market_check, r),
        },
{
    match msg {
        MarketMsg::Create(m) => create(config, info, contract, m),
        MarketMsg::Config { market, msg } => config_market(config, registry, info, market, msg, market_check),
    }
}

/// The address of the contract that the reply `id` reports as instantiated:
/// an unknown reply id is refused before anything is read, then the reply's
/// data is decoded.
pub fn reply_address(id: u64, outcome: SubMsgOutcome) -> (r: Result<String, ContractError>)
    ensures
        id > REPLY_ID_MARKET_CREATION ==> r == Err::<String, ContractError>(ContractError::InvalidReplyId),
        id <= REPLY_ID_MARKET_CREATION ==> {
            &&& r is Ok <==> (outcome is Success && outcome->data is Some
                && instantiated_address(outcome->data->0@) is Some)
            &&& r matches Ok(a) ==> a@ == instantiated_address(outcome->data->0@)->0
            &&& r is Err ==> (r matches Err(ContractError::ParseReplyError(_)))
        },
{
    if id > REPLY_ID_MARKET_CREATION {
        return Err(ContractError::InvalidReplyId);
    }
    match parse_reply_instantiate_data(outcome) {
        Ok(a) => Ok(a),
        Err(e) => Err(ContractError::ParseReplyError(e)),
    }
}

/// Records the outcome of an instantiation that the core asked for.
///
/// The reply's data gives the new contract's address (`reply_address`);
/// `address_check` is the host's answer to validating that decoded address,
/// and `market_info` the (name, collateral) that the new market reported when
/// queried (read only for a market). A treasury or liquidator reply sets the
/// decoded address in the config; a market reply registers the market under
/// it. An unknown reply id is refused before anything is read.
pub fn reply(
    config: &mut Config,
    registry: &mut Registry,
    id: u64,
    outcome: SubMsgOutcome,
    address_check: Result<(), StdError>,
    market_info: Result<(String, String), StdError>,
) -> (r: Result<(), ContractError>)
    requires
        old(registry).wf(),
    ensures
        final(registry).wf(),
        r is Err ==> *final(config) == *old(config) && final(registry).markets() == old(registry).markets()
            && final(registry).names() == old(registry).names()
            && final(registry).collaterals() == old(registry).collaterals(),
        id > REPLY_ID_MARKET_CREATION ==> r == Err::<(), ContractError>(ContractError::InvalidReplyId),
        id <= REPLY_ID_MARKET_CREATION && !(outcome is Success && outcome->data is Some
            && instantiated_address(outcome->data->0@) is Some) ==> (r matches Err(ContractError::ParseReplyError(_))),
        id <= REPLY_ID_MARKET_CREATION && outcome is Success && outcome->data is Some
            && instantiated_address(outcome->data->0@) is Some ==> {
            let d = instantiated_address(outcome->data->0@)->0;
            match address_check {
                Err(e) => r == Err::<(), ContractError>(ContractError::Std(e)),
                Ok(_) => if id == REPLY_ID_TREASURY_CREATION {
                    &&& r is Ok
                    &&& final(config).treasury@ == d
                    &&& *final(config) == Config { treasury: final(config).treasury, ..*old(config) }
                    &&& final(registry).markets() == old(registry).markets()
                    &&& final(registry).names() == old(registry).names()
                    &&& final(registry).collaterals() == old(registry).collaterals()
                } else if id == REPLY_ID_LIQUIDATOR_CREATION {
                    &&& r is Ok
                    &&& final(config).liquidator@ == d
                    &&& *final(config) == Config { liquidator: final(config).liquidator, ..*old(config) }
                    &&& final(registry).markets() == old(registry).markets()
                    &&& final(registry).names() == old(registry).names()
                    &&& final(registry).collaterals() == old(registry).collaterals()
                } else {
                    match market_info {
                        Err(e) => r == Err::<(), ContractError>(ContractError::Std(e)),
                        Ok((name, collateral)) => {
                            &&& r is Ok
                            &&& *final(config) == *old(config)
                            &&& final(registry).markets() == old(registry).markets().insert(d, Market { name, collateral })
                            &&& final(registry).names().contains_key(name@)
                            &&& final(registry).names()[name@]@ == d
                            &&& final(registry).names() == old(registry).names().insert(name@, final(registry).names()[name@])
                            &&& final(registry).collaterals() == old(registry).collaterals().insert((collateral@, d))
                        },
                    }
                }
            }
        },
{
    let addr = match reply_address(id, outcome) {
        Ok(a) => a,
        Err(e) => return Err(e),
    };
    if let Err(e) = address_check {
        return Err(ContractError::Std(e));
    }
    if id == REPLY_ID_TREASURY_CREATION {
        config.treasury = addr;
        Ok(())
    } else if id == REPLY_ID_LIQUIDATOR_CREATION {
        config.liquidator = addr;
        Ok(())
    } else {
        let (name, collateral) = match market_info {
            Ok(v) => v,
            Err(e) => return Err(ContractError::Std(e)),
        };
        let _ = Market { name, collateral }.save(registry, &addr);
        Ok(())
    }
}

} // verus!
