use vstd::prelude::*;

use crate::decimal::Decimal;
use crate::error::StdError;
use crate::interface::core_msg::{CallbackMsg, ExecuteMsg as CoreExecuteMsg};
use crate::interface::helpers::{NoiCore, WasmExecute};
use crate::interface::market::InstantiateMsg;
use crate::market::error::ContractError;
use crate::market::book::{PositionBook, index_consistent};
use crate::market::position::Position;
use crate::market::state::{Config, State};

verus! {

/// Everything a market keeps in storage.
pub struct MarketStore {
    pub config: Config,
    pub state: State,
    pub book: PositionBook,
}

/// A message that a market sends.
pub enum MarketMsgOut {
    /// A call on the core contract.
    Core(WasmExecute<CoreExecuteMsg>),
    /// A bank transfer of `amount` of `denom` to `to_address`.
    Bank { to_address: String, denom: String, amount: u128 },
}

/// What a market action reports.
pub enum MarketEvent {
    Open { owner: String, position_id: u64 },
    Close { owner: String, position_id: u64 },
    Liquidate { owner: String, position_id: u64, collateral: u128, debt: u128, rate: Decimal },
    Lock { owner: String, position_id: u64, amount: u128 },
    Unlock { owner: String, position_id: u64, amount: u128, rate: Decimal },
    Borrow { owner: String, position_id: u64, amount: u128, rate: Decimal },
    Repay { owner: String, position_id: u64, amount: u128, rate: Decimal },
}

/// The outcome of a successful market action: the event it reports (none
/// for a settings change) and the messages it sends, in order.
pub struct MarketResponse {
    pub event: Option<MarketEvent>,
    pub messages: Vec<MarketMsgOut>,
}

impl MarketStore {
    /// The store is well formed.
    pub open spec fn wf(self) -> bool {
        self.book.wf()
    }

    /// `other` holds the same storage as `self`.
    pub open spec fn same_as(self, other: MarketStore) -> bool {
        &&& self.config == other.config
        &&& self.state == other.state
        &&& self.book.positions() == other.book.positions()
        &&& self.book.owner_index() == other.book.owner_index()
        &&& self.book.count() == other.book.count()
    }
}

/// The store keeps its books straight: the owner index agrees with the
/// positions, every position id is below the id counter, and no position's
/// fee index is ahead of the global one.
pub open spec fn consistent(store: MarketStore) -> bool {
    &&& index_consistent(store.book.positions(), store.book.owner_index())
    &&& forall|id: u64| #[trigger] store.book.positions().contains_key(id) ==> id < store.book.count()
    &&& forall|id: u64| #[trigger] store.book.positions().contains_key(id)
        ==> store.book.positions()[id].stored_fee_index.atomics <= store.state.global_fee_index.atomics
}

/// The callback message for the core contract at `core`.
pub open spec fn core_callback(core: String, msg: CallbackMsg) -> MarketMsgOut {
    MarketMsgOut::Core(WasmExecute { contract_addr: core, msg: CoreExecuteMsg::Callback(msg) })
}

pub fn callback_to(core: &String, msg: CallbackMsg) -> (m: MarketMsgOut)
    ensures
        m == core_callback(*core, msg),
{
    MarketMsgOut::Core(NoiCore(core.clone()).call(CoreExecuteMsg::from(msg)))
}

/// Sets up a market from `msg` at time `now`: the settings from the message,
/// zero totals, the fee index starting at `fee_base` and no positions.
///
/// `core`, `oracle` and `liquidator` are the host's answers to validating
/// the three addresses of the message, checked in that order.
pub fn instantiate(
    msg: InstantiateMsg,
    now: u64,
    core: Result<String, StdError>,
    oracle: Result<String, StdError>,
    liquidator: Result<String, StdError>,
) -> (r: Result<MarketStore, ContractError>)
    ensures
        core matches Err(e) ==> r == Err::<MarketStore, ContractError>(ContractError::Std(e)),
        core is Ok && oracle is Err ==> r == Err::<MarketStore, ContractError>(ContractError::Std(oracle->Err_0)),
        core is Ok && oracle is Ok && liquidator is Err ==> r == Err::<MarketStore, ContractError>(ContractError::Std(liquidator->Err_0)),
        core is Ok && oracle is Ok && liquidator is Ok ==> (r matches Ok(store) && {
            &&& store.wf()
            &&& store.config == Config {
                name: msg.name,
                core: core->Ok_0,
                oracle: oracle->Ok_0,
                liquidator: liquidator->Ok_0,
                debt_asset: msg.debt_asset,
                collateral_asset: msg.collateral_asset,
                borrow_ltv: msg.borrow_ltv,
                fee_multiplier: msg.fee_multiplier,
            }
            &&& store.state == State {
                total_debt: 0,
                total_collateral: 0,
                fee_updated_at: now,
                global_fee_index: msg.fee_base,
            }
            &&& store.book.count() == 0
            &&& store.book.positions() == Map::<u64, Position>::empty()
            &&& store.book.owner_index() == Set::<(Seq<char>, u64)>::empty()
            &&& consistent(store)
        }),
{
    let core = match core {
        Ok(a) => a,
        Err(e) => return Err(ContractError::Std(e)),
    };
    let oracle = match oracle {
        Ok(a) => a,
        Err(e) => return Err(ContractError::Std(e)),
    };
    let liquidator = match liquidator {
        Ok(a) => a,
        Err(e) => return Err(ContractError::Std(e)),
    };
    let config = Config {
        name: msg.name,
        core,
        oracle,
        liquidator,
        debt_asset: msg.debt_asset,
        collateral_asset: msg.collateral_asset,
        borrow_ltv: msg.borrow_ltv,
        fee_multiplier: msg.fee_multiplier,
    };
    let state = State { total_debt: 0, total_collateral: 0, fee_updated_at: now, global_fee_index: msg.fee_base };
    Ok(MarketStore { config, state, book: PositionBook::new() })
}

} // verus!
