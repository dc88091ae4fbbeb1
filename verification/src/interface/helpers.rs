use vstd::prelude::*;

use crate::interface::core_msg;
use crate::interface::market;
use crate::interface::treasury;
use crate::interface::RangeOrder;

verus! {

/// A contract call: `msg` executed on `contract_addr` with no funds attached.
#[derive(Debug)]
pub struct WasmExecute<M> {
    pub contract_addr: String,
    pub msg: M,
}

/// The address of the core contract, with helpers to call it.
#[derive(Debug)]
pub struct NoiCore(pub String);

impl NoiCore {
    pub fn addr(&self) -> (a: String)
        ensures
            a == self.0,
    {
        self.0.clone()
    }

    /// The call of `msg` on the core.
    pub fn call(&self, msg: core_msg::ExecuteMsg) -> (c: WasmExecute<core_msg::ExecuteMsg>)
        ensures
            c == (WasmExecute { contract_addr: self.0, msg }),
    {
        WasmExecute { contract_addr: self.addr(), msg }
    }
}

/// A query `msg` addressed to the contract at `contract_addr`.
#[derive(Debug)]
pub struct WasmSmartQuery<M> {
    pub contract_addr: String,
    pub msg: M,
}

/// The address of a market contract, with helpers to call it.
#[derive(Debug)]
pub struct NoiMarket(pub String);

impl NoiMarket {
    pub fn addr(&self) -> (a: String)
        ensures
            a == self.0,
    {
        self.0.clone()
    }

    /// The call of `msg` on the market.
    pub fn call(&self, msg: market::ExecuteMsg) -> (c: WasmExecute<market::ExecuteMsg>)
        ensures
            c == (WasmExecute { contract_addr: self.0, msg }),
    {
        WasmExecute { contract_addr: self.addr(), msg }
    }

    /// The query of the market's settings.
    pub fn get_config(&self) -> (q: WasmSmartQuery<market::QueryMsg>)
        ensures
            q == (WasmSmartQuery { contract_addr: self.0, msg: market::QueryMsg::GetConfig }),
    {
        WasmSmartQuery { contract_addr: self.addr(), msg: market::QueryMsg::GetConfig }
    }

    /// The query of the market's totals and fee index.
    pub fn get_status(&self) -> (q: WasmSmartQuery<market::QueryMsg>)
        ensures
            q == (WasmSmartQuery { contract_addr: self.0, msg: market::QueryMsg::GetState }),
    {
        WasmSmartQuery { contract_addr: self.addr(), msg: market::QueryMsg::GetState }
    }

    /// The query of one position.
    pub fn get_position(&self, position_id: u64) -> (q: WasmSmartQuery<market::QueryMsg>)
        ensures
            q == (WasmSmartQuery { contract_addr: self.0, msg: market::QueryMsg::GetPosition { position_id } }),
    {
        WasmSmartQuery { contract_addr: self.addr(), msg: market::QueryMsg::GetPosition { position_id } }
    }

    /// The query of a page of all positions.
    pub fn list_position(&self, start_after: Option<u64>, limit: Option<u32>, order: Option<RangeOrder>) -> (q: WasmSmartQuery<market::QueryMsg>)
        ensures
            q == (WasmSmartQuery {
                contract_addr: self.0,
                msg: market::QueryMsg::ListPosition(market::ListPositionMsg::Default { start_after, limit, order }),
            }),
    {
        WasmSmartQuery {
            contract_addr: self.addr(),
            msg: market::QueryMsg::ListPosition(market::ListPositionMsg::Default { start_after, limit, order }),
        }
    }

    /// The query of a page of the positions of `owner`.
    pub fn list_position_by_owner(
        &self,
        owner: String,
        start_after: Option<u64>,
        limit: Option<u32>,
        order: Option<RangeOrder>,
    ) -> (q: WasmSmartQuery<market::QueryMsg>)
        ensures
            q == (WasmSmartQuery {
                contract_addr: self.0,
                msg: market::QueryMsg::ListPosition(market::ListPositionMsg::ByOwner { owner, start_after, limit, order }),
            }),
    {
        WasmSmartQuery {
            contract_addr: self.addr(),
            msg: market::QueryMsg::ListPosition(market::ListPositionMsg::ByOwner { owner, start_after, limit, order }),
        }
    }
}

/// The address of the treasury contract, with helpers to call it.
#[derive(Debug)]
pub struct NoiTreasury(pub String);

impl NoiTreasury {
    pub fn addr(&self) -> (a: String)
        ensures
            a == self.0,
    {
        self.0.clone()
    }

    /// The call of `msg` on the treasury.
    pub fn call(&self, msg: treasury::ExecuteMsg) -> (c: WasmExecute<treasury::ExecuteMsg>)
        ensures
            c == (WasmExecute { contract_addr: self.0, msg }),
    {
        WasmExecute { contract_addr: self.addr(), msg }
    }

    /// The query of the treasury's settings.
    pub fn config(&self) -> (q: WasmSmartQuery<treasury::QueryMsg>)
        ensures
            q == (WasmSmartQuery { contract_addr: self.0, msg: treasury::QueryMsg::Config }),
    {
        WasmSmartQuery { contract_addr: self.addr(), msg: treasury::QueryMsg::Config }
    }
}

} // verus!
