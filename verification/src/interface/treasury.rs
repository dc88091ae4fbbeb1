use vstd::prelude::*;

verus! {

/// Settings of a new treasury: the sub-denomination it creates and the core
/// that controls it.
#[derive(Debug)]
pub struct InstantiateMsg {
    pub denom: String,
    pub core: String,
}

/// Actions on the treasury; only the core may run them.
#[derive(Debug)]
pub enum ExecuteMsg {
    Mint { to: String, amount: u128 },
    Burn,
    Migrate { new_admin: String },
}

#[derive(Debug)]
pub enum QueryMsg {
    Config,
}

#[derive(Debug)]
pub struct ConfigResponse {
    pub denom: String,
    pub core: String,
}

} // verus!
