//! The treasury: the protocol's own token, minted and burnt for the core.

use vstd::prelude::*;

use crate::error::{PaymentError, StdError};
use crate::interface::MessageInfo;
use crate::interface::treasury::{ConfigResponse, ExecuteMsg, InstantiateMsg, QueryMsg};
use crate::payment::{must_pay, paid_amount, payment_refused};

verus! {

/// The treasury's settings: the core that controls it and its token's
/// sub-denomination.
pub struct Config {
    pub core: String,
    pub denom: String,
}

/// Errors of the treasury contract.
#[derive(Debug)]
pub enum ContractError {
    Std(StdError),
    Unauthorized,
    PaymentError(PaymentError),
}

/// What the treasury asks of the token factory.
#[derive(Debug)]
pub enum TokenMsg {
    CreateDenom { subdenom: String },
    MintTokens { denom: String, amount: u128, mint_to_address: String },
    BurnTokens { denom: String, amount: u128, burn_from_address: String },
    ChangeAdmin { denom: String, new_admin_address: String },
}

/// Sets up the treasury for `msg.core` and creates its token.
/// `core` is the host's answer to validating the core's address.
pub fn instantiate(msg: InstantiateMsg, core: Result<String, StdError>) -> (r: Result<(Config, TokenMsg), ContractError>)
    ensures
        core is Err ==> r == Err::<(Config, TokenMsg), ContractError>(ContractError::Std(core->Err_0)),
        core is Ok ==> r == Ok::<(Config, TokenMsg), ContractError>((
            Config { core: core->Ok_0, denom: msg.denom },
            TokenMsg::CreateDenom { subdenom: msg.denom },
        )),
{
    let core = match core {
        Ok(a) => a,
        Err(e) => return Err(ContractError::Std(e)),
    };
    let denom = msg.denom.clone();
    Ok((Config { core, denom }, TokenMsg::CreateDenom { subdenom: msg.denom }))
}

/// Runs an action for the core (no one else may): minting to an address,
/// burning the tokens attached to the message from the treasury's own
/// address `contract`, or handing the token's admin to another address.
pub fn execute(config: &Config, info: &MessageInfo, contract: &String, msg: ExecuteMsg) -> (r: Result<TokenMsg, ContractError>)
    ensures
        info.sender@ != config.core@ ==> r == Err::<TokenMsg, ContractError>(ContractError::Unauthorized),
        info.sender@ == config.core@ ==> match msg {
            ExecuteMsg::Mint { to, amount } => r == Ok::<TokenMsg, ContractError>(
                TokenMsg::MintTokens { denom: config.denom, amount, mint_to_address: to },
            ),
            ExecuteMsg::Burn => match paid_amount(info.funds@, config.denom@) {
                None => r matches Err(ContractError::PaymentError(e)) && payment_refused(info.funds@, config.denom@, e),
                Some(a) => r == Ok::<TokenMsg, ContractError>(
                    TokenMsg::BurnTokens { denom: config.denom, amount: a, burn_from_address: *contract },
                ),
            },
            ExecuteMsg::Migrate { new_admin } => r == Ok::<TokenMsg, ContractError>(
                TokenMsg::ChangeAdmin { denom: config.denom, new_admin_address: new_admin },
            ),
        },
{
    if info.sender != config.core {
        return Err(ContractError::Unauthorized);
    }
    match msg {
        ExecuteMsg::Mint { to, amount } => Ok(TokenMsg::MintTokens {
            denom: config.denom.clone(),
            amount,
            mint_to_address: to,
        }),
        ExecuteMsg::Burn => {
            let amount = match must_pay(info, &config.denom) {
                Ok(a) => a,
                Err(e) => return Err(ContractError::PaymentError(e)),
            };
            Ok(TokenMsg::BurnTokens { denom: config.denom.clone(), amount, burn_from_address: contract.clone() })
        },
        ExecuteMsg::Migrate { new_admin } => Ok(TokenMsg::ChangeAdmin {
            denom: config.denom.clone(),
            new_admin_address: new_admin,
        }),
    }
}

/// Answers a query of the treasury: its settings.
pub fn query(cfg: &Config, msg: &QueryMsg) -> (r: ConfigResponse)
    ensures
        match *msg {
            QueryMsg::Config => r == (ConfigResponse { denom: cfg.denom, core: cfg.core }),
        },
{
    match msg {
        QueryMsg::Config => ConfigResponse { denom: cfg.denom.clone(), core: cfg.core.clone() },
    }
}

} // verus!
