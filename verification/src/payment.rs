use vstd::prelude::*;

use crate::error::PaymentError;
use crate::interface::{Coin, MessageInfo};

verus! {

/// The amount paid when exactly one coin of `denom`, of non-zero amount, was
/// attached; `None` otherwise.
pub open spec fn paid_amount(funds: Seq<Coin>, denom: Seq<char>) -> Option<u128> {
    if funds.len() == 1 && funds[0].amount != 0 && funds[0].denom@ == denom {
        Some(funds[0].amount)
    } else {
        None
    }
}

/// The error for funds that are not exactly one non-zero coin of `denom`:
/// no (or a zero) coin, more than one coin, or a coin of another denom.
pub open spec fn payment_refused(funds: Seq<Coin>, denom: Seq<char>, e: PaymentError) -> bool {
    if funds.len() == 0 || (funds.len() == 1 && funds[0].amount == 0) {
        e is NoFunds
    } else if funds.len() > 1 {
        e is MultipleDenoms
    } else {
        e matches PaymentError::MissingDenom(d) && d@ == denom
    }
}

/// `cw_utils::must_pay`: the amount of the single coin attached to the
/// message, when there is exactly one coin, of `denom` and of non-zero amount;
/// otherwise `NoFunds` (no coin, or a zero one), `MultipleDenoms` (several
/// coins) or `MissingDenom(denom)` (a coin of another denom).
#[verifier::external_body]
pub(crate) fn must_pay(info: &MessageInfo, denom: &String) -> (r: Result<u128, PaymentError>)
    ensures
        r is Ok <==> paid_amount(info.funds@, denom@) is Some,
        r matches Ok(a) ==> paid_amount(info.funds@, denom@) == Some(a),
        r matches Err(e) ==> payment_refused(info.funds@, denom@, e),
{
    let funds: Vec<cosmwasm_std::Coin> = info.funds.iter().map(
        |c| cosmwasm_std::Coin::new(c.amount, c.denom.clone()),
    ).collect();
    let info = cosmwasm_std::MessageInfo { sender: cosmwasm_std::Addr::unchecked(info.sender.clone()), funds };
    match cw_utils::must_pay(&info, denom) {
        Ok(amount) => Ok(amount.u128()),
        Err(cw_utils::PaymentError::MissingDenom(d)) => Err(PaymentError::MissingDenom(d)),
        Err(cw_utils::PaymentError::ExtraDenom(d)) => Err(PaymentError::ExtraDenom(d)),
        Err(cw_utils::PaymentError::MultipleDenoms {}) => Err(PaymentError::MultipleDenoms),
        Err(cw_utils::PaymentError::NoFunds {}) => Err(PaymentError::NoFunds),
        Err(cw_utils::PaymentError::NonPayable {}) => Err(PaymentError::NonPayable),
    }
}

} // verus!
