use vstd::prelude::*;

use crate::core_contract::reply::ParseReplyError;
use crate::error::{PaymentError, StdError};

verus! {

/// Errors of the core contract.
#[derive(Debug)]
pub enum ContractError {
    Std(StdError),
    PaymentError(PaymentError),
    ParseReplyError(ParseReplyError),
    Unauthorized,
    InvalidReplyId,
    InsufficientTokenCreationFee,
}

} // verus!
