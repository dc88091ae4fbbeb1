use vstd::prelude::*;

use crate::decimal::Decimal;
use crate::error::{OverflowOperation, PaymentError, StdError};

verus! {

/// Errors of the market contract.
#[derive(Debug)]
pub enum ContractError {
    Std(StdError),
    OverflowError(OverflowOperation),
    PaymentError(PaymentError),
    CheckedFromRatioError,
    Unauthorized,
    InsufficientCollateral { demand: Decimal, actual: Decimal },
    OverflowUnlockCapacity,
    OverflowBorrowCapacity,
    Overpaid,
    NotLiquidated,
    NotLiquidatable,
    OversizedRequest { size: u64, max: u64 },
}

} // verus!
