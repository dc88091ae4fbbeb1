use vstd::prelude::*;

use crate::decimal::{Decimal, DECIMAL_FRACTIONAL, mul_floor, mul_uint_decimal, checked_mul_uint_decimal};
use crate::error::{OverflowOperation, StdError};
use crate::market::error::ContractError;

verus! {

/// A borrower's position: locked collateral and outstanding debt, the debt
/// valued at the fee index `stored_fee_index`.
#[derive(Debug)]
pub struct Position {
    pub owner: String,
    pub collateral: u128,
    pub debt: u128,
    pub stored_fee_index: Decimal,
}

impl Clone for Position {
    fn clone(&self) -> (r: Self)
        ensures
            r == *self,
    {
        Position {
            owner: self.owner.clone(),
            collateral: self.collateral,
            debt: self.debt,
            stored_fee_index: self.stored_fee_index,
        }
    }
}

/// Value of the collateral in the debt asset at `rate`, rounded down.
pub open spec fn collateral_value(p: Position, rate: Decimal) -> int {
    mul_floor(p.collateral as int, rate.atomics as int)
}

/// The debt scaled by the liquidation ratio `ltv`, rounded down.
pub open spec fn red_line(p: Position, ltv: Decimal) -> int {
    mul_floor(p.debt as int, ltv.atomics as int)
}

/// The valuations of a position at `rate` and `ltv` fit in 128 bits.
pub open spec fn valuation_fits(p: Position, rate: Decimal, ltv: Decimal) -> bool {
    &&& collateral_value(p, rate) <= u128::MAX
    &&& red_line(p, ltv) <= u128::MAX
}

/// The position can be liquidated at `rate` and `ltv`: its collateral is
/// worth less than its red line.
pub open spec fn liquidatable(p: Position, rate: Decimal, ltv: Decimal) -> bool {
    collateral_value(p, rate) < red_line(p, ltv)
}

/// What `borrowable_debt` gives: the collateral value above the red line, or
/// the subtraction's overflow error when the value is below it.
pub open spec fn debt_capacity(p: Position, rate: Decimal, ltv: Decimal) -> Result<u128, ContractError> {
    if red_line(p, ltv) <= collateral_value(p, rate) {
        Ok((collateral_value(p, rate) - red_line(p, ltv)) as u128)
    } else {
        Err(ContractError::OverflowError(OverflowOperation::Sub))
    }
}

/// The collateral that must stay locked: the red line converted back to
/// collateral units at `rate`, rounded down.
pub open spec fn locked_collateral(p: Position, rate: Decimal, ltv: Decimal) -> int {
    red_line(p, ltv) * DECIMAL_FRACTIONAL / rate.atomics as int
}

/// The fee accrued on the debt between the stored index and `global`.
pub open spec fn accrued_fee(p: Position, global: Decimal) -> int {
    mul_floor(p.debt as int, global.atomics - p.stored_fee_index.atomics)
}

/// `apply_fee` can run without a fault: the index did not go backwards and the
/// fee fits in 128 bits.
pub open spec fn fee_applicable(p: Position, global: Decimal) -> bool {
    &&& p.stored_fee_index.atomics <= global.atomics
    &&& accrued_fee(p, global) <= u128::MAX
}

/// What `apply_fee` gives: the fee added to the debt (`Err` when the sum
/// overflows), the index moved to `global`.
pub open spec fn with_fee(p: Position, global: Decimal) -> Result<Position, StdError> {
    if p.debt + accrued_fee(p, global) > u128::MAX {
        Err(StdError::Overflow { operation: OverflowOperation::Add })
    } else {
        Ok(Position {
            debt: (p.debt + accrued_fee(p, global)) as u128,
            stored_fee_index: global,
            ..p
        })
    }
}

impl Position {
    /// Collateral value in the debt asset: `collateral * rate`.
    pub fn collateral_value(&self, rate: Decimal) -> (v: u128)
        requires
            collateral_value(*self, rate) <= u128::MAX,
        ensures
            v == collateral_value(*self, rate),
    {
        mul_uint_decimal(self.collateral, rate)
    }

    /// The liquidation threshold of the debt: `debt * ltv`.
    pub fn red_line(&self, ltv: Decimal) -> (v: u128)
        requires
            red_line(*self, ltv) <= u128::MAX,
        ensures
            v == red_line(*self, ltv),
    {
        mul_uint_decimal(self.debt, ltv)
    }

    /// A position can be liquidated when its collateral is worth less than
    /// its red line.
    pub fn is_liquidatable(&self, rate: Decimal, ltv: Decimal) -> (b: bool)
        requires
            valuation_fits(*self, rate, ltv),
        ensures
            b == (collateral_value(*self, rate) < red_line(*self, ltv)),
            b == liquidatable(*self, rate, ltv),
    {
        self.collateral_value(rate) < self.red_line(ltv)
    }

    /// Collateral that can be withdrawn while keeping the red line covered:
    /// `collateral - red_line * 10^18 / rate.atomics`; an overflow error when
    /// the locked part exceeds the collateral.
    pub fn unlockable_collateral(&self, rate: Decimal, ltv: Decimal) -> (r: Result<u128, ContractError>)
        requires
            red_line(*self, ltv) <= u128::MAX,
            red_line(*self, ltv) * DECIMAL_FRACTIONAL <= u128::MAX,
            rate.atomics != 0,
        ensures
            locked_collateral(*self, rate, ltv) <= self.collateral ==> r == Ok::<u128, ContractError>(
                (self.collateral - locked_collateral(*self, rate, ltv)) as u128,
            ),
            locked_collateral(*self, rate, ltv) > self.collateral ==> r == Err::<u128, ContractError>(
                ContractError::OverflowError(OverflowOperation::Sub),
            ),
    {
        let locked = self.red_line(ltv) * Decimal::one().atomics() / rate.atomics();
        match self.collateral.checked_sub(locked) {
            Some(v) => Ok(v),
            None => Err(ContractError::OverflowError(OverflowOperation::Sub)),
        }
    }

    /// Debt that can still be drawn: `collateral_value - red_line`; an
    /// overflow error when the position is already below its red line.
    pub fn borrowable_debt(&self, rate: Decimal, ltv: Decimal) -> (r: Result<u128, ContractError>)
        requires
            valuation_fits(*self, rate, ltv),
        ensures
            red_line(*self, ltv) <= collateral_value(*self, rate) ==> r == Ok::<u128, ContractError>(
                (collateral_value(*self, rate) - red_line(*self, ltv)) as u128,
            ),
            red_line(*self, ltv) > collateral_value(*self, rate) ==> r == Err::<u128, ContractError>(
                ContractError::OverflowError(OverflowOperation::Sub),
            ),
            r == debt_capacity(*self, rate, ltv),
    {
        match self.collateral_value(rate).checked_sub(self.red_line(ltv)) {
            Some(v) => Ok(v),
            None => Err(ContractError::OverflowError(OverflowOperation::Sub)),
        }
    }

    /// Brings the debt up to the global fee index `global`:
    /// `debt + debt * (global - stored_fee_index)`, and records `global`.
    pub fn apply_fee(self, global: Decimal) -> (r: Result<Position, StdError>)
        requires
            fee_applicable(self, global),
        ensures
            r == with_fee(self, global),
    {
        let fee = mul_uint_decimal(self.debt, global.sub(self.stored_fee_index));
        match self.debt.checked_add(fee) {
            Some(debt) => {
                let mut p = self;
                p.debt = debt;
                p.stored_fee_index = global;
                Ok(p)
            },
            None => Err(StdError::Overflow { operation: OverflowOperation::Add }),
        }
    }
}

impl Position {
    /// Whether `apply_fee(global)` runs without an arithmetic fault.
    pub fn fee_applicable(&self, global: Decimal) -> (b: bool)
        ensures
            b == fee_applicable(*self, global),
    {
        if global.atomics < self.stored_fee_index.atomics {
            return false;
        }
        checked_mul_uint_decimal(self.debt, global.sub(self.stored_fee_index)).is_some()
    }

    /// Whether the valuations at `rate` and `ltv` fit in 128 bits.
    pub fn valuation_fits(&self, rate: Decimal, ltv: Decimal) -> (b: bool)
        ensures
            b == valuation_fits(*self, rate, ltv),
    {
        checked_mul_uint_decimal(self.collateral, rate).is_some()
            && checked_mul_uint_decimal(self.debt, ltv).is_some()
    }

    /// Whether the red line at `ltv`, scaled by `10^18`, fits in 128 bits.
    pub fn scaled_red_line_fits(&self, ltv: Decimal) -> (b: bool)
        ensures
            b == (red_line(*self, ltv) * DECIMAL_FRACTIONAL <= u128::MAX),
    {
        match checked_mul_uint_decimal(self.debt, ltv) {
            Some(v) => v.checked_mul(DECIMAL_FRACTIONAL).is_some(),
            None => {
                assert(red_line(*self, ltv) * DECIMAL_FRACTIONAL > u128::MAX) by (nonlinear_arith)
                    requires
                        red_line(*self, ltv) > u128::MAX,
                ;
                false
            },
        }
    }
}

} // verus!
