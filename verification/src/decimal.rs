use vstd::prelude::*;
use vstd::arithmetic::power::pow;

verus! {

/// Number of atomics in one unit of a `Decimal` (18 fractional digits).
pub const DECIMAL_FRACTIONAL: u128 = 1_000_000_000_000_000_000u128;

/// A fixed-point decimal with 18 fractional digits, stored as its count of
/// atomics (`value = atomics / 10^18`).
#[derive(Clone, Copy, Debug, PartialEq, Eq, Structural)]
pub struct Decimal {
    pub atomics: u128,
}

/// `u * d` for an integer amount `u` and a decimal given by its atomics,
/// rounded down.
pub open spec fn mul_floor(u: int, d_atomics: int) -> int {
    u * d_atomics / (DECIMAL_FRACTIONAL as int)
}

/// The exact (unrounded) value of `base^exp` scaled so that it is comparable
/// with atomics: `base^exp / 10^(18 * (exp - 1))` holds iff
/// `pow(base, exp) <= bound * pow(10^18, exp - 1)`.
pub open spec fn exact_pow_at_most(base: int, exp: nat, bound: int) -> bool {
    if exp == 0 {
        DECIMAL_FRACTIONAL as int <= bound
    } else {
        pow(base, exp) <= bound * pow(DECIMAL_FRACTIONAL as int, (exp - 1) as nat)
    }
}

/// `r` does not exceed the exact value of `base^exp` (all as atomics):
/// `r * pow(10^18, exp - 1) <= pow(base, exp)` for `exp >= 1`.
pub open spec fn within_exact_pow(r: int, base: int, exp: nat) -> bool {
    exp >= 1 ==> r * pow(DECIMAL_FRACTIONAL as int, (exp - 1) as nat) <= pow(base, exp)
}

/// Name for what `cosmwasm_std::Decimal::checked_pow` returns on success for a
/// base given by its atomics: the atomics of the power, each step of the
/// squaring algorithm rounded down.
pub uninterp spec fn decimal_pow(base_atomics: u128, exp: u32) -> u128;

impl Decimal {
    pub open spec fn spec_one() -> Decimal {
        Decimal { atomics: DECIMAL_FRACTIONAL }
    }

    /// The decimal with the given atomics.
    pub fn raw(atomics: u128) -> (d: Decimal)
        ensures
            d.atomics == atomics,
    {
        Decimal { atomics }
    }

    /// The decimal `1`.
    pub fn one() -> (d: Decimal)
        ensures
            d == Decimal::spec_one(),
    {
        Decimal { atomics: DECIMAL_FRACTIONAL }
    }

    /// The decimal `0`.
    pub fn zero() -> (d: Decimal)
        ensures
            d.atomics == 0,
    {
        Decimal { atomics: 0 }
    }

    /// `x / 100`.
    pub fn percent(x: u64) -> (d: Decimal)
        ensures
            d.atomics == x * 10_000_000_000_000_000,
    {
        assert(x * 10_000_000_000_000_000 <= u128::MAX) by (nonlinear_arith)
            requires
                x <= u64::MAX,
        ;
        Decimal { atomics: (x as u128) * 10_000_000_000_000_000u128 }
    }

    /// The count of atomics (`value * 10^18`).
    pub fn atomics(&self) -> (a: u128)
        ensures
            a == self.atomics,
    {
        self.atomics
    }

    pub fn is_zero(&self) -> (b: bool)
        ensures
            b == (self.atomics == 0),
    {
        self.atomics == 0
    }

    /// `self + other`; the sum must fit.
    pub fn add(self, other: Decimal) -> (d: Decimal)
        requires
            self.atomics + other.atomics <= u128::MAX,
        ensures
            d.atomics == self.atomics + other.atomics,
    {
        Decimal { atomics: self.atomics + other.atomics }
    }

    /// `self - other`; `other` must not exceed `self`.
    pub fn sub(self, other: Decimal) -> (d: Decimal)
        requires
            other.atomics <= self.atomics,
        ensures
            d.atomics == self.atomics - other.atomics,
    {
        Decimal { atomics: self.atomics - other.atomics }
    }

    /// `self * other`, rounded down to 18 digits; the product must fit.
    pub fn mul(self, other: Decimal) -> (d: Decimal)
        requires
            mul_floor(self.atomics as int, other.atomics as int) <= u128::MAX,
        ensures
            d.atomics == mul_floor(self.atomics as int, other.atomics as int),
    {
        Decimal { atomics: decimal_mul_atomics(self.atomics, other.atomics) }
    }

    /// `self^exp` by `cosmwasm_std::Decimal::checked_pow`.
    ///
    /// `requires`: the exact power fits; then no step of the squaring overflows
    /// and the call returns `Ok`.
    pub fn pow(self, exp: u32) -> (d: Decimal)
        requires
            exact_pow_at_most(self.atomics as int, exp as nat, u128::MAX as int),
        ensures
            d.atomics == decimal_pow(self.atomics, exp),
            exp == 0 ==> d.atomics == DECIMAL_FRACTIONAL,
            within_exact_pow(d.atomics as int, self.atomics as int, exp as nat),
            self.atomics >= DECIMAL_FRACTIONAL ==> d.atomics >= DECIMAL_FRACTIONAL,
    {
        Decimal { atomics: decimal_checked_pow(self.atomics, exp) }
    }
}

/// `cosmwasm_std::Decimal * cosmwasm_std::Decimal` on atomics: the product of
/// the atomics divided by `10^18`, rounded down. The call panics when that
/// does not fit in 128 bits, which `requires` rules out.
#[verifier::external_body]
fn decimal_mul_atomics(a: u128, b: u128) -> (r: u128)
    requires
        mul_floor(a as int, b as int) <= u128::MAX,
    ensures
        r == mul_floor(a as int, b as int),
{
    (cosmwasm_std::Decimal::raw(a) * cosmwasm_std::Decimal::raw(b)).atomics().u128()
}

/// `cosmwasm_std::Decimal::checked_pow` on atomics.
///
/// Claims: the result is named `decimal_pow`; a zero exponent gives one; every
/// squaring step rounds down, so the result never exceeds the exact power and
/// a base of at least one gives at least one; when the exact power fits, no
/// step overflows (neither the checked steps, which would give `Err`, nor the
/// final unchecked product, which would panic), so the call returns `Ok`.
#[verifier::external_body]
fn decimal_checked_pow(base: u128, exp: u32) -> (r: u128)
    requires
        exact_pow_at_most(base as int, exp as nat, u128::MAX as int),
    ensures
        r == decimal_pow(base, exp),
        exp == 0 ==> r == DECIMAL_FRACTIONAL,
        within_exact_pow(r as int, base as int, exp as nat),
        base >= DECIMAL_FRACTIONAL ==> r >= DECIMAL_FRACTIONAL,
{
    cosmwasm_std::Decimal::raw(base).checked_pow(exp).unwrap().atomics().u128()
}

/// `Uint128 * Decimal` from `cosmwasm_std`: `u * d / 10^18` rounded down (zero
/// when either is zero). The call panics when the result does not fit, which
/// `requires` rules out.
#[verifier::external_body]
pub(crate) fn mul_uint_decimal(u: u128, d: Decimal) -> (r: u128)
    requires
        mul_floor(u as int, d.atomics as int) <= u128::MAX,
    ensures
        r == mul_floor(u as int, d.atomics as int),
{
    (cosmwasm_std::Uint128::new(u) * cosmwasm_std::Decimal::raw(d.atomics)).u128()
}

/// `Uint128::checked_mul_floor(Decimal)` from `cosmwasm_std`: the same
/// product as `mul_uint_decimal` (`u * d.atomics / 10^18`, rounded down), or
/// `None` when it does not fit.
#[verifier::external_body]
pub(crate) fn checked_mul_uint_decimal(u: u128, d: Decimal) -> (r: Option<u128>)
    ensures
        r is Some <==> mul_floor(u as int, d.atomics as int) <= u128::MAX,
        r matches Some(v) ==> v == mul_floor(u as int, d.atomics as int),
{
    cosmwasm_std::Uint128::new(u).checked_mul_floor(cosmwasm_std::Decimal::raw(d.atomics)).ok().map(|v| v.u128())
}

} // verus!
