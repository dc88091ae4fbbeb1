use vstd::prelude::*;
use vstd::arithmetic::power::pow;
use vstd::arithmetic::power::lemma_pow_positive;

use crate::decimal::{Decimal, DECIMAL_FRACTIONAL, mul_floor, exact_pow_at_most, decimal_pow, checked_mul_uint_decimal};
use crate::error::StdError;

verus! {

/// The market's settings.
pub struct Config {
    pub name: String,
    pub core: String,
    pub oracle: String,
    pub liquidator: String,
    pub debt_asset: String,
    pub collateral_asset: String,
    pub borrow_ltv: Decimal,
    /// Fee rate, compounded every second.
    pub fee_multiplier: Decimal,
}

/// The market's running totals and fee index.
pub struct State {
    pub total_debt: u128,
    pub total_collateral: u128,
    /// Time (seconds) of the last fee index update.
    pub fee_updated_at: u64,
    /// Compounded fee index: debt recorded at index `i` is worth
    /// `debt * (1 + (g - i))` at index `g`.
    pub global_fee_index: Decimal,
}

/// Seconds elapsed since the last update, as the `u32` that the fee
/// computation uses (the difference taken modulo `2^32`).
pub open spec fn elapsed_seconds(now: u64, updated_at: u64) -> u32 {
    ((now - updated_at) as u64) as u32
}

/// Index `g` compounded by a power `p` of `1 + multiplier`:
/// `g + g * (p - 1)`, the product rounded down.
pub open spec fn compounded_index(g: int, p: int) -> int {
    g + mul_floor(g, p - DECIMAL_FRACTIONAL as int)
}

/// When `update_fee` can run without an arithmetic fault: time does not run
/// backwards, `1 + multiplier` fits, and the exact compounded index fits.
pub open spec fn update_fee_in_range(state: State, now: u64, multiplier: Decimal) -> bool {
    let e = elapsed_seconds(now, state.fee_updated_at);
    let base = DECIMAL_FRACTIONAL + multiplier.atomics;
    &&& state.fee_updated_at <= now
    &&& e != 0 ==> {
        &&& base <= u128::MAX
        &&& exact_pow_at_most(base, e as nat, u128::MAX as int)
        &&& state.global_fee_index.atomics * pow(base, e as nat)
            <= u128::MAX * pow(DECIMAL_FRACTIONAL as int, e as nat)
    }
}

/// The state after `update_fee`.
pub open spec fn updated_state(state: State, now: u64, multiplier: Decimal) -> State {
    let e = elapsed_seconds(now, state.fee_updated_at);
    if e == 0 {
        state
    } else {
        let p = decimal_pow((DECIMAL_FRACTIONAL + multiplier.atomics) as u128, e);
        State {
            global_fee_index: Decimal {
                atomics: compounded_index(state.global_fee_index.atomics as int, p as int) as u128,
            },
            fee_updated_at: now,
            ..state
        }
    }
}

proof fn lemma_compounded_fits(g: int, p: int, base: int, e: nat)
    requires
        e >= 1,
        0 <= g,
        DECIMAL_FRACTIONAL <= p,
        p * pow(DECIMAL_FRACTIONAL as int, (e - 1) as nat) <= pow(base, e),
        g * pow(base, e) <= u128::MAX * pow(DECIMAL_FRACTIONAL as int, e),
    ensures
        0 <= mul_floor(g, p - DECIMAL_FRACTIONAL as int),
        compounded_index(g, p) <= u128::MAX,
{
    let f = DECIMAL_FRACTIONAL as int;
    let q = pow(f, (e - 1) as nat);
    lemma_pow_positive(f, (e - 1) as nat);
    vstd::arithmetic::power::lemma_pow_adds(f, (e - 1) as nat, 1);
    vstd::arithmetic::power::lemma_pow1(f);
    assert(pow(f, e) == q * f);
    assert(g * p * q <= g * pow(base, e)) by (nonlinear_arith)
        requires
            p * q <= pow(base, e),
            0 <= g,
    ;
    assert(g * p <= u128::MAX * f) by (nonlinear_arith)
        requires
            g * p * q <= u128::MAX * (q * f),
            q > 0,
    ;
    assert(g * (p - f) >= 0) by (nonlinear_arith)
        requires
            g >= 0,
            p >= f,
    ;
    assert(g * p == g * (p - f) + g * f) by (nonlinear_arith);
    vstd::arithmetic::div_mod::lemma_hoist_over_denominator(g * (p - f), g, f as nat);
    assert(g + g * (p - f) / f == g * p / f);
    assert(g * p / f <= u128::MAX) by (nonlinear_arith)
        requires
            g * p <= u128::MAX * f,
            f > 0,
    ;
}

/// `u` bounds the exact power `base^k` from above, all as atomics:
/// `base^k * 10^18 <= u * (10^18)^k`.
pub open spec fn pow_bound(u: int, base: int, k: nat) -> bool {
    pow(base, k) * DECIMAL_FRACTIONAL <= u * pow(DECIMAL_FRACTIONAL as int, k)
}

proof fn lemma_pow_bound_mul(u1: int, u2: int, w: int, base: int, k1: nat, k2: nat)
    requires
        0 <= u1,
        0 <= u2,
        0 < base,
        pow_bound(u1, base, k1),
        pow_bound(u2, base, k2),
        u1 * u2 <= w * DECIMAL_FRACTIONAL,
    ensures
        pow_bound(w, base, k1 + k2),
{
    let f = DECIMAL_FRACTIONAL as int;
    vstd::arithmetic::power::lemma_pow_adds(base, k1, k2);
    vstd::arithmetic::power::lemma_pow_adds(f, k1, k2);
    lemma_pow_positive(base, k1);
    lemma_pow_positive(base, k2);
    lemma_pow_positive(f, k1);
    lemma_pow_positive(f, k2);
    let x = pow(base, k1);
    let y = pow(base, k2);
    let p = pow(f, k1);
    let q = pow(f, k2);
    assert(x * f * (y * f) <= u1 * p * (u2 * q)) by (nonlinear_arith)
        requires
            0 <= x * f <= u1 * p,
            0 <= y * f <= u2 * q,
    ;
    assert(u1 * p * (u2 * q) == (u1 * u2) * (p * q)) by (nonlinear_arith);
    assert((u1 * u2) * (p * q) <= w * f * (p * q)) by (nonlinear_arith)
        requires
            u1 * u2 <= w * f,
            p > 0,
            q > 0,
    ;
    assert(x * y * f <= w * (p * q)) by (nonlinear_arith)
        requires
            x * f * (y * f) <= w * f * (p * q),
            f > 0,
    ;
}

/// The floor of `x * y / 10^18` plus one, or `None` when that does not fit
/// in 128 bits.
pub open spec fn mul_up_value(x: u128, y: u128) -> Option<u128> {
    if mul_floor(x as int, y as int) < u128::MAX {
        Some((mul_floor(x as int, y as int) + 1) as u128)
    } else {
        None
    }
}

/// What the squaring loop of `pow_upper_bound` gives from the running
/// `result` and `square` with `e` exponent bits left: each set bit multiplies
/// the result by the square, each further bit squares the square, both with
/// `mul_up_value`; `None` as soon as a product does not fit.
pub open spec fn pow_up(result: u128, square: u128, e: nat) -> Option<u128>
    decreases e,
{
    if e == 0 {
        Some(result)
    } else {
        let r1 = if e % 2 == 1 { mul_up_value(result, square) } else { Some(result) };
        match r1 {
            None => None,
            Some(r) => if e / 2 > 0 {
                match mul_up_value(square, square) {
                    None => None,
                    Some(sq) => pow_up(r, sq, e / 2),
                }
            } else {
                pow_up(r, square, e / 2)
            },
        }
    }
}

/// `x * y / 10^18` rounded up or more (the floor plus one), or `None` when
/// that does not fit.
fn mul_up(x: u128, y: u128) -> (r: Option<u128>)
    ensures
        r == mul_up_value(x, y),
        r matches Some(w) ==> x * y <= w * DECIMAL_FRACTIONAL,
{
    match checked_mul_uint_decimal(x, Decimal::raw(y)) {
        None => None,
        Some(v) => {
            if v == u128::MAX {
                return None;
            }
            proof {
                let f = DECIMAL_FRACTIONAL as int;
                vstd::arithmetic::div_mod::lemma_fundamental_div_mod(x * y, f);
                assert(x * y < (v + 1) * f) by (nonlinear_arith)
                    requires
                        v == (x * y) / f,
                        x * y == f * ((x * y) / f) + (x * y) % f,
                        (x * y) % f < f,
                ;
            }
            Some(v + 1)
        },
    }
}

/// An upper bound on the exact power `base^exp` as atomics (`base` given by
/// its atomics), computed by squaring with every product rounded up; `None`
/// when a step would not fit.
fn pow_upper_bound(base: u128, exp: u32) -> (r: Option<u128>)
    requires
        base > 0,
    ensures
        r == pow_up(DECIMAL_FRACTIONAL, base, exp as nat),
        r matches Some(u) ==> pow_bound(u as int, base as int, exp as nat),
{
    let mut result: u128 = DECIMAL_FRACTIONAL;
    let mut square: u128 = base;
    let mut e: u32 = exp;
    let ghost mut a: nat = 0;
    let ghost mut b: nat = 1;
    proof {
        vstd::arithmetic::power::lemma_pow0(base as int);
        vstd::arithmetic::power::lemma_pow0(DECIMAL_FRACTIONAL as int);
        vstd::arithmetic::power::lemma_pow1(base as int);
        vstd::arithmetic::power::lemma_pow1(DECIMAL_FRACTIONAL as int);
        assert(exp == a + b * e);
    }
    while e > 0
        invariant
            base > 0,
            exp == a + b * e,
            pow_bound(result as int, base as int, a),
            pow_bound(square as int, base as int, b),
            pow_up(result, square, e as nat) == pow_up(DECIMAL_FRACTIONAL, base, exp as nat),
        decreases e,
    {
        let ghost a0 = a;
        let ghost b0 = b;
        let ghost e0 = e;
        if e % 2 == 1 {
            match mul_up(result, square) {
                None => return None,
                Some(w) => {
                    proof {
                        lemma_pow_bound_mul(result as int, square as int, w as int, base as int, a, b);
                        a = a + b;
                    }
                    result = w;
                },
            }
        }
        let half: u32 = e / 2;
        if half > 0 {
            match mul_up(square, square) {
                None => return None,
                Some(w) => {
                    proof {
                        lemma_pow_bound_mul(square as int, square as int, w as int, base as int, b, b);
                        b = b + b;
                    }
                    square = w;
                },
            }
        }
        proof {
            assert(e0 == 2 * half + e0 % 2);
            if e0 % 2 == 1 {
                if half > 0 {
                    assert(exp == a + b * half) by (nonlinear_arith)
                        requires
                            e0 == 2 * half + 1,
                            exp == a0 + b0 * e0,
                            a == a0 + b0,
                            b == b0 + b0,
                    ;
                } else {
                    assert(exp == a + b * half) by (nonlinear_arith)
                        requires
                            e0 == 1,
                            half == 0,
                            exp == a0 + b0 * e0,
                            a == a0 + b0,
                    ;
                }
            } else {
                assert(half > 0);
                assert(exp == a + b * half) by (nonlinear_arith)
                    requires
                        e0 == 2 * half,
                        exp == a0 + b0 * e0,
                        a == a0,
                        b == b0 + b0,
                ;
            }
        }
        e = half;
    }
    Some(result)
}

/// `v` is at most the exact power `big^k` as atomics:
/// `v * (10^18)^k <= big^k * 10^18`.
pub open spec fn within_pow(v: int, big: int, k: nat) -> bool {
    v * pow(DECIMAL_FRACTIONAL as int, k) <= pow(big, k) * DECIMAL_FRACTIONAL
}

proof fn lemma_pow_base_le(x: int, y: int, n: nat)
    requires
        0 < x <= y,
    ensures
        pow(x, n) <= pow(y, n),
    decreases n,
{
    vstd::arithmetic::power::lemma_pow0(x);
    vstd::arithmetic::power::lemma_pow0(y);
    if n > 0 {
        lemma_pow_base_le(x, y, (n - 1) as nat);
        vstd::arithmetic::power::lemma_pow_adds(x, (n - 1) as nat, 1);
        vstd::arithmetic::power::lemma_pow_adds(y, (n - 1) as nat, 1);
        vstd::arithmetic::power::lemma_pow1(x);
        vstd::arithmetic::power::lemma_pow1(y);
        lemma_pow_positive(x, (n - 1) as nat);
        let px = pow(x, (n - 1) as nat);
        let py = pow(y, (n - 1) as nat);
        assert(px * x <= py * y) by (nonlinear_arith)
            requires
                0 < px <= py,
                0 < x <= y,
        ;
    }
}

/// A value within the exact power `big^k`, for `k` up to `exp`, fits when the
/// exact power `big^exp` does.
proof fn lemma_within_fits(v: int, big: int, k: nat, exp: nat)
    requires
        within_pow(v, big, k),
        k <= exp,
        DECIMAL_FRACTIONAL <= big,
        pow(big, exp) * DECIMAL_FRACTIONAL <= u128::MAX * pow(DECIMAL_FRACTIONAL as int, exp),
    ensures
        v <= u128::MAX,
{
    let f = DECIMAL_FRACTIONAL as int;
    let d = (exp - k) as nat;
    vstd::arithmetic::power::lemma_pow_adds(big, k, d);
    vstd::arithmetic::power::lemma_pow_adds(f, k, d);
    lemma_pow_base_le(f, big, d);
    lemma_pow_positive(f, k);
    lemma_pow_positive(f, d);
    lemma_pow_positive(big, k);
    let bk = pow(big, k);
    let fk = pow(f, k);
    let bd = pow(big, d);
    let fd = pow(f, d);
    assert(v * (fk * fd) <= bk * bd * f) by (nonlinear_arith)
        requires
            v * fk <= bk * f,
            0 < fd <= bd,
            bk > 0,
            f > 0,
    ;
    assert(v <= u128::MAX) by (nonlinear_arith)
        requires
            v * (fk * fd) <= bk * bd * f,
            bk * bd * f <= u128::MAX * (fk * fd),
            fk > 0,
            fd > 0,
    ;
}

/// The rounded-up product of `r` and `s` stays within the power of `big`
/// that their own bounds (one and two atomics below it) give.
proof fn lemma_mul_up_within(r: int, s: int, big: int, a: nat, b: nat)
    requires
        r >= DECIMAL_FRACTIONAL,
        s >= DECIMAL_FRACTIONAL,
        big > 0,
        within_pow(r + 1, big, a),
        within_pow(s + 2, big, b),
    ensures
        within_pow(mul_floor(r, s) + 2, big, a + b),
        mul_floor(r, s) >= DECIMAL_FRACTIONAL,
{
    let f = DECIMAL_FRACTIONAL as int;
    vstd::arithmetic::power::lemma_pow_adds(big, a, b);
    vstd::arithmetic::power::lemma_pow_adds(f, a, b);
    lemma_pow_positive(f, a);
    lemma_pow_positive(f, b);
    let q = mul_floor(r, s);
    vstd::arithmetic::div_mod::lemma_fundamental_div_mod(r * s, f);
    assert(f * q <= r * s);
    assert((r + 1) * (s + 2) == r * s + 2 * r + s + 2) by (nonlinear_arith);
    assert(f * (q + 2) == f * q + 2 * f) by (nonlinear_arith);
    assert(f * (q + 2) <= (r + 1) * (s + 2));
    assert(q >= f) by (nonlinear_arith)
        requires
            q == (r * s) / f,
            r * s == f * ((r * s) / f) + (r * s) % f,
            (r * s) % f < f,
            r >= f,
            s >= f,
            f > 0,
    ;
    let fa = pow(f, a);
    let fb = pow(f, b);
    let ba = pow(big, a);
    let bb = pow(big, b);
    assert((q + 2) * (fa * fb) <= (ba * bb) * f) by (nonlinear_arith)
        requires
            f * (q + 2) <= (r + 1) * (s + 2),
            (r + 1) * fa <= ba * f,
            (s + 2) * fb <= bb * f,
            fa > 0,
            fb > 0,
            r >= 0,
            s >= 0,
            f > 0,
    ;
}

/// Squaring rounded up stays within the power of `big` that the square's
/// bound (two atomics below it) gives.
proof fn lemma_square_up_within(s: int, big: int, b: nat)
    requires
        s >= DECIMAL_FRACTIONAL,
        big > 0,
        within_pow(s + 2, big, b),
    ensures
        within_pow(mul_floor(s, s) + 3, big, b + b),
        mul_floor(s, s) >= DECIMAL_FRACTIONAL,
{
    let f = DECIMAL_FRACTIONAL as int;
    vstd::arithmetic::power::lemma_pow_adds(big, b, b);
    vstd::arithmetic::power::lemma_pow_adds(f, b, b);
    lemma_pow_positive(f, b);
    let q = mul_floor(s, s);
    vstd::arithmetic::div_mod::lemma_fundamental_div_mod(s * s, f);
    assert(f * q <= s * s);
    assert((s + 2) * (s + 2) == s * s + 4 * s + 4) by (nonlinear_arith);
    assert(f * (q + 3) == f * q + 3 * f) by (nonlinear_arith);
    assert(f * (q + 3) <= (s + 2) * (s + 2));
    assert(q >= f) by (nonlinear_arith)
        requires
            q == (s * s) / f,
            s * s == f * ((s * s) / f) + (s * s) % f,
            (s * s) % f < f,
            s >= f,
            f > 0,
    ;
    let fb = pow(f, b);
    let bb = pow(big, b);
    assert((q + 3) * (fb * fb) <= (bb * bb) * f) by (nonlinear_arith)
        requires
            f * (q + 3) <= (s + 2) * (s + 2),
            (s + 2) * fb <= bb * f,
            fb > 0,
            s >= 0,
            f > 0,
    ;
}

/// The squaring loop succeeds, and its result stays one atomic below the
/// exact power of `big`, as long as the exact power `big^exp` fits: the state
/// `(result, square)` after the bits that gave exponents `a` and `b` is kept
/// within the powers of `big` (`result` one and `square` two atomics below).
proof fn lemma_pow_up_some(result: u128, square: u128, e: nat, a: nat, b: nat, big: int, exp: nat)
    requires
        exp == a + b * e,
        b >= 1,
        result >= DECIMAL_FRACTIONAL,
        square >= DECIMAL_FRACTIONAL,
        big >= DECIMAL_FRACTIONAL,
        a == 0 ==> result == DECIMAL_FRACTIONAL,
        a > 0 ==> within_pow(result + 1, big, a),
        within_pow(square + 2, big, b),
        pow(big, exp) * DECIMAL_FRACTIONAL <= u128::MAX * pow(DECIMAL_FRACTIONAL as int, exp),
    ensures
        pow_up(result, square, e) is Some,
        exp > 0 ==> within_pow(pow_up(result, square, e)->0 + 1, big, exp),
    decreases e,
{
    let f = DECIMAL_FRACTIONAL as int;
    if e == 0 {
        return;
    }
    let half = e / 2;
    assert(e == 2 * half + e % 2);
    assert(b <= exp) by (nonlinear_arith)
        requires
            exp == a + b * e,
            e >= 1,
            b >= 1,
    ;
    // the multiply for an odd bit
    let r1: u128;
    let a1: nat;
    if e % 2 == 1 {
        if a == 0 {
            vstd::arithmetic::div_mod::lemma_div_multiples_vanish(square as int, f);
            assert(mul_floor(f, square as int) == square);
            lemma_within_fits(square + 2, big, b, exp);
            r1 = (square + 1) as u128;
            a1 = b;
            assert(mul_up_value(result, square) == Some(r1));
        } else {
            assert(a + b <= exp) by (nonlinear_arith)
                requires
                    exp == a + b * e,
                    e >= 1,
            ;
            lemma_mul_up_within(result as int, square as int, big, a, b);
            lemma_within_fits(mul_floor(result as int, square as int) + 2, big, a + b, exp);
            r1 = (mul_floor(result as int, square as int) + 1) as u128;
            a1 = a + b;
            assert(mul_up_value(result, square) == Some(r1));
        }
    } else {
        r1 = result;
        a1 = a;
    }
    if half > 0 {
        assert(b + b <= exp) by (nonlinear_arith)
            requires
                exp == a + b * e,
                e >= 2,
        ;
        lemma_square_up_within(square as int, big, b);
        lemma_within_fits(mul_floor(square as int, square as int) + 3, big, b + b, exp);
        let s1 = (mul_floor(square as int, square as int) + 1) as u128;
        assert(mul_up_value(square, square) == Some(s1));
        assert(exp == a1 + (b + b) * half) by (nonlinear_arith)
            requires
                exp == a + b * e,
                e == 2 * half + e % 2,
                e % 2 == 1 ==> a1 == a + b,
                e % 2 == 0 ==> a1 == a,
        ;
        lemma_pow_up_some(r1, s1, half, a1, b + b, big, exp);
    } else {
        assert(e == 1);
        assert(exp == a1 + b * half) by (nonlinear_arith)
            requires
                exp == a + b * e,
                e == 1,
                half == 0,
                a1 == a + b,
        ;
        lemma_pow_up_some(r1, square, half, a1, b, big, exp);
    }
}

/// When the exact power of a base two atomics larger than `base` fits, the
/// squaring loop from `base` succeeds and stays one atomic below that power.
proof fn lemma_pow_up_complete(base: u128, exp: nat)
    requires
        DECIMAL_FRACTIONAL <= base,
        exp >= 1,
        exact_pow_at_most(base + 2, exp, u128::MAX as int),
    ensures
        pow_up(DECIMAL_FRACTIONAL, base, exp) is Some,
        within_pow(pow_up(DECIMAL_FRACTIONAL, base, exp)->0 + 1, base + 2, exp),
{
    let f = DECIMAL_FRACTIONAL as int;
    let big = base + 2;
    vstd::arithmetic::power::lemma_pow_adds(f, (exp - 1) as nat, 1);
    vstd::arithmetic::power::lemma_pow1(f);
    vstd::arithmetic::power::lemma_pow1(big);
    let q = pow(f, (exp - 1) as nat);
    assert(pow(big, exp) * f <= u128::MAX * pow(f, exp)) by (nonlinear_arith)
        requires
            pow(big, exp) <= u128::MAX * q,
            pow(f, exp) == q * f,
            f > 0,
    ;
    assert(exp == 0 + 1 * exp);
    lemma_pow_up_some(DECIMAL_FRACTIONAL, base, exp, 0, 1, big, exp);
}

/// Whether the exact power `base^exp` (all as atomics) surely fits in 128
/// bits: `true` only when it does. The power is bounded from above with every
/// step rounded up, so close to the limit the answer may be `false` where the
/// power still fits; but for a base of at least one it is `true` whenever the
/// exact power of a base two atomics larger fits. A zero base or a zero
/// exponent always gives `true`.
pub fn pow_fits(base: u128, exp: u32) -> (b: bool)
    ensures
        b ==> exact_pow_at_most(base as int, exp as nat, u128::MAX as int),
        base == 0 || exp == 0 ==> b,
        DECIMAL_FRACTIONAL <= base && exact_pow_at_most(base + 2, exp as nat, u128::MAX as int) ==> b,
{
    if exp == 0 {
        return true;
    }
    if base == 0 {
        proof {
            vstd::arithmetic::power::lemma0_pow(exp as nat);
            lemma_pow_positive(DECIMAL_FRACTIONAL as int, (exp - 1) as nat);
        }
        return true;
    }
    proof {
        if DECIMAL_FRACTIONAL <= base && exact_pow_at_most(base + 2, exp as nat, u128::MAX as int) {
            lemma_pow_up_complete(base, exp as nat);
        }
    }
    match pow_upper_bound(base, exp) {
        None => false,
        Some(u) => {
            proof {
                let f = DECIMAL_FRACTIONAL as int;
                let e = exp as nat;
                let x = pow(base as int, e);
                vstd::arithmetic::power::lemma_pow_adds(f, (e - 1) as nat, 1);
                vstd::arithmetic::power::lemma_pow1(f);
                lemma_pow_positive(f, (e - 1) as nat);
                let q = pow(f, (e - 1) as nat);
                assert(pow(f, e) == q * f);
                assert(x <= u128::MAX * q) by (nonlinear_arith)
                    requires
                        x * f <= u * (q * f),
                        u <= u128::MAX,
                        f > 0,
                        q > 0,
                ;
            }
            true
        },
    }
}

/// A margin under which `fee_update_fits` answers `true`: time does not run
/// backwards and, when time elapsed, the exact compounding with a base two
/// atomics above `1 + multiplier` fits, for the power and for the index.
pub open spec fn fee_update_within_margin(state: State, now: u64, multiplier: Decimal) -> bool {
    let e = elapsed_seconds(now, state.fee_updated_at);
    let big = DECIMAL_FRACTIONAL + multiplier.atomics + 2;
    &&& state.fee_updated_at <= now
    &&& e != 0 ==> {
        &&& exact_pow_at_most(big, e as nat, u128::MAX as int)
        &&& state.global_fee_index.atomics * pow(big, e as nat)
            <= u128::MAX * pow(DECIMAL_FRACTIONAL as int, e as nat)
    }
}

/// Whether `update_fee` surely runs without an arithmetic fault: `true` only
/// when `update_fee_in_range` holds. The power is bounded from above with
/// every step rounded up, so close to the 128-bit limit the answer may be
/// `false` where the exact condition still holds; it is `true` within the
/// margin `fee_update_within_margin` (the exact condition for a base two
/// atomics larger). With no time elapsed it is `true`; with time running
/// backwards, `false`.
pub fn fee_update_fits(state: &State, now: u64, multiplier: Decimal) -> (b: bool)
    ensures
        b ==> update_fee_in_range(*state, now, multiplier),
        state.fee_updated_at <= now && elapsed_seconds(now, state.fee_updated_at) == 0 ==> b,
        fee_update_within_margin(*state, now, multiplier) ==> b,
        now < state.fee_updated_at ==> !b,
{
    if now < state.fee_updated_at {
        return false;
    }
    let diff: u64 = now - state.fee_updated_at;
    let elapsed: u32 = diff as u32;
    if elapsed == 0 {
        return true;
    }
    let ghost margin = fee_update_within_margin(*state, now, multiplier);
    proof {
        if margin {
            let f = DECIMAL_FRACTIONAL as int;
            let big = DECIMAL_FRACTIONAL + multiplier.atomics + 2;
            let e = elapsed as nat;
            lemma_pow_base_le(f, big, (e - 1) as nat);
            lemma_pow_positive(f, (e - 1) as nat);
            vstd::arithmetic::power::lemma_pow_adds(big, (e - 1) as nat, 1);
            vstd::arithmetic::power::lemma_pow1(big);
            let q = pow(f, (e - 1) as nat);
            let pb = pow(big, (e - 1) as nat);
            assert(big <= u128::MAX) by (nonlinear_arith)
                requires
                    pb * big <= u128::MAX * q,
                    0 < q <= pb,
                    big > 0,
            ;
        }
    }
    if multiplier.atomics > u128::MAX - DECIMAL_FRACTIONAL {
        return false;
    }
    let base: u128 = DECIMAL_FRACTIONAL + multiplier.atomics;
    proof {
        if margin {
            lemma_pow_up_complete(base, elapsed as nat);
        }
    }
    let u = match pow_upper_bound(base, elapsed) {
        None => return false,
        Some(u) => u,
    };
    let g = state.global_fee_index.atomics;
    proof {
        if margin {
            let f = DECIMAL_FRACTIONAL as int;
            let big = base + 2;
            let e = elapsed as nat;
            let pf = pow(f, e);
            let pb = pow(big, e);
            lemma_pow_positive(f, e);
            assert(g * (u + 1) <= u128::MAX * f) by (nonlinear_arith)
                requires
                    (u + 1) * pf <= pb * f,
                    g * pb <= u128::MAX * pf,
                    pf > 0,
                    g >= 0,
                    f > 0,
            ;
            vstd::arithmetic::div_mod::lemma_fundamental_div_mod(g * u, f);
            if g == 0 {
                assert(g * u == 0) by (nonlinear_arith)
                    requires
                        g == 0,
                ;
            } else {
                assert(g * u <= u128::MAX * f - 1) by (nonlinear_arith)
                    requires
                        g * (u + 1) <= u128::MAX * f,
                        g >= 1,
                ;
            }
            assert((g * u) / f < u128::MAX) by (nonlinear_arith)
                requires
                    g * u <= u128::MAX * f - 1,
                    g * u == f * ((g * u) / f) + (g * u) % f,
                    (g * u) % f >= 0,
                    f > 0,
            ;
        }
    }
    let v = match checked_mul_uint_decimal(g, Decimal::raw(u)) {
        None => return false,
        Some(v) => v,
    };
    if v == u128::MAX {
        return false;
    }
    proof {
        let f = DECIMAL_FRACTIONAL as int;
        let e = elapsed as nat;
        let x = pow(base as int, e);
        vstd::arithmetic::power::lemma_pow_adds(f, (e - 1) as nat, 1);
        vstd::arithmetic::power::lemma_pow1(f);
        lemma_pow_positive(f, (e - 1) as nat);
        let q = pow(f, (e - 1) as nat);
        assert(pow(f, e) == q * f);
        assert(x <= u128::MAX * q) by (nonlinear_arith)
            requires
                x * f <= u * (q * f),
                u <= u128::MAX,
                f > 0,
                q > 0,
        ;
        vstd::arithmetic::div_mod::lemma_fundamental_div_mod(g * u, f);
        assert(g * u < u128::MAX * f) by (nonlinear_arith)
            requires
                v == (g * u) / f,
                g * u == f * ((g * u) / f) + (g * u) % f,
                (g * u) % f < f,
                v < u128::MAX,
        ;
        assert(g * x <= u128::MAX * pow(f, e)) by (nonlinear_arith)
            requires
                x * f <= u * (q * f),
                g * u < u128::MAX * f,
                pow(f, e) == q * f,
                g >= 0,
                q > 0,
                f > 0,
        ;
    }
    true
}

impl State {
    /// A copy of the state.
    pub fn clone_state(&self) -> (s: State)
        ensures
            s == *self,
    {
        State {
            total_debt: self.total_debt,
            total_collateral: self.total_collateral,
            fee_updated_at: self.fee_updated_at,
            global_fee_index: self.global_fee_index,
        }
    }

    /// Compounds the global fee index up to `now` with the per-second
    /// `multiplier`: over `e` elapsed seconds the index `g` becomes
    /// `g + g * ((1 + multiplier)^e - 1)`. Nothing changes when no time
    /// elapsed (counted modulo `2^32`).
    pub fn update_fee(self, now: u64, multiplier: Decimal) -> (r: Result<State, StdError>)
        requires
            update_fee_in_range(self, now, multiplier),
        ensures
            r == Ok::<State, StdError>(updated_state(self, now, multiplier)),
            updated_state(self, now, multiplier).global_fee_index.atomics >= self.global_fee_index.atomics,
            updated_state(self, now, multiplier).fee_updated_at >= self.fee_updated_at,
    {
        let diff: u64 = now - self.fee_updated_at;
        let elapsed: u32 = diff as u32;
        if elapsed == 0 {
            return Ok(self);
        }
        let base = Decimal::one().add(multiplier);
        let p = base.pow(elapsed);
        let g = self.global_fee_index;
        proof {
            lemma_compounded_fits(g.atomics as int, p.atomics as int, base.atomics as int, elapsed as nat);
        }
        let growth = g.mul(p.sub(Decimal::one()));
        let mut state = self;
        state.global_fee_index = g.add(growth);
        state.fee_updated_at = now;
        Ok(state)
    }
}

} // verus!
