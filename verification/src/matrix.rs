//! 3x3 matrices: exact rational entries for the tabulated constants, and a
//! fixed-point form (scaled by `SCALE`) in which transforms are composed.
//!
//! Exact rational composition of adaptation transforms does not fit machine
//! integers (the reduced denominators grow beyond an `i128`), so composition
//! works on values scaled by `10^18`, with Euclidean division; every
//! operation's contract states its result exactly.

use vstd::prelude::*;
use crate::rational::Q;

verus! {

/// Fixed-point unit: stored value `n` stands for `n / SCALE`.
pub const SCALE: i128 = 1_000_000_000_000_000_000;

/// A 3x3 matrix of exact rationals (row-major entry names).
#[derive(Clone, Copy, PartialEq, Eq, Structural, Debug)]
pub struct Mat3 {
    pub e00: Q,
    pub e01: Q,
    pub e02: Q,
    pub e10: Q,
    pub e11: Q,
    pub e12: Q,
    pub e20: Q,
    pub e21: Q,
    pub e22: Q,
}

impl Mat3 {
    /// All nine entries are well-formed rationals.
    pub open spec fn wf(self) -> bool {
        self.e00.wf() && self.e01.wf() && self.e02.wf() && self.e10.wf() && self.e11.wf()
            && self.e12.wf() && self.e20.wf() && self.e21.wf() && self.e22.wf()
    }
}

/// A 3x3 matrix in fixed-point form.
#[derive(Clone, Copy, PartialEq, Eq, Structural, Debug)]
pub struct FxMat {
    pub e00: i128,
    pub e01: i128,
    pub e02: i128,
    pub e10: i128,
    pub e11: i128,
    pub e12: i128,
    pub e20: i128,
    pub e21: i128,
    pub e22: i128,
}

/// A 3-vector in fixed-point form.
#[derive(Clone, Copy, PartialEq, Eq, Structural, Debug)]
pub struct FxVec {
    pub x: i128,
    pub y: i128,
    pub z: i128,
}

/// The value lies in the range of an `i128`.
pub open spec fn in_i128(x: int) -> bool {
    i128::MIN <= x <= i128::MAX
}

/// Mirror of `fx_mul`: the scaled product, `None` on overflow.
pub open spec fn fx_mul_spec(a: int, b: int) -> Option<int> {
    if !in_i128(a * b) {
        None
    } else if !in_i128(a * b / (SCALE as int)) {
        None
    } else {
        Some(a * b / (SCALE as int))
    }
}

/// Mirror of `fx_div`: the scaled quotient, `None` on a zero divisor or
/// overflow.
pub open spec fn fx_div_spec(a: int, b: int) -> Option<int> {
    if !in_i128(a * (SCALE as int)) {
        None
    } else if b == 0 {
        None
    } else if !in_i128(a * (SCALE as int) / b) {
        None
    } else {
        Some(a * (SCALE as int) / b)
    }
}

/// Mirror of `to_fixed`: the nearest-below fixed-point form of an exact
/// rational, `None` on overflow.
pub open spec fn to_fixed_spec(q: Q) -> Option<int> {
    if !in_i128(q.num() * (SCALE as int)) {
        None
    } else if !in_i128(q.num() * (SCALE as int) / q.den()) {
        None
    } else {
        Some(q.num() * (SCALE as int) / q.den())
    }
}

/// Mirror of `fx_dot`: the scaled dot product of two 3-vectors.
pub open spec fn fx_dot_spec(a0: int, a1: int, a2: int, b0: int, b1: int, b2: int) -> Option<int> {
    match (fx_mul_spec(a0, b0), fx_mul_spec(a1, b1), fx_mul_spec(a2, b2)) {
        (Some(p0), Some(p1), Some(p2)) => if !in_i128(p0 + p1) {
            None
        } else if !in_i128(p0 + p1 + p2) {
            None
        } else {
            Some(p0 + p1 + p2)
        },
        _ => None,
    }
}

/// Mirror of `cof2`: `a*b - c*d` in fixed point.
pub open spec fn cof2_spec(a: int, b: int, c: int, d: int) -> Option<int> {
    match (fx_mul_spec(a, b), fx_mul_spec(c, d)) {
        (Some(p), Some(q)) => if !in_i128(p - q) {
            None
        } else {
            Some(p - q)
        },
        _ => None,
    }
}

/// Scaled product of two fixed-point values.
pub fn fx_mul(a: i128, b: i128) -> (r: Option<i128>)
    ensures
        r.is_some() <==> fx_mul_spec(a as int, b as int).is_some(),
        r matches Some(v) ==> Some(v as int) == fx_mul_spec(a as int, b as int),
{
    match a.checked_mul(b) {
        None => None,
        Some(p) => p.checked_div_euclid(SCALE),
    }
}

/// Scaled quotient of two fixed-point values.
pub fn fx_div(a: i128, b: i128) -> (r: Option<i128>)
    ensures
        r.is_some() <==> fx_div_spec(a as int, b as int).is_some(),
        r matches Some(v) ==> Some(v as int) == fx_div_spec(a as int, b as int),
{
    match a.checked_mul(SCALE) {
        None => None,
        Some(p) => if b == 0 {
            None
        } else {
            p.checked_div_euclid(b)
        },
    }
}

/// The fixed-point form of an exact rational.
pub fn to_fixed(q: &Q) -> (r: Option<i128>)
    requires
        q.wf(),
    ensures
        r.is_some() <==> to_fixed_spec(*q).is_some(),
        r matches Some(v) ==> Some(v as int) == to_fixed_spec(*q),
{
    let n: i128 = q.numerator();
    let d: i128 = q.denominator();
    match n.checked_mul(SCALE) {
        None => None,
        Some(p) => p.checked_div_euclid(d),
    }
}

/// Scaled dot product of two 3-vectors.
pub fn fx_dot(a0: i128, a1: i128, a2: i128, b0: i128, b1: i128, b2: i128) -> (r: Option<i128>)
    ensures
        r.is_some() <==> fx_dot_spec(a0 as int, a1 as int, a2 as int, b0 as int, b1 as int,
            b2 as int).is_some(),
        r matches Some(v) ==> Some(v as int) == fx_dot_spec(a0 as int, a1 as int, a2 as int,
            b0 as int, b1 as int, b2 as int),
{
    let p0_opt: Option<i128> = fx_mul(a0, b0);
    let p1_opt: Option<i128> = fx_mul(a1, b1);
    let p2_opt: Option<i128> = fx_mul(a2, b2);
    match (p0_opt, p1_opt, p2_opt) {
        (Some(p0), Some(p1), Some(p2)) => {
            match p0.checked_add(p1) {
                None => None,
                Some(s1) => s1.checked_add(p2),
            }
        },
        _ => None,
    }
}

/// `a*b - c*d` in fixed point.
pub fn cof2(a: i128, b: i128, c: i128, d: i128) -> (r: Option<i128>)
    ensures
        r.is_some() <==> cof2_spec(a as int, b as int, c as int, d as int).is_some(),
        r matches Some(v) ==> Some(v as int) == cof2_spec(a as int, b as int, c as int, d as int),
{
    let p_opt: Option<i128> = fx_mul(a, b);
    let q_opt: Option<i128> = fx_mul(c, d);
    match (p_opt, q_opt) {
        (Some(p), Some(q)) => p.checked_sub(q),
        _ => None,
    }
}

/// Scaling a value by itself is exactly the identity: the fixed-point
/// quotient of a positive value by itself is exactly `SCALE`.  This is the
/// heart of identity adaptation: when the source and destination whites
/// coincide, every diagonal entry of the von Kries scaling is exact.
pub proof fn lemma_identity_scaling(c: i128)
    requires
        c > 0,
        in_i128(c as int * (SCALE as int)),
    ensures
        fx_div_spec(c as int, c as int) == Some(SCALE as int),
{
    vstd::arithmetic::div_mod::lemma_div_multiples_vanish(SCALE as int, c as int);
    assert((c as int * (SCALE as int)) / (c as int) == SCALE as int);
}

/// Scaling a fixed-point value by the fixed-point one (`SCALE`) is exactly
/// the identity.
pub proof fn lemma_unit_product(m: i128)
    requires
        in_i128(SCALE as int * (m as int)),
    ensures
        fx_mul_spec(SCALE as int, m as int) == Some(m as int),
{
    vstd::arithmetic::div_mod::lemma_div_multiples_vanish(m as int, SCALE as int);
    assert((SCALE as int * (m as int)) / (SCALE as int) == m as int);
}

} // verus!
