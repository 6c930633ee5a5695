//! Exact rational scalars.
//!
//! Every chromaticity coordinate, tristimulus component and matrix entry in
//! this crate is a ratio of two machine integers, kept in reduced form with a
//! positive denominator.  All arithmetic is exact; an operation reports
//! failure only when a reduced intermediate value cannot be held in an
//! `i128`.

use vstd::prelude::*;
use vstd::arithmetic::div_mod::lemma_fundamental_div_mod;

verus! {

/// Absolute value of an integer, as a natural number.
pub open spec fn nabs(x: int) -> nat {
    if x >= 0 {
        x as nat
    } else {
        (-x) as nat
    }
}

/// Greatest common divisor, by Euclid's rule.
pub open spec fn gcd(a: nat, b: nat) -> nat
    decreases b,
{
    if b == 0 {
        a
    } else {
        gcd(b, a % b)
    }
}

/// `d` divides `a` exactly.
pub open spec fn divides(d: int, a: int) -> bool {
    exists|k: int| a == #[trigger] (k * d)
}

/// The gcd of two numbers divides both of them.
proof fn lemma_gcd_divides(a: nat, b: nat)
    ensures
        divides(gcd(a, b) as int, a as int),
        divides(gcd(a, b) as int, b as int),
    decreases b,
{
    if b == 0 {
        assert(a as int == 1 * (gcd(a, b) as int));
        assert(b as int == 0 * (gcd(a, b) as int));
    } else {
        lemma_gcd_divides(b, (a % b) as nat);
        let g = gcd(b, (a % b) as nat) as int;
        let k1 = choose|k: int| b as int == #[trigger] (k * g);
        let k2 = choose|k: int| (a % b) as int == #[trigger] (k * g);
        lemma_fundamental_div_mod(a as int, b as int);
        let q = a as int / b as int;
        assert(a as int == (k1 * q + k2) * g) by (nonlinear_arith)
            requires
                a as int == (b as int) * q + (a as int) % (b as int),
                b as int == k1 * g,
                (a as int) % (b as int) == k2 * g,
        ;
    }
}

/// The gcd of two numbers is positive as soon as one of them is.
proof fn lemma_gcd_pos(a: nat, b: nat)
    requires
        a > 0 || b > 0,
    ensures
        gcd(a, b) > 0,
    decreases b,
{
    if b > 0 {
        lemma_gcd_pos(b, (a % b) as nat);
    }
}

/// An exact division leaves no remainder and restores the dividend when
/// multiplied back.
proof fn lemma_div_exact(m: int, g: int)
    requires
        0 <= m,
        1 <= g,
        divides(g, m),
    ensures
        (m / g) * g == m,
        0 <= m / g <= m,
{
    let k = choose|k: int| m == #[trigger] (k * g);
    assert(k >= 0) by (nonlinear_arith)
        requires
            m == k * g,
            0 <= m,
            1 <= g,
    ;
    assert((k * g) / g == k) by {
        vstd::arithmetic::div_mod::lemma_div_by_multiple(k, g);
    }
    assert(k * g == m);
    assert(m / g == k);
    assert(k <= k * g) by (nonlinear_arith)
        requires
            0 <= k,
            1 <= g,
    ;
}

/// Exact division of a positive number by a divisor keeps it positive.
proof fn lemma_div_exact_pos(m: int, g: int)
    requires
        1 <= m,
        1 <= g,
        divides(g, m),
    ensures
        1 <= m / g,
        (m / g) * g == m,
        m / g <= m,
{
    lemma_div_exact(m, g);
    let q = m / g;
    assert(q * g == m);
    assert(q >= 1) by (nonlinear_arith)
        requires
            q * g == m,
            1 <= m,
            1 <= g,
            0 <= q,
    ;
}

/// Euclid's algorithm.
fn gcd_i128(a: i128, b: i128) -> (g: i128)
    requires
        0 <= a,
        0 <= b,
    ensures
        g == gcd(a as nat, b as nat),
        0 <= g,
{
    let mut x: i128 = a;
    let mut y: i128 = b;
    while y != 0
        invariant
            0 <= x,
            0 <= y,
            gcd(x as nat, y as nat) == gcd(a as nat, b as nat),
        decreases y,
    {
        let r: i128 = x.checked_rem_euclid(y).unwrap();
        proof {
            assert(r as int == (x as int) % (y as int));
            assert(r as nat == (x as nat) % (y as nat));
            assert(gcd(x as nat, y as nat) == gcd(y as nat, (x as nat) % (y as nat)));
        }
        x = y;
        y = r;
    }
    x
}

/// Magnitude of an integer that is not `i128::MIN`.
fn mag(n: i128) -> (m: i128)
    requires
        n > i128::MIN,
    ensures
        m == nabs(n as int),
        0 <= m,
{
    if n >= 0 {
        n
    } else {
        -n
    }
}

/// An exact rational scalar: the value `n / d`, with `d >= 1`.
#[derive(Clone, Copy, PartialEq, Eq, Structural, Debug)]
pub struct Q {
    n: i128,
    d: i128,
}

impl Q {
    /// The numerator, as a mathematical integer.
    pub closed spec fn num(self) -> int {
        self.n as int
    }

    /// The denominator, as a mathematical integer.
    pub closed spec fn den(self) -> int {
        self.d as int
    }

    /// Well-formed: positive denominator, negatable numerator.
    pub open spec fn wf(self) -> bool {
        1 <= self.den() && (i128::MIN as int) < self.num()
    }

    /// Both rationals stand for the same value.
    pub open spec fn same_value(self, other: Q) -> bool {
        self.num() * other.den() == other.num() * self.den()
    }

}

/// Numerator of a raw pair after reduction by the gcd.
pub open spec fn norm_num(n: int, d: int) -> int
    recommends
        1 <= d,
{
    let g = gcd(nabs(n), d as nat) as int;
    if n >= 0 {
        nabs(n) as int / g
    } else {
        -(nabs(n) as int / g)
    }
}

/// Denominator of a raw pair after reduction by the gcd.
pub open spec fn norm_den(n: int, d: int) -> int
    recommends
        1 <= d,
{
    let g = gcd(nabs(n), d as nat) as int;
    d / g
}

/// Reduce a raw numerator/denominator pair by its gcd.
fn normalize(n: i128, d: i128) -> (r: Q)
    requires
        1 <= d,
        i128::MIN < n,
    ensures
        r.wf(),
        r.num() * d == n * r.den(),
        nabs(r.num()) <= nabs(n as int),
        r.den() <= d,
        r.num() >= 0 <==> n >= 0,
        r.num() == 0 <==> n == 0,
        r.num() == norm_num(n as int, d as int),
        r.den() == norm_den(n as int, d as int),
{
    let m: i128 = mag(n);
    let g: i128 = gcd_i128(m, d);
    proof {
        lemma_gcd_pos(m as nat, d as nat);
        lemma_gcd_divides(m as nat, d as nat);
    }
    let q: i128 = m.checked_div_euclid(g).unwrap();
    let dq: i128 = d.checked_div_euclid(g).unwrap();
    proof {
        lemma_div_exact(m as int, g as int);
        lemma_div_exact_pos(d as int, g as int);
    }
    let rn: i128 = if n >= 0 {
        q
    } else {
        -q
    };
    let r = Q { n: rn, d: dq };
    proof {
        let qi = (m as int) / (g as int);
        let dqi = (d as int) / (g as int);
        assert(r.num() * d == n * r.den()) by (nonlinear_arith)
            requires
                qi * (g as int) == m as int,
                dqi * (g as int) == d as int,
                1 <= g as int,
                r.num() == if n >= 0 { qi } else { -qi },
                n as int == if n >= 0 { m as int } else { -(m as int) },
                r.den() == dqi,
        ;
        assert(q == 0 ==> m == 0) by (nonlinear_arith)
            requires
                qi * (g as int) == m as int,
                qi == q as int,
                0 <= m,
        ;
        assert(m == 0 ==> q == 0);
    }
    r
}

/// The rational with value `v` and denominator one, as `Q::from_int`
/// builds it.
pub closed spec fn q_int(v: int) -> Q {
    Q { n: v as i128, d: 1 }
}

/// The rational `n / d` as `Q::from_parts` stores it.
pub closed spec fn q_frac(n: int, d: int) -> Q {
    Q { n: n as i128, d: d as i128 }
}

impl Q {
    /// The rational with value `v`.
    pub fn from_int(v: i64) -> (r: Q)
        ensures
            r.wf(),
            r.num() == v as int,
            r.den() == 1,
            r == q_int(v as int),
    {
        Q { n: v as i128, d: 1 }
    }

    /// A rational from a numerator/denominator pair that is already in
    /// lowest terms (used for tabulated constants).
    pub(crate) fn from_parts(n: i64, d: i64) -> (r: Q)
        requires
            1 <= d,
        ensures
            r.wf(),
            r.num() == n as int,
            r.den() == d as int,
            r == q_frac(n as int, d as int),
    {
        Q { n: n as i128, d: d as i128 }
    }

    /// The rational `n / d`, reduced; `None` exactly when `d == 0`.
    pub fn from_fraction(n: i64, d: i64) -> (r: Option<Q>)
        ensures
            r matches Some(v) ==> v.wf() && v.num() * (d as int) == (n as int) * v.den(),
            r.is_some() <==> d != 0,
    {
        if d == 0 {
            None
        } else {
            let nn: i128 = if d < 0 {
                -(n as i128)
            } else {
                n as i128
            };
            let dd: i128 = if d < 0 {
                -(d as i128)
            } else {
                d as i128
            };
            let v = normalize(nn, dd);
            proof {
                assert(v.num() * (d as int) == (n as int) * v.den()) by (nonlinear_arith)
                    requires
                        v.num() * (dd as int) == (nn as int) * v.den(),
                        dd as int == if d < 0 { -(d as int) } else { d as int },
                        nn as int == if d < 0 { -(n as int) } else { n as int },
                ;
            }
            Some(v)
        }
    }
}

} // verus!


verus! {

/// The reduced product of `an/ad` and `bn/bd` fits in an `i128` after
/// cross-cancellation.
pub open spec fn mul_fits(an: int, ad: int, bn: int, bd: int) -> bool
    recommends
        1 <= ad,
        1 <= bd,
{
    let g1 = gcd(nabs(an), bd as nat) as int;
    let g2 = gcd(nabs(bn), ad as nat) as int;
    (nabs(an) as int / g1) * (nabs(bn) as int / g2) <= i128::MAX as int
        && (ad / g2) * (bd / g1) <= i128::MAX as int
}

/// The sum of `an/ad` and `bn/bd` over their least common denominator fits
/// in an `i128`.
pub open spec fn add_fits(an: int, ad: int, bn: int, bd: int) -> bool
    recommends
        1 <= ad,
        1 <= bd,
{
    let g = gcd(ad as nat, bd as nat) as int;
    let fa = bd / g;
    let fb = ad / g;
    ad * fa <= i128::MAX as int && i128::MIN as int <= an * fa <= i128::MAX as int
        && i128::MIN as int <= bn * fb <= i128::MAX as int && (i128::MIN as int) < an * fa + bn * fb
        && an * fa + bn * fb <= i128::MAX as int
}

/// The reduced quotient of `an/ad` by `bn/bd` fits in an `i128`; a zero
/// divisor never fits.
pub open spec fn div_fits(an: int, ad: int, bn: int, bd: int) -> bool
    recommends
        1 <= ad,
        1 <= bd,
{
    bn != 0 && mul_fits(an, ad, if bn > 0 { bd } else { -bd }, nabs(bn) as int)
}

/// Mirror of `Q::mul`: whether it succeeds, and the exact reduced result.
pub open spec fn q_mul_full(an: int, ad: int, bn: int, bd: int) -> (bool, int, int)
    recommends
        1 <= ad,
        1 <= bd,
{
    if !mul_fits(an, ad, bn, bd) {
        (false, 0, 0)
    } else {
        let g1 = gcd(nabs(an), bd as nat) as int;
        let g2 = gcd(nabs(bn), ad as nat) as int;
        let pn = (nabs(an) as int / g1) * (nabs(bn) as int / g2);
        let pd = (ad / g2) * (bd / g1);
        let sn = if (an < 0) != (bn < 0) {
            -pn
        } else {
            pn
        };
        (true, norm_num(sn, pd), norm_den(sn, pd))
    }
}

/// Mirror of `Q::add`: whether it succeeds, and the exact reduced result.
pub open spec fn q_add_full(an: int, ad: int, bn: int, bd: int) -> (bool, int, int)
    recommends
        1 <= ad,
        1 <= bd,
{
    if !add_fits(an, ad, bn, bd) {
        (false, 0, 0)
    } else {
        let g = gcd(ad as nat, bd as nat) as int;
        let fa = bd / g;
        let fb = ad / g;
        let l = ad * fa;
        let sum = an * fa + bn * fb;
        (true, norm_num(sum, l), norm_den(sum, l))
    }
}

/// Mirror of `Q::div`: whether it succeeds, and the exact reduced result.
pub open spec fn q_div_full(an: int, ad: int, bn: int, bd: int) -> (bool, int, int)
    recommends
        1 <= ad,
        1 <= bd,
{
    if bn == 0 {
        (false, 0, 0)
    } else if bn > 0 {
        q_mul_full(an, ad, bd, bn)
    } else {
        q_mul_full(an, ad, -bd, -bn)
    }
}

impl Q {
    /// Exact negation.
    pub fn neg(self) -> (r: Q)
        requires
            self.wf(),
        ensures
            r.wf(),
            r.num() == -self.num(),
            r.den() == self.den(),
    {
        Q { n: -self.n, d: self.d }
    }

    /// Exact multiplication; `None` exactly when the reduced result
    /// overflows an `i128`.
    pub fn mul(self, other: Q) -> (r: Option<Q>)
        requires
            self.wf(),
            other.wf(),
        ensures
            r matches Some(v) ==> v.wf() && v.num() * (self.den() * other.den()) == (self.num()
                * other.num()) * v.den(),
            r.is_some() <==> mul_fits(self.num(), self.den(), other.num(), other.den()),
            r matches Some(v) ==> v.num() == q_mul_full(self.num(), self.den(), other.num(),
                other.den()).1 && v.den() == q_mul_full(self.num(), self.den(), other.num(),
                other.den()).2,
    {
        let ma: i128 = mag(self.n);
        let mb: i128 = mag(other.n);
        let g1: i128 = gcd_i128(ma, other.d);
        let g2: i128 = gcd_i128(mb, self.d);
        proof {
            lemma_gcd_pos(ma as nat, other.d as nat);
            lemma_gcd_pos(mb as nat, self.d as nat);
            lemma_gcd_divides(ma as nat, other.d as nat);
            lemma_gcd_divides(mb as nat, self.d as nat);
            lemma_div_exact(ma as int, g1 as int);
            lemma_div_exact(mb as int, g2 as int);
            lemma_div_exact_pos(other.d as int, g1 as int);
            lemma_div_exact_pos(self.d as int, g2 as int);
        }
        let an: i128 = ma.checked_div_euclid(g1).unwrap();
        let bn: i128 = mb.checked_div_euclid(g2).unwrap();
        let ad: i128 = self.d.checked_div_euclid(g2).unwrap();
        let bd: i128 = other.d.checked_div_euclid(g1).unwrap();
        let mn_opt: Option<i128> = an.checked_mul(bn);
        let md_opt: Option<i128> = ad.checked_mul(bd);
        if mn_opt.is_none() || md_opt.is_none() {
            proof {
                assert(0 <= (an as int) * (bn as int)) by (nonlinear_arith)
                    requires
                        0 <= an,
                        0 <= bn,
                ;
                assert(1 <= (ad as int) * (bd as int)) by (nonlinear_arith)
                    requires
                        1 <= ad,
                        1 <= bd,
                ;
            }
            None
        } else {
            let mn: i128 = mn_opt.unwrap();
            let md: i128 = md_opt.unwrap();
            proof {
                assert(0 <= (an as int) * (bn as int)) by (nonlinear_arith)
                    requires
                        0 <= an,
                        0 <= bn,
                ;
                assert(1 <= (ad as int) * (bd as int)) by (nonlinear_arith)
                    requires
                        1 <= ad,
                        1 <= bd,
                ;
            }
            let neg_sign: bool = (self.n < 0) != (other.n < 0);
            let rn: i128 = if neg_sign {
                -mn
            } else {
                mn
            };
            let v = normalize(rn, md);
            proof {
                let sa: int = if self.n < 0 { -1int } else { 1int };
                let sb: int = if other.n < 0 { -1int } else { 1int };
                let s: int = if neg_sign { -1int } else { 1int };
                let g12: int = (g1 as int) * (g2 as int);
                assert(self.num() * other.num() == s * (mn as int) * g12) by (nonlinear_arith)
                    requires
                        self.num() == sa * (ma as int),
                        other.num() == sb * (mb as int),
                        ma as int == (an as int) * (g1 as int),
                        mb as int == (bn as int) * (g2 as int),
                        mn as int == (an as int) * (bn as int),
                        s == sa * sb,
                        g12 == (g1 as int) * (g2 as int),
                ;
                assert(self.den() * other.den() == (md as int) * g12) by (nonlinear_arith)
                    requires
                        self.den() == (ad as int) * (g2 as int),
                        other.den() == (bd as int) * (g1 as int),
                        md as int == (ad as int) * (bd as int),
                        g12 == (g1 as int) * (g2 as int),
                ;
                assert(v.num() * (self.den() * other.den()) == (self.num() * other.num())
                    * v.den()) by (nonlinear_arith)
                    requires
                        self.den() * other.den() == (md as int) * g12,
                        self.num() * other.num() == s * (mn as int) * g12,
                        v.num() * (md as int) == (rn as int) * v.den(),
                        rn as int == s * (mn as int),
                ;
            }
            Some(v)
        }
    }

    /// Exact addition; `None` exactly when an intermediate value over the
    /// least common denominator overflows an `i128`.
    pub fn add(self, other: Q) -> (r: Option<Q>)
        requires
            self.wf(),
            other.wf(),
        ensures
            r matches Some(v) ==> v.wf() && v.num() * (self.den() * other.den()) == (self.num()
                * other.den() + other.num() * self.den()) * v.den(),
            r.is_some() <==> add_fits(self.num(), self.den(), other.num(), other.den()),
            r matches Some(v) ==> v.num() == q_add_full(self.num(), self.den(), other.num(),
                other.den()).1 && v.den() == q_add_full(self.num(), self.den(), other.num(),
                other.den()).2,
    {
        let g: i128 = gcd_i128(self.d, other.d);
        proof {
            lemma_gcd_pos(self.d as nat, other.d as nat);
            lemma_gcd_divides(self.d as nat, other.d as nat);
            lemma_div_exact_pos(self.d as int, g as int);
            lemma_div_exact_pos(other.d as int, g as int);
        }
        let fa: i128 = other.d.checked_div_euclid(g).unwrap();
        let fb: i128 = self.d.checked_div_euclid(g).unwrap();
        let l_opt: Option<i128> = self.d.checked_mul(fa);
        let t1_opt: Option<i128> = self.n.checked_mul(fa);
        let t2_opt: Option<i128> = other.n.checked_mul(fb);
        proof {
            assert(1 <= (self.d as int) * (fa as int)) by (nonlinear_arith)
                requires
                    1 <= self.d,
                    1 <= fa,
            ;
        }
        if l_opt.is_none() || t1_opt.is_none() || t2_opt.is_none() {
            None
        } else {
            let l: i128 = l_opt.unwrap();
            let t1: i128 = t1_opt.unwrap();
            let t2: i128 = t2_opt.unwrap();
            let sum_opt: Option<i128> = t1.checked_add(t2);
            if sum_opt.is_none() {
                None
            } else {
                let sum: i128 = sum_opt.unwrap();
                if sum == i128::MIN {
                    None
                } else {
                    let v = normalize(sum, l);
                    proof {
                        assert(self.den() * other.den() == (l as int) * (g as int))
                            by (nonlinear_arith)
                            requires
                                l as int == self.den() * (fa as int),
                                (fa as int) * (g as int) == other.den(),
                        ;
                        assert(self.num() * other.den() + other.num() * self.den() == (sum as int)
                            * (g as int)) by (nonlinear_arith)
                            requires
                                sum as int == (t1 as int) + (t2 as int),
                                t1 as int == self.num() * (fa as int),
                                t2 as int == other.num() * (fb as int),
                                (fa as int) * (g as int) == other.den(),
                                (fb as int) * (g as int) == self.den(),
                        ;
                        assert(v.num() * (self.den() * other.den()) == (self.num() * other.den()
                            + other.num() * self.den()) * v.den()) by (nonlinear_arith)
                            requires
                                v.num() * (l as int) == (sum as int) * v.den(),
                                self.den() * other.den() == (l as int) * (g as int),
                                self.num() * other.den() + other.num() * self.den() == (sum as int)
                                    * (g as int),
                        ;
                    }
                    Some(v)
                }
            }
        }
    }

    /// Exact subtraction, as addition of the negation.
    pub fn sub(self, other: Q) -> (r: Option<Q>)
        requires
            self.wf(),
            other.wf(),
        ensures
            r matches Some(v) ==> v.wf() && v.num() * (self.den() * other.den()) == (self.num()
                * other.den() - other.num() * self.den()) * v.den(),
            r.is_some() <==> add_fits(self.num(), self.den(), -other.num(), other.den()),
            r matches Some(v) ==> v.num() == q_add_full(self.num(), self.den(), -other.num(),
                other.den()).1 && v.den() == q_add_full(self.num(), self.den(), -other.num(),
                other.den()).2,
    {
        let r = self.add(other.neg());
        proof {
            if r is Some {
                let v = r.unwrap();
                assert(v.num() * (self.den() * other.den()) == (self.num() * other.den()
                    - other.num() * self.den()) * v.den()) by (nonlinear_arith)
                    requires
                        v.num() * (self.den() * other.den()) == (self.num() * other.den() + (
                        -other.num()) * self.den()) * v.den(),
                ;
            }
        }
        r
    }

    /// The reciprocal of a nonzero rational.
    fn recip(self) -> (r: Q)
        requires
            self.wf(),
            self.num() != 0,
        ensures
            r.wf(),
            r.num() == if self.num() > 0 { self.den() } else { -self.den() },
            r.den() == nabs(self.num()),
    {
        if self.n > 0 {
            Q { n: self.d, d: self.n }
        } else {
            Q { n: -self.d, d: -self.n }
        }
    }

    /// Exact division; `None` exactly when the divisor is zero or the
    /// reduced quotient overflows an `i128`.
    pub fn div(self, other: Q) -> (r: Option<Q>)
        requires
            self.wf(),
            other.wf(),
        ensures
            r matches Some(v) ==> v.wf() && v.num() * (self.den() * other.num()) == (self.num()
                * other.den()) * v.den(),
            r.is_some() <==> div_fits(self.num(), self.den(), other.num(), other.den()),
            r matches Some(v) ==> v.num() == q_div_full(self.num(), self.den(), other.num(),
                other.den()).1 && v.den() == q_div_full(self.num(), self.den(), other.num(),
                other.den()).2,
    {
        if other.n == 0 {
            None
        } else {
            let rec = other.recip();
            let r = self.mul(rec);
            proof {
                if r is Some {
                    let v = r.unwrap();
                    assert(v.num() * (self.den() * other.num()) == (self.num() * other.den())
                        * v.den()) by (nonlinear_arith)
                        requires
                            v.num() * (self.den() * rec.den()) == (self.num() * rec.num())
                                * v.den(),
                            rec.num() == if other.num() > 0 { other.den() } else { -other.den() },
                            rec.den() == nabs(other.num()) as int,
                            nabs(other.num()) as int == if other.num() >= 0 { other.num() } else {
                                -other.num()
                            },
                    ;
                }
            }
            r
        }
    }
}

} // verus!

verus! {

/// Cancellation of a common nonzero factor.
pub proof fn lemma_mul_cancel(a: int, b: int, c: int)
    requires
        c != 0,
        a * c == b * c,
    ensures
        a == b,
{
    assert(a == b) by (nonlinear_arith)
        requires
            c != 0,
            a * c == b * c,
    ;
}

/// A quotient keeps its value when the dividend's representative is
/// replaced by an equal fraction.
pub proof fn lemma_frac_div(vn: int, vd: int, tn: int, td: int, bn: int, bd: int, pn: int, pd: int)
    requires
        td >= 1,
        vn * (td * bn) == (tn * bd) * vd,
        tn * pd == pn * td,
    ensures
        vn * (pd * bn) == (pn * bd) * vd,
{
    assert((vn * (pd * bn)) * td == (vn * (td * bn)) * pd) by (nonlinear_arith);
    assert((vn * (td * bn)) * pd == ((tn * bd) * vd) * pd);
    assert(((tn * bd) * vd) * pd == (tn * pd) * (bd * vd)) by (nonlinear_arith);
    assert((tn * pd) * (bd * vd) == (pn * td) * (bd * vd));
    assert((pn * td) * (bd * vd) == ((pn * bd) * vd) * td) by (nonlinear_arith);
    lemma_mul_cancel(vn * (pd * bn), (pn * bd) * vd, td);
}

/// A product keeps its value when one factor's representative is replaced
/// by an equal fraction.
pub proof fn lemma_frac_mul(vn: int, vd: int, tn: int, td: int, bn: int, bd: int, pn: int, pd: int)
    requires
        td >= 1,
        vn * (td * bd) == (tn * bn) * vd,
        tn * pd == pn * td,
    ensures
        vn * (pd * bd) == (pn * bn) * vd,
{
    assert((vn * (pd * bd)) * td == (vn * (td * bd)) * pd) by (nonlinear_arith);
    assert((vn * (td * bd)) * pd == ((tn * bn) * vd) * pd);
    assert(((tn * bn) * vd) * pd == (tn * pd) * (bn * vd)) by (nonlinear_arith);
    assert((tn * pd) * (bn * vd) == (pn * td) * (bn * vd));
    assert((pn * td) * (bn * vd) == ((pn * bn) * vd) * td) by (nonlinear_arith);
    lemma_mul_cancel(vn * (pd * bd), (pn * bn) * vd, td);
}

/// A sum keeps its value when one addend's representative is replaced by
/// an equal fraction.
pub proof fn lemma_frac_add(vn: int, vd: int, tn: int, td: int, bn: int, bd: int, pn: int, pd: int)
    requires
        td >= 1,
        vn * (td * bd) == (tn * bd + bn * td) * vd,
        tn * pd == pn * td,
    ensures
        vn * (pd * bd) == (pn * bd + bn * pd) * vd,
{
    assert((vn * (pd * bd)) * td == (vn * (td * bd)) * pd) by (nonlinear_arith);
    assert((vn * (td * bd)) * pd == ((tn * bd + bn * td) * vd) * pd);
    assert(((tn * bd + bn * td) * vd) * pd == ((tn * bd) * vd) * pd + ((bn * td) * vd) * pd)
        by (nonlinear_arith);
    assert(((tn * bd) * vd) * pd == (tn * pd) * (bd * vd)) by (nonlinear_arith);
    assert(((bn * td) * vd) * pd == (bn * pd) * (td * vd)) by (nonlinear_arith);
    assert((tn * pd) * (bd * vd) + (bn * pd) * (td * vd) == (pn * td) * (bd * vd) + (bn * pd) * (td
        * vd));
    assert((pn * td) * (bd * vd) + (bn * pd) * (td * vd) == ((pn * bd + bn * pd) * vd) * td)
        by (nonlinear_arith);
    lemma_mul_cancel(vn * (pd * bd), (pn * bd + bn * pd) * vd, td);
}

/// A difference keeps its value when the minuend's representative is
/// replaced by an equal fraction.
pub proof fn lemma_frac_sub(vn: int, vd: int, tn: int, td: int, bn: int, bd: int, pn: int, pd: int)
    requires
        td >= 1,
        vn * (td * bd) == (tn * bd - bn * td) * vd,
        tn * pd == pn * td,
    ensures
        vn * (pd * bd) == (pn * bd - bn * pd) * vd,
{
    assert((vn * (pd * bd)) * td == (vn * (td * bd)) * pd) by (nonlinear_arith);
    assert((vn * (td * bd)) * pd == ((tn * bd - bn * td) * vd) * pd);
    assert(((tn * bd - bn * td) * vd) * pd == ((tn * bd) * vd) * pd - ((bn * td) * vd) * pd)
        by (nonlinear_arith);
    assert(((tn * bd) * vd) * pd == (tn * pd) * (bd * vd)) by (nonlinear_arith);
    assert(((bn * td) * vd) * pd == (bn * pd) * (td * vd)) by (nonlinear_arith);
    assert((tn * pd) * (bd * vd) - (bn * pd) * (td * vd) == (pn * td) * (bd * vd) - (bn * pd) * (td
        * vd));
    assert((pn * td) * (bd * vd) - (bn * pd) * (td * vd) == ((pn * bd - bn * pd) * vd) * td)
        by (nonlinear_arith);
    lemma_mul_cancel(vn * (pd * bd), (pn * bd - bn * pd) * vd, td);
}

/// A quotient keeps its value when the divisor's representative is
/// replaced by an equal fraction.
pub proof fn lemma_frac_div_subst(vn: int, vd: int, an: int, ad: int, bn: int, bd: int, qn: int, qd: int)
    requires
        bd >= 1,
        vn * (ad * bn) == (an * bd) * vd,
        bn * qd == qn * bd,
    ensures
        vn * (ad * qn) == (an * qd) * vd,
{
    assert((vn * (ad * qn)) * bd == (vn * ad) * (qn * bd)) by (nonlinear_arith);
    assert((vn * ad) * (qn * bd) == (vn * ad) * (bn * qd));
    assert((vn * ad) * (bn * qd) == (vn * (ad * bn)) * qd) by (nonlinear_arith);
    assert((vn * (ad * bn)) * qd == ((an * bd) * vd) * qd);
    assert(((an * bd) * vd) * qd == ((an * qd) * vd) * bd) by (nonlinear_arith);
    lemma_mul_cancel(vn * (ad * qn), (an * qd) * vd, bd);
}

/// A rational is the pair of its own numerator and denominator.
pub proof fn lemma_q_parts(q: Q)
    ensures
        q == q_frac(q.num(), q.den()),
{
}

impl Q {
    /// The reduced rational `n / d` from a raw machine-integer pair.
    pub fn from_raw(n: i128, d: i128) -> (r: Q)
        requires
            1 <= d,
            i128::MIN < n,
        ensures
            r.wf(),
            r.num() * d == n * r.den(),
            r == q_frac(norm_num(n as int, d as int), norm_den(n as int, d as int)),
    {
        let r = normalize(n, d);
        proof {
            lemma_q_parts(r);
        }
        r
    }

    /// True exactly when the value is zero.
    pub fn is_zero(&self) -> (b: bool)
        requires
            self.wf(),
        ensures
            b <==> self.num() == 0,
    {
        self.n == 0
    }
}

} // verus!

verus! {

impl Q {
    /// The numerator, for callers outside the proof.
    pub fn numerator(&self) -> (n: i128)
        ensures
            n as int == self.num(),
    {
        self.n
    }

    /// The denominator, for callers outside the proof.
    pub fn denominator(&self) -> (d: i128)
        ensures
            d as int == self.den(),
    {
        self.d
    }
}

} // verus!
