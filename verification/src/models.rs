//! CIE tristimulus (XYZ) and chromaticity-luminance (xyY) color models,
//! with the exact conversions between them.

use vstd::prelude::*;
use crate::rational::{
    Q, q_mul_full, q_add_full, q_div_full, lemma_frac_div, lemma_frac_mul, lemma_frac_sub,
    lemma_frac_add, lemma_frac_div_subst,
};
use crate::illuminants::{StandardObserver, Illuminant, Chromaticity, illuminant, illuminant_spec};

verus! {

/// A color value of one of this crate's models.
pub trait Color {

}

/// Conversions into the other color models of the wider system; the models
/// beyond XYZ and xyY are supplied by collaborators, so the trait only
/// names the surface.
pub trait ColorConversion {
    fn as_bt2020(&self);

    fn as_cie_lab(&self);

    fn as_cie_luv(&self);

    fn as_cie_ucs(&self);

    fn as_cie_uvw(&self);

    fn as_cie_xyy(&self);

    fn as_cie_xyz(&self);

    fn as_cmy(&self);

    fn as_cmyk(&self);

    fn as_hex(&self);

    fn as_hsl(&self);

    fn as_hsv(&self);

    fn as_ipt(&self);

    fn as_yiq(&self);

    fn as_yuv(&self);
}

/// CIE 1931 XYZ tristimulus values.
#[derive(Clone, Copy, PartialEq, Eq, Structural, Debug)]
pub struct Xyz {
    pub x: Q,
    pub y: Q,
    pub z: Q,
}

/// CIE xyY values: chromaticity `(x, y1)` and luminance `y2`.
#[derive(Clone, Copy, PartialEq, Eq, Structural, Debug)]
pub struct Xyy {
    pub x: Q,
    pub y1: Q,
    pub y2: Q,
}

impl Color for Xyz {

}

impl Color for Xyy {

}

impl Xyz {
    /// All three components are well-formed rationals.
    pub open spec fn wf(self) -> bool {
        self.x.wf() && self.y.wf() && self.z.wf()
    }

    /// The zero stimulus.
    pub open spec fn is_zero_spec(self) -> bool {
        self.x.num() == 0 && self.y.num() == 0 && self.z.num() == 0
    }
}

impl Xyy {
    /// All three components are well-formed rationals.
    pub open spec fn wf(self) -> bool {
        self.x.wf() && self.y1.wf() && self.y2.wf()
    }
}

/// Mirror of the `x` channel of `Xyy::to_xyz`: success flag and exact
/// reduced result of `x * y2 / y1`.
pub open spec fn xyy_to_xyz_x(c: Xyy) -> (bool, int, int) {
    let t = q_mul_full(c.x.num(), c.x.den(), c.y2.num(), c.y2.den());
    let d = q_div_full(t.1, t.2, c.y1.num(), c.y1.den());
    (t.0 && d.0, d.1, d.2)
}

/// Mirror of the `z` channel of `Xyy::to_xyz`: success flag and exact
/// reduced result of `(1 - x - y1) * y2 / y1`.
pub open spec fn xyy_to_xyz_z(c: Xyy) -> (bool, int, int) {
    let t = q_add_full(1, 1, -c.x.num(), c.x.den());
    let u = q_add_full(t.1, t.2, -c.y1.num(), c.y1.den());
    let m = q_mul_full(u.1, u.2, c.y2.num(), c.y2.den());
    let d = q_div_full(m.1, m.2, c.y1.num(), c.y1.den());
    (t.0 && u.0 && m.0 && d.0, d.1, d.2)
}

/// Exactly when `Xyy::to_xyz` returns a value.
pub open spec fn xyy_to_xyz_ok(c: Xyy) -> bool {
    c.y1.num() == 0 || (xyy_to_xyz_x(c).0 && xyy_to_xyz_z(c).0)
}

impl Xyy {
    /// Conversion to CIE XYZ tristimulus values.
    ///
    /// A degenerate chromaticity (`y1 == 0`) yields the zero stimulus, by
    /// design, rather than an error.  Otherwise `X = x*y2/y1`, `Y = y2` and
    /// `Z = (1 - x - y1)*y2/y1` exactly; `None` comes exactly when a
    /// reduced intermediate value overflows an `i128`.
    pub fn to_xyz(&self) -> (r: Option<Xyz>)
        requires
            self.wf(),
        ensures
            r.is_some() <==> xyy_to_xyz_ok(*self),
            r matches Some(v) ==> v.wf(),
            self.y1.num() == 0 ==> (r matches Some(v) && v.is_zero_spec()),
            self.y1.num() == 0 ==> (r matches Some(v) && v.x == crate::rational::q_int(0) && v.y
                == crate::rational::q_int(0) && v.z == crate::rational::q_int(0)),
            self.y1.num() != 0 ==> (r matches Some(v) ==> v.x == crate::rational::q_frac(
                xyy_to_xyz_x(*self).1, xyy_to_xyz_x(*self).2) && v.z == crate::rational::q_frac(
                xyy_to_xyz_z(*self).1, xyy_to_xyz_z(*self).2)),
            self.y1.num() != 0 ==> (r matches Some(v) ==> v.x.num() * (self.x.den() * self.y2.den()
                * self.y1.num()) == (self.x.num() * self.y2.num() * self.y1.den()) * v.x.den()),
            self.y1.num() != 0 ==> (r matches Some(v) ==> v.y == self.y2),
            self.y1.num() != 0 ==> (r matches Some(v) ==> v.z.num() * ((self.x.den()
                * self.y1.den()) * self.y2.den() * self.y1.num()) == ((self.x.den() * self.y1.den()
                - self.x.num() * self.y1.den() - self.y1.num() * self.x.den()) * self.y2.num()
                * self.y1.den()) * v.z.den()),
    {
        if self.y1.is_zero() {
            Some(Xyz { x: Q::from_int(0), y: Q::from_int(0), z: Q::from_int(0) })
        } else {
            let t_opt: Option<Q> = self.x.mul(self.y2);
            if t_opt.is_none() {
                return None;
            }
            let t = t_opt.unwrap();
            let xv_opt: Option<Q> = t.div(self.y1);
            if xv_opt.is_none() {
                return None;
            }
            let xv = xv_opt.unwrap();
            proof {
                lemma_frac_div(
                    xv.num(), xv.den(),
                    t.num(), t.den(),
                    self.y1.num(), self.y1.den(),
                    self.x.num() * self.y2.num(), self.x.den() * self.y2.den(),
                );
            }
            let one = Q::from_int(1);
            let w1_opt: Option<Q> = one.sub(self.x);
            if w1_opt.is_none() {
                return None;
            }
            let w1 = w1_opt.unwrap();
            let w2_opt: Option<Q> = w1.sub(self.y1);
            if w2_opt.is_none() {
                return None;
            }
            let w2 = w2_opt.unwrap();
            proof {
                lemma_frac_sub(
                    w2.num(), w2.den(),
                    w1.num(), w1.den(),
                    self.y1.num(), self.y1.den(),
                    self.x.den() - self.x.num(), self.x.den(),
                );
            }
            let m_opt: Option<Q> = w2.mul(self.y2);
            if m_opt.is_none() {
                return None;
            }
            let m = m_opt.unwrap();
            proof {
                lemma_frac_mul(
                    m.num(), m.den(),
                    w2.num(), w2.den(),
                    self.y2.num(), self.y2.den(),
                    (self.x.den() - self.x.num()) * self.y1.den() - self.y1.num() * self.x.den(),
                    self.x.den() * self.y1.den(),
                );
            }
            let zv_opt: Option<Q> = m.div(self.y1);
            if zv_opt.is_none() {
                return None;
            }
            let zv = zv_opt.unwrap();
            proof {
                lemma_frac_div(
                    zv.num(), zv.den(),
                    m.num(), m.den(),
                    self.y1.num(), self.y1.den(),
                    ((self.x.den() - self.x.num()) * self.y1.den() - self.y1.num() * self.x.den())
                        * self.y2.num(),
                    (self.x.den() * self.y1.den()) * self.y2.den(),
                );
                assert(((self.x.den() - self.x.num()) * self.y1.den() - self.y1.num()
                    * self.x.den()) == (self.x.den() * self.y1.den() - self.x.num() * self.y1.den()
                    - self.y1.num() * self.x.den())) by (nonlinear_arith);
            }
            proof {
                crate::rational::lemma_q_parts(xv);
                crate::rational::lemma_q_parts(zv);
            }
            Some(Xyz { x: xv, y: self.y2, z: zv })
        }
    }
}

/// Mirror of the sum `X + Y + Z` inside `Xyz::to_xyy`.
pub open spec fn xyz_sum(v: Xyz) -> (bool, int, int) {
    let s1 = q_add_full(v.x.num(), v.x.den(), v.y.num(), v.y.den());
    let s = q_add_full(s1.1, s1.2, v.z.num(), v.z.den());
    (s1.0 && s.0, s.1, s.2)
}

/// Exactly when `Xyz::to_xyy` returns a value.
pub open spec fn xyz_to_xyy_ok(v: Xyz) -> bool {
    v.is_zero_spec() || {
        let s = xyz_sum(v);
        s.0 && q_div_full(v.x.num(), v.x.den(), s.1, s.2).0 && q_div_full(
            v.y.num(),
            v.y.den(),
            s.1,
            s.2,
        ).0
    }
}

/// Numerator of `X + Y + Z` over the common denominator
/// `x.den * y.den * z.den`.
pub open spec fn xyz_sum_num(v: Xyz) -> int {
    v.x.num() * (v.y.den() * v.z.den()) + v.y.num() * (v.x.den() * v.z.den()) + v.z.num() * (
    v.x.den() * v.y.den())
}

impl Xyz {
    /// Conversion to CIE xyY.
    ///
    /// The zero stimulus takes the chromaticity of the given reference
    /// illuminant with zero luminance; otherwise `x = X/(X+Y+Z)`,
    /// `y1 = Y/(X+Y+Z)` and `y2 = Y` exactly.  `None` comes exactly when a
    /// reduced intermediate value overflows an `i128`.
    pub fn to_xyy(&self, o: StandardObserver, i: Illuminant) -> (r: Option<Xyy>)
        requires
            self.wf(),
        ensures
            r.is_some() <==> xyz_to_xyy_ok(*self),
            r matches Some(v) ==> v.wf(),
            self.is_zero_spec() ==> (r matches Some(v) && v.x.num() == illuminant_spec(o, i).0
                && v.x.den() == illuminant_spec(o, i).1 && v.y1.num() == illuminant_spec(o, i).2
                && v.y1.den() == illuminant_spec(o, i).3 && v.y2.num() == 0),
            !self.is_zero_spec() ==> (r matches Some(v) ==> v.x.num() * (self.x.den()
                * xyz_sum_num(*self)) == (self.x.num() * (self.x.den() * (self.y.den()
                * self.z.den()))) * v.x.den()),
            !self.is_zero_spec() ==> (r matches Some(v) ==> v.y1.num() * (self.y.den()
                * xyz_sum_num(*self)) == (self.y.num() * (self.x.den() * (self.y.den()
                * self.z.den()))) * v.y1.den()),
            !self.is_zero_spec() ==> (r matches Some(v) ==> v.y2 == self.y),
    {
        if self.x.is_zero() && self.y.is_zero() && self.z.is_zero() {
            let w = illuminant(o, i);
            Some(Xyy { x: w.x, y1: w.y, y2: Q::from_int(0) })
        } else {
            let s1_opt: Option<Q> = self.x.add(self.y);
            if s1_opt.is_none() {
                return None;
            }
            let s1 = s1_opt.unwrap();
            let s_opt: Option<Q> = s1.add(self.z);
            if s_opt.is_none() {
                return None;
            }
            let s = s_opt.unwrap();
            proof {
                lemma_frac_add(
                    s.num(), s.den(),
                    s1.num(), s1.den(),
                    self.z.num(), self.z.den(),
                    self.x.num() * self.y.den() + self.y.num() * self.x.den(),
                    self.x.den() * self.y.den(),
                );
                assert((self.x.num() * self.y.den() + self.y.num() * self.x.den()) * self.z.den()
                    + self.z.num() * (self.x.den() * self.y.den()) == xyz_sum_num(*self))
                    by (nonlinear_arith);
                assert((self.x.den() * self.y.den()) * self.z.den() == self.x.den() * (self.y.den()
                    * self.z.den())) by (nonlinear_arith);
            }
            let xx_opt: Option<Q> = self.x.div(s);
            if xx_opt.is_none() {
                return None;
            }
            let xx = xx_opt.unwrap();
            let yy_opt: Option<Q> = self.y.div(s);
            if yy_opt.is_none() {
                return None;
            }
            let yy = yy_opt.unwrap();
            proof {
                let cd = self.x.den() * (self.y.den() * self.z.den());
                lemma_frac_div_subst(
                    xx.num(), xx.den(),
                    self.x.num(), self.x.den(),
                    s.num(), s.den(),
                    xyz_sum_num(*self), cd,
                );
                lemma_frac_div_subst(
                    yy.num(), yy.den(),
                    self.y.num(), self.y.den(),
                    s.num(), s.den(),
                    xyz_sum_num(*self), cd,
                );
            }
            Some(Xyy { x: xx, y1: yy, y2: self.y })
        }
    }
}

/// CIE xy chromaticity extended with a luminance: a plain field copy.
pub fn xy_to_xyy(xy: &Chromaticity, y: Q) -> (r: Xyy)
    ensures
        r.x == xy.x,
        r.y1 == xy.y,
        r.y2 == y,
{
    Xyy { x: xy.x, y1: xy.y, y2: y }
}

/// CIE xy chromaticity to the tristimulus of the color with that
/// chromaticity and unit luminance.
pub fn xy_to_xyz(xy: &Chromaticity) -> (r: Option<Xyz>)
    requires
        xy.x.wf(),
        xy.y.wf(),
    ensures
        r.is_some() <==> xyy_to_xyz_ok(xy_to_xyz_arg(*xy)),
        r matches Some(v) ==> v.wf(),
        xy.y.num() == 0 ==> (r matches Some(v) && v.is_zero_spec()),
        xy.y.num() == 0 ==> (r matches Some(v) && v.x == crate::rational::q_int(0) && v.y
            == crate::rational::q_int(0) && v.z == crate::rational::q_int(0)),
        xy.y.num() != 0 ==> (r matches Some(v) ==> v.x == crate::rational::q_frac(xyy_to_xyz_x(
            xy_to_xyz_arg(*xy)).1, xyy_to_xyz_x(xy_to_xyz_arg(*xy)).2) && v.y
            == crate::rational::q_int(1) && v.z == crate::rational::q_frac(xyy_to_xyz_z(
            xy_to_xyz_arg(*xy)).1, xyy_to_xyz_z(xy_to_xyz_arg(*xy)).2)),
        xy.y.num() != 0 ==> (r matches Some(v) ==> v.x.num() * (xy.x.den() * xy.y.num()) == (
        xy.x.num() * xy.y.den()) * v.x.den()),
        xy.y.num() != 0 ==> (r matches Some(v) ==> v.y.num() == 1 && v.y.den() == 1),
        xy.y.num() != 0 ==> (r matches Some(v) ==> v.z.num() * ((xy.x.den() * xy.y.den())
            * xy.y.num()) == ((xy.x.den() * xy.y.den() - xy.x.num() * xy.y.den() - xy.y.num()
            * xy.x.den()) * xy.y.den()) * v.z.den()),
{
    let c = xy_to_xyy(xy, Q::from_int(1));
    let r = c.to_xyz();
    proof {
        if xy.y.num() != 0 && r is Some {
            let v = r.unwrap();
            assert(v.x.num() * (xy.x.den() * xy.y.num()) == (xy.x.num() * xy.y.den()) * v.x.den())
                by (nonlinear_arith)
                requires
                    v.x.num() * (xy.x.den() * 1 * xy.y.num()) == (xy.x.num() * 1 * xy.y.den())
                        * v.x.den(),
            ;
            assert(v.z.num() * ((xy.x.den() * xy.y.den()) * xy.y.num()) == ((xy.x.den() * xy.y.den()
                - xy.x.num() * xy.y.den() - xy.y.num() * xy.x.den()) * xy.y.den()) * v.z.den())
                by (nonlinear_arith)
                requires
                    v.z.num() * ((xy.x.den() * xy.y.den()) * 1 * xy.y.num()) == ((xy.x.den()
                        * xy.y.den() - xy.x.num() * xy.y.den() - xy.y.num() * xy.x.den()) * 1
                        * xy.y.den()) * v.z.den(),
            ;
        }
    }
    r
}

/// The xyY value that `xy_to_xyz` converts: the given chromaticity with
/// unit luminance.
pub open spec fn xy_to_xyz_arg(xy: Chromaticity) -> Xyy {
    Xyy { x: xy.x, y1: xy.y, y2: crate::rational::q_int(1) }
}

} // verus!

verus! {

/// Round trip: for a strictly positive tristimulus value `v`, converting
/// to xyY and back is the identity.  The hypotheses are exactly what the
/// contracts of `Xyz::to_xyy` and `Xyy::to_xyz` give for their results
/// `c` and `r`; the conclusion is that `r` has the same value as `v` in
/// every component.
pub proof fn lemma_xyy_round_trip(v: Xyz, c: Xyy, r: Xyz)
    requires
        v.wf(),
        c.wf(),
        r.wf(),
        v.x.num() > 0,
        v.y.num() > 0,
        v.z.num() > 0,
        c.x.num() * (v.x.den() * xyz_sum_num(v)) == (v.x.num() * (v.x.den() * (v.y.den()
            * v.z.den()))) * c.x.den(),
        c.y1.num() * (v.y.den() * xyz_sum_num(v)) == (v.y.num() * (v.x.den() * (v.y.den()
            * v.z.den()))) * c.y1.den(),
        c.y2 == v.y,
        r.x.num() * (c.x.den() * c.y2.den() * c.y1.num()) == (c.x.num() * c.y2.num() * c.y1.den())
            * r.x.den(),
        r.y == c.y2,
        r.z.num() * ((c.x.den() * c.y1.den()) * c.y2.den() * c.y1.num()) == ((c.x.den()
            * c.y1.den() - c.x.num() * c.y1.den() - c.y1.num() * c.x.den()) * c.y2.num()
            * c.y1.den()) * r.z.den(),
    ensures
        r.x.same_value(v.x),
        r.y == v.y,
        r.z.same_value(v.z),
{
    let xn = v.x.num();
    let xd = v.x.den();
    let yn = v.y.num();
    let yd = v.y.den();
    let zn = v.z.num();
    let zd = v.z.den();
    let s = xyz_sum_num(v);
    let cd = xd * (yd * zd);
    let cx = c.x.num();
    let cxd = c.x.den();
    let cy = c.y1.num();
    let cyd = c.y1.den();
    let rx = r.x.num();
    let rxd = r.x.den();
    let rz = r.z.num();
    let rzd = r.z.den();
    assert(s > 0) by (nonlinear_arith)
        requires
            s == xn * (yd * zd) + yn * (xd * zd) + zn * (xd * yd),
            xn > 0,
            yn > 0,
            zn > 0,
            xd >= 1,
            yd >= 1,
            zd >= 1,
    ;
    assert(cd >= 1) by (nonlinear_arith)
        requires
            cd == xd * (yd * zd),
            xd >= 1,
            yd >= 1,
            zd >= 1,
    ;
    assert(cy > 0) by (nonlinear_arith)
        requires
            cy * (yd * s) == (yn * cd) * cyd,
            yd >= 1,
            s > 0,
            yn > 0,
            cd >= 1,
            cyd >= 1,
    ;
    // x channel: rx * xd == xn * rxd
    assert(rx * (cxd * yd * cy) == (cx * yn * cyd) * rxd);
    assert((rx * (cxd * yd * cy)) * (xd * s) == ((cx * yn * cyd) * rxd) * (xd * s));
    assert(((cx * yn * cyd) * rxd) * (xd * s) == (cx * (xd * s)) * (yn * cyd * rxd))
        by (nonlinear_arith);
    assert((cx * (xd * s)) * (yn * cyd * rxd) == ((xn * cd) * cxd) * (yn * cyd * rxd));
    assert((rx * (cxd * yd * cy)) * (xd * s) == (rx * (xd * (cy * (yd * s)))) * cxd)
        by (nonlinear_arith);
    assert(((xn * cd) * cxd) * (yn * cyd * rxd) == ((xn * cd) * (yn * cyd * rxd)) * cxd)
        by (nonlinear_arith);
    crate::rational::lemma_mul_cancel(
        rx * (xd * (cy * (yd * s))),
        (xn * cd) * (yn * cyd * rxd),
        cxd,
    );
    assert(rx * (xd * (cy * (yd * s))) == rx * (xd * ((yn * cd) * cyd)));
    assert(rx * (xd * ((yn * cd) * cyd)) == (rx * xd) * ((yn * cd) * cyd)) by (nonlinear_arith);
    assert((xn * cd) * (yn * cyd * rxd) == (xn * rxd) * ((yn * cd) * cyd)) by (nonlinear_arith);
    assert((yn * cd) * cyd != 0) by (nonlinear_arith)
        requires
            yn > 0,
            cd >= 1,
            cyd >= 1,
    ;
    crate::rational::lemma_mul_cancel(rx * xd, xn * rxd, (yn * cd) * cyd);
    // z channel, first the value of the chromaticity remainder:
    // w * s == (zn * (xd * yd)) * (cxd * cyd)
    let w = cxd * cyd - cx * cyd - cy * cxd;
    let da = (cxd * cyd) * s;
    let db = (cx * cyd) * s;
    let dc = (cy * cxd) * s;
    let dd = xd * yd;
    assert(w * s == da - db - dc) by (nonlinear_arith)
        requires
            w == cxd * cyd - cx * cyd - cy * cxd,
            da == (cxd * cyd) * s,
            db == (cx * cyd) * s,
            dc == (cy * cxd) * s,
    ;
    assert((da - db - dc) * dd == da * dd - db * dd - dc * dd) by (nonlinear_arith);
    assert(da * dd == (cxd * cyd) * (s * (xd * yd))) by (nonlinear_arith)
        requires
            da == (cxd * cyd) * s,
            dd == xd * yd,
    ;
    assert(db * dd == (cx * (xd * s)) * (cyd * yd)) by (nonlinear_arith)
        requires
            db == (cx * cyd) * s,
            dd == xd * yd,
    ;
    assert(dc * dd == (cy * (yd * s)) * (cxd * xd)) by (nonlinear_arith)
        requires
            dc == (cy * cxd) * s,
            dd == xd * yd,
    ;
    assert((w * s) * (xd * yd) == (cxd * cyd) * (s * (xd * yd)) - ((cx * (xd * s)) * (cyd * yd) + (
    cy * (yd * s)) * (cxd * xd)));
    assert((cx * (xd * s)) * (cyd * yd) == ((xn * cd) * cxd) * (cyd * yd));
    assert((cy * (yd * s)) * (cxd * xd) == ((yn * cd) * cyd) * (cxd * xd));
    assert(((xn * cd) * cxd) * (cyd * yd) == (cxd * cyd) * (xn * (cd * yd))) by (nonlinear_arith);
    assert(((yn * cd) * cyd) * (cxd * xd) == (cxd * cyd) * (yn * (cd * xd))) by (nonlinear_arith);
    let ea = cxd * cyd;
    let ep = s * (xd * yd);
    let eq = xn * (cd * yd);
    let er = yn * (cd * xd);
    assert(ea * ep - (ea * eq + ea * er) == ea * (ep - eq - er)) by (nonlinear_arith);
    assert((cxd * cyd) * (s * (xd * yd)) - (((xn * cd) * cxd) * (cyd * yd) + ((yn * cd) * cyd) * (
    cxd * xd)) == (cxd * cyd) * ((s * (xd * yd) - xn * (cd * yd) - yn * (cd * xd))));
    let t1 = xn * (yd * zd);
    let t2 = yn * (xd * zd);
    let t3 = zn * (xd * yd);
    assert((t1 + t2 + t3) * dd == t1 * dd + t2 * dd + t3 * dd) by (nonlinear_arith);
    assert(xn * (cd * yd) == t1 * dd) by (nonlinear_arith)
        requires
            cd == xd * (yd * zd),
            t1 == xn * (yd * zd),
            dd == xd * yd,
    ;
    assert(yn * (cd * xd) == t2 * dd) by (nonlinear_arith)
        requires
            cd == xd * (yd * zd),
            t2 == yn * (xd * zd),
            dd == xd * yd,
    ;
    assert(s * (xd * yd) - xn * (cd * yd) - yn * (cd * xd) == (zn * (xd * yd)) * (xd * yd));
    assert((w * s) * (xd * yd) == ((cxd * cyd) * (zn * (xd * yd))) * (xd * yd))
        by (nonlinear_arith)
        requires
            (w * s) * (xd * yd) == (cxd * cyd) * ((zn * (xd * yd)) * (xd * yd)),
    ;
    assert(xd * yd != 0) by (nonlinear_arith)
        requires
            xd >= 1,
            yd >= 1,
    ;
    crate::rational::lemma_mul_cancel(w * s, (cxd * cyd) * (zn * (xd * yd)), xd * yd);
    // now the z result itself
    assert(rz * ((cxd * cyd) * yd * cy) == (w * yn * cyd) * rzd);
    assert((rz * ((cxd * cyd) * yd * cy)) * (s * s) == ((w * yn * cyd) * rzd) * (s * s));
    assert((rz * ((cxd * cyd) * yd * cy)) * (s * s) == (rz * ((cxd * cyd) * s)) * (cy * (yd * s)))
        by (nonlinear_arith);
    assert((rz * ((cxd * cyd) * s)) * (cy * (yd * s)) == (rz * ((cxd * cyd) * s)) * ((yn * cd)
        * cyd));
    assert(((w * yn * cyd) * rzd) * (s * s) == (w * s) * (yn * cyd * (rzd * s)))
        by (nonlinear_arith);
    assert((w * s) * (yn * cyd * (rzd * s)) == ((cxd * cyd) * (zn * (xd * yd))) * (yn * cyd * (rzd
        * s)));
    assert(((cxd * cyd) * (zn * (xd * yd))) * (yn * cyd * (rzd * s)) == ((zn * (xd * yd)) * (rzd
        * s)) * ((cxd * cyd) * (yn * cyd))) by (nonlinear_arith);
    let fp = cxd * cyd;
    let fk = yn * cyd;
    assert((yn * cd) * cyd == cd * fk) by (nonlinear_arith)
        requires
            fk == yn * cyd,
    ;
    assert((rz * (fp * s)) * (cd * fk) == ((rz * cd) * s) * (fp * fk)) by (nonlinear_arith);
    assert((rz * ((cxd * cyd) * s)) * ((yn * cd) * cyd) == ((rz * cd) * s) * ((cxd * cyd) * (yn
        * cyd)));
    assert((cxd * cyd) * (yn * cyd) != 0) by (nonlinear_arith)
        requires
            cxd >= 1,
            cyd >= 1,
            yn > 0,
    ;
    crate::rational::lemma_mul_cancel(
        (rz * cd) * s,
        ((zn * (xd * yd)) * (rzd * s)),
        (cxd * cyd) * (yn * cyd),
    );
    assert((rz * cd) * s == ((rz * zd) * (xd * yd)) * s) by (nonlinear_arith)
        requires
            cd == xd * (yd * zd),
    ;
    assert(((zn * (xd * yd)) * (rzd * s)) == ((zn * rzd) * (xd * yd)) * s) by (nonlinear_arith);
    assert((xd * yd) * s != 0) by (nonlinear_arith)
        requires
            xd >= 1,
            yd >= 1,
            s > 0,
    ;
    assert(((rz * zd) * (xd * yd)) * s == (rz * zd) * ((xd * yd) * s)) by (nonlinear_arith);
    assert(((zn * rzd) * (xd * yd)) * s == (zn * rzd) * ((xd * yd) * s)) by (nonlinear_arith);
    crate::rational::lemma_mul_cancel(rz * zd, zn * rzd, (xd * yd) * s);
}

} // verus!
