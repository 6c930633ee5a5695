//! Chromatic adaptation: the registry of cone-response matrices and the
//! generalized von Kries adaptation engine.

use vstd::prelude::*;
use crate::rational::{Q, q_frac};
use crate::matrix::{
    Mat3, FxMat, FxVec, to_fixed, to_fixed_spec, fx_dot, fx_dot_spec, fx_div, fx_div_spec, cof2,
    cof2_spec, fx_mul, fx_mul_spec, in_i128, SCALE, lemma_identity_scaling, lemma_unit_product,
};
use crate::models::Xyz;

verus! {

/// A named chromatic-adaptation method; each maps to a fixed cone-response
/// matrix.
#[derive(Clone, Copy, PartialEq, Eq, Structural, PartialOrd, Ord, Debug)]
pub enum AdaptationTransform {
    XYZScaling,
    VonKries,
    Bradford,
    Sharp,
    Fairchild,
    CMCCAT97,
    CMCCAT2000,
    CAT02,
    CAT02BrillSusstrunk,
    BiancoSchettini,
    BiancoSchettiniPC,
}

/// The published cone-response matrix of each adaptation method, in exact
/// rationals.  These constants are not normalized; normalization happens in
/// the adaptation algorithm.
pub open spec fn cone_matrix_spec(t: AdaptationTransform) -> Mat3 {
    match t {
            AdaptationTransform::XYZScaling => Mat3 { e00: q_frac(3, 1), e01: q_frac(3, 1), e02: q_frac(3, 1), e10: q_frac(3, 1), e11: q_frac(3, 1), e12: q_frac(3, 1), e20: q_frac(3, 1), e21: q_frac(3, 1), e22: q_frac(3, 1) },
            AdaptationTransform::VonKries => Mat3 { e00: q_frac(5003, 12500), e01: q_frac(1769, 2500), e02: q_frac(-8081, 100000), e10: q_frac(-2263, 10000), e11: q_frac(29133, 25000), e12: q_frac(457, 10000), e20: q_frac(0, 1), e21: q_frac(0, 1), e22: q_frac(45911, 50000) },
            AdaptationTransform::Bradford => Mat3 { e00: q_frac(8951, 10000), e01: q_frac(333, 1250), e02: q_frac(-807, 5000), e10: q_frac(-3751, 5000), e11: q_frac(3427, 2000), e12: q_frac(367, 10000), e20: q_frac(389, 10000), e21: q_frac(-137, 2000), e22: q_frac(1287, 1250) },
            AdaptationTransform::Sharp => Mat3 { e00: q_frac(6347, 5000), e01: q_frac(-247, 2500), e02: q_frac(-853, 5000), e10: q_frac(-2091, 2500), e11: q_frac(9003, 5000), e12: q_frac(357, 10000), e20: q_frac(297, 10000), e21: q_frac(-63, 2000), e22: q_frac(5009, 5000) },
            AdaptationTransform::Fairchild => Mat3 { e00: q_frac(4281, 5000), e01: q_frac(843, 2500), e02: q_frac(-967, 5000), e10: q_frac(-209, 250), e11: q_frac(18327, 10000), e12: q_frac(33, 10000), e20: q_frac(357, 10000), e21: q_frac(-469, 10000), e22: q_frac(632, 625) },
            AdaptationTransform::CMCCAT97 => Mat3 { e00: q_frac(8951, 10000), e01: q_frac(-3751, 5000), e02: q_frac(389, 10000), e10: q_frac(333, 1250), e11: q_frac(3427, 2000), e12: q_frac(137, 2000), e20: q_frac(-807, 5000), e21: q_frac(367, 10000), e22: q_frac(1287, 1250) },
            AdaptationTransform::CMCCAT2000 => Mat3 { e00: q_frac(3991, 5000), e01: q_frac(3389, 10000), e02: q_frac(-1371, 10000), e10: q_frac(-2959, 5000), e11: q_frac(1939, 1250), e12: q_frac(203, 5000), e20: q_frac(1, 1250), e21: q_frac(239, 10000), e22: q_frac(9753, 10000) },
            AdaptationTransform::CAT02 => Mat3 { e00: q_frac(458, 625), e01: q_frac(537, 1250), e02: q_frac(-203, 1250), e10: q_frac(-1759, 2500), e11: q_frac(679, 400), e12: q_frac(61, 10000), e20: q_frac(3, 1000), e21: q_frac(17, 1250), e22: q_frac(4917, 5000) },
            AdaptationTransform::CAT02BrillSusstrunk => Mat3 { e00: q_frac(458, 625), e01: q_frac(537, 1250), e02: q_frac(-203, 1250), e10: q_frac(-1759, 2500), e11: q_frac(679, 400), e12: q_frac(61, 10000), e20: q_frac(0, 1), e21: q_frac(0, 1), e22: q_frac(1, 1) },
            AdaptationTransform::BiancoSchettini => Mat3 { e00: q_frac(547, 625), e01: q_frac(2787, 10000), e02: q_frac(-1539, 10000), e10: q_frac(-1113, 1250), e11: q_frac(18709, 10000), e12: q_frac(39, 2000), e20: q_frac(-61, 10000), e21: q_frac(81, 5000), e22: q_frac(9899, 10000) },
            AdaptationTransform::BiancoSchettiniPC => Mat3 { e00: q_frac(6489, 10000), e01: q_frac(783, 2000), e02: q_frac(-101, 2500), e10: q_frac(-151, 400), e11: q_frac(2611, 2000), e12: q_frac(9, 125), e20: q_frac(-271, 10000), e21: q_frac(111, 1250), e22: q_frac(9383, 10000) },
    }
}

impl AdaptationTransform {
    /// The cone-response matrix of this adaptation method.  Total; returns
    /// the fixed constant of `cone_matrix_spec`.
    pub fn matrix(&self) -> (r: Mat3)
        ensures
            r == cone_matrix_spec(*self),
            r.wf(),
    {
        match *self {
            AdaptationTransform::XYZScaling => Mat3 { e00: Q::from_parts(3, 1), e01: Q::from_parts(3, 1), e02: Q::from_parts(3, 1), e10: Q::from_parts(3, 1), e11: Q::from_parts(3, 1), e12: Q::from_parts(3, 1), e20: Q::from_parts(3, 1), e21: Q::from_parts(3, 1), e22: Q::from_parts(3, 1) },
            AdaptationTransform::VonKries => Mat3 { e00: Q::from_parts(5003, 12500), e01: Q::from_parts(1769, 2500), e02: Q::from_parts(-8081, 100000), e10: Q::from_parts(-2263, 10000), e11: Q::from_parts(29133, 25000), e12: Q::from_parts(457, 10000), e20: Q::from_parts(0, 1), e21: Q::from_parts(0, 1), e22: Q::from_parts(45911, 50000) },
            AdaptationTransform::Bradford => Mat3 { e00: Q::from_parts(8951, 10000), e01: Q::from_parts(333, 1250), e02: Q::from_parts(-807, 5000), e10: Q::from_parts(-3751, 5000), e11: Q::from_parts(3427, 2000), e12: Q::from_parts(367, 10000), e20: Q::from_parts(389, 10000), e21: Q::from_parts(-137, 2000), e22: Q::from_parts(1287, 1250) },
            AdaptationTransform::Sharp => Mat3 { e00: Q::from_parts(6347, 5000), e01: Q::from_parts(-247, 2500), e02: Q::from_parts(-853, 5000), e10: Q::from_parts(-2091, 2500), e11: Q::from_parts(9003, 5000), e12: Q::from_parts(357, 10000), e20: Q::from_parts(297, 10000), e21: Q::from_parts(-63, 2000), e22: Q::from_parts(5009, 5000) },
            AdaptationTransform::Fairchild => Mat3 { e00: Q::from_parts(4281, 5000), e01: Q::from_parts(843, 2500), e02: Q::from_parts(-967, 5000), e10: Q::from_parts(-209, 250), e11: Q::from_parts(18327, 10000), e12: Q::from_parts(33, 10000), e20: Q::from_parts(357, 10000), e21: Q::from_parts(-469, 10000), e22: Q::from_parts(632, 625) },
            AdaptationTransform::CMCCAT97 => Mat3 { e00: Q::from_parts(8951, 10000), e01: Q::from_parts(-3751, 5000), e02: Q::from_parts(389, 10000), e10: Q::from_parts(333, 1250), e11: Q::from_parts(3427, 2000), e12: Q::from_parts(137, 2000), e20: Q::from_parts(-807, 5000), e21: Q::from_parts(367, 10000), e22: Q::from_parts(1287, 1250) },
            AdaptationTransform::CMCCAT2000 => Mat3 { e00: Q::from_parts(3991, 5000), e01: Q::from_parts(3389, 10000), e02: Q::from_parts(-1371, 10000), e10: Q::from_parts(-2959, 5000), e11: Q::from_parts(1939, 1250), e12: Q::from_parts(203, 5000), e20: Q::from_parts(1, 1250), e21: Q::from_parts(239, 10000), e22: Q::from_parts(9753, 10000) },
            AdaptationTransform::CAT02 => Mat3 { e00: Q::from_parts(458, 625), e01: Q::from_parts(537, 1250), e02: Q::from_parts(-203, 1250), e10: Q::from_parts(-1759, 2500), e11: Q::from_parts(679, 400), e12: Q::from_parts(61, 10000), e20: Q::from_parts(3, 1000), e21: Q::from_parts(17, 1250), e22: Q::from_parts(4917, 5000) },
            AdaptationTransform::CAT02BrillSusstrunk => Mat3 { e00: Q::from_parts(458, 625), e01: Q::from_parts(537, 1250), e02: Q::from_parts(-203, 1250), e10: Q::from_parts(-1759, 2500), e11: Q::from_parts(679, 400), e12: Q::from_parts(61, 10000), e20: Q::from_parts(0, 1), e21: Q::from_parts(0, 1), e22: Q::from_parts(1, 1) },
            AdaptationTransform::BiancoSchettini => Mat3 { e00: Q::from_parts(547, 625), e01: Q::from_parts(2787, 10000), e02: Q::from_parts(-1539, 10000), e10: Q::from_parts(-1113, 1250), e11: Q::from_parts(18709, 10000), e12: Q::from_parts(39, 2000), e20: Q::from_parts(-61, 10000), e21: Q::from_parts(81, 5000), e22: Q::from_parts(9899, 10000) },
            AdaptationTransform::BiancoSchettiniPC => Mat3 { e00: Q::from_parts(6489, 10000), e01: Q::from_parts(783, 2000), e02: Q::from_parts(-101, 2500), e10: Q::from_parts(-151, 400), e11: Q::from_parts(2611, 2000), e12: Q::from_parts(9, 125), e20: Q::from_parts(-271, 10000), e21: Q::from_parts(111, 1250), e22: Q::from_parts(9383, 10000) },
        }
    }
}

} // verus!

verus! {

/// Failures of the adaptation engine.
#[derive(Clone, Copy, PartialEq, Eq, Structural, Debug)]
pub enum AdaptError {
    /// A reference white's cone-projected component is zero, so the
    /// diagonal scaling is undefined.
    DegenerateWhitePoint,
    /// The cone-response matrix has no inverse at the working precision.
    SingularMatrix,
    /// A fixed-point intermediate value overflowed an `i128`.
    Precision,
}

/// Mirror of `mat_to_fixed`.
pub open spec fn mat_to_fixed_spec(m: Mat3) -> Option<FxMat> {
    let ve00 = to_fixed_spec(m.e00);
    let ve01 = to_fixed_spec(m.e01);
    let ve02 = to_fixed_spec(m.e02);
    let ve10 = to_fixed_spec(m.e10);
    let ve11 = to_fixed_spec(m.e11);
    let ve12 = to_fixed_spec(m.e12);
    let ve20 = to_fixed_spec(m.e20);
    let ve21 = to_fixed_spec(m.e21);
    let ve22 = to_fixed_spec(m.e22);
    if ve00 is None || ve01 is None || ve02 is None || ve10 is None || ve11 is None || ve12 is None || ve20 is None || ve21 is None || ve22 is None {
        None
    } else {
        Some(FxMat { e00: ve00.unwrap() as i128, e01: ve01.unwrap() as i128, e02: ve02.unwrap() as i128, e10: ve10.unwrap() as i128, e11: ve11.unwrap() as i128, e12: ve12.unwrap() as i128, e20: ve20.unwrap() as i128, e21: ve21.unwrap() as i128, e22: ve22.unwrap() as i128 })
    }
}

/// The fixed-point form of a rational matrix.
pub fn mat_to_fixed(m: &Mat3) -> (r: Option<FxMat>)
    requires
        m.wf(),
    ensures
        r == mat_to_fixed_spec(*m),
{
    let ve00_opt: Option<i128> = to_fixed(&m.e00);
    if ve00_opt.is_none() {
        return None;
    }
    let ve00: i128 = ve00_opt.unwrap();
    let ve01_opt: Option<i128> = to_fixed(&m.e01);
    if ve01_opt.is_none() {
        return None;
    }
    let ve01: i128 = ve01_opt.unwrap();
    let ve02_opt: Option<i128> = to_fixed(&m.e02);
    if ve02_opt.is_none() {
        return None;
    }
    let ve02: i128 = ve02_opt.unwrap();
    let ve10_opt: Option<i128> = to_fixed(&m.e10);
    if ve10_opt.is_none() {
        return None;
    }
    let ve10: i128 = ve10_opt.unwrap();
    let ve11_opt: Option<i128> = to_fixed(&m.e11);
    if ve11_opt.is_none() {
        return None;
    }
    let ve11: i128 = ve11_opt.unwrap();
    let ve12_opt: Option<i128> = to_fixed(&m.e12);
    if ve12_opt.is_none() {
        return None;
    }
    let ve12: i128 = ve12_opt.unwrap();
    let ve20_opt: Option<i128> = to_fixed(&m.e20);
    if ve20_opt.is_none() {
        return None;
    }
    let ve20: i128 = ve20_opt.unwrap();
    let ve21_opt: Option<i128> = to_fixed(&m.e21);
    if ve21_opt.is_none() {
        return None;
    }
    let ve21: i128 = ve21_opt.unwrap();
    let ve22_opt: Option<i128> = to_fixed(&m.e22);
    if ve22_opt.is_none() {
        return None;
    }
    let ve22: i128 = ve22_opt.unwrap();
    Some(FxMat { e00: ve00, e01: ve01, e02: ve02, e10: ve10, e11: ve11, e12: ve12, e20: ve20, e21: ve21, e22: ve22 })
}

/// Mirror of `xyz_to_fixed`.
pub open spec fn xyz_to_fixed_spec(v: Xyz) -> Option<FxVec> {
    let vx = to_fixed_spec(v.x);
    let vy = to_fixed_spec(v.y);
    let vz = to_fixed_spec(v.z);
    if vx is None || vy is None || vz is None {
        None
    } else {
        Some(FxVec { x: vx.unwrap() as i128, y: vy.unwrap() as i128, z: vz.unwrap() as i128 })
    }
}

/// The fixed-point form of a tristimulus value.
pub fn xyz_to_fixed(v: &Xyz) -> (r: Option<FxVec>)
    requires
        v.wf(),
    ensures
        r == xyz_to_fixed_spec(*v),
{
    let vx_opt: Option<i128> = to_fixed(&v.x);
    if vx_opt.is_none() {
        return None;
    }
    let vy_opt: Option<i128> = to_fixed(&v.y);
    if vy_opt.is_none() {
        return None;
    }
    let vz_opt: Option<i128> = to_fixed(&v.z);
    if vz_opt.is_none() {
        return None;
    }
    Some(FxVec { x: vx_opt.unwrap(), y: vy_opt.unwrap(), z: vz_opt.unwrap() })
}

/// Mirror of `fx_mat_vec`.
pub open spec fn fx_mat_vec_spec(m: FxMat, v: FxVec) -> Option<FxVec> {
    let r0 = fx_dot_spec(m.e00 as int, m.e01 as int, m.e02 as int, v.x as int, v.y as int, v.z as int);
    let r1 = fx_dot_spec(m.e10 as int, m.e11 as int, m.e12 as int, v.x as int, v.y as int, v.z as int);
    let r2 = fx_dot_spec(m.e20 as int, m.e21 as int, m.e22 as int, v.x as int, v.y as int, v.z as int);
    if r0 is None || r1 is None || r2 is None {
        None
    } else {
        Some(FxVec { x: r0.unwrap() as i128, y: r1.unwrap() as i128, z: r2.unwrap() as i128 })
    }
}

/// A matrix applied to a vector, in fixed point.
pub fn fx_mat_vec(m: &FxMat, v: &FxVec) -> (r: Option<FxVec>)
    ensures
        r == fx_mat_vec_spec(*m, *v),
{
    let r0_opt: Option<i128> = fx_dot(m.e00, m.e01, m.e02, v.x, v.y, v.z);
    if r0_opt.is_none() {
        return None;
    }
    let r0: i128 = r0_opt.unwrap();
    let r1_opt: Option<i128> = fx_dot(m.e10, m.e11, m.e12, v.x, v.y, v.z);
    if r1_opt.is_none() {
        return None;
    }
    let r1: i128 = r1_opt.unwrap();
    let r2_opt: Option<i128> = fx_dot(m.e20, m.e21, m.e22, v.x, v.y, v.z);
    if r2_opt.is_none() {
        return None;
    }
    let r2: i128 = r2_opt.unwrap();
    Some(FxVec { x: r0, y: r1, z: r2 })
}

/// Mirror of `fx_diag_times`.
pub open spec fn fx_diag_times_spec(d: FxVec, m: FxMat) -> Option<FxMat> {
    let ve00 = fx_mul_spec(d.x as int, m.e00 as int);
    let ve01 = fx_mul_spec(d.x as int, m.e01 as int);
    let ve02 = fx_mul_spec(d.x as int, m.e02 as int);
    let ve10 = fx_mul_spec(d.y as int, m.e10 as int);
    let ve11 = fx_mul_spec(d.y as int, m.e11 as int);
    let ve12 = fx_mul_spec(d.y as int, m.e12 as int);
    let ve20 = fx_mul_spec(d.z as int, m.e20 as int);
    let ve21 = fx_mul_spec(d.z as int, m.e21 as int);
    let ve22 = fx_mul_spec(d.z as int, m.e22 as int);
    if ve00 is None || ve01 is None || ve02 is None || ve10 is None || ve11 is None || ve12 is None || ve20 is None || ve21 is None || ve22 is None {
        None
    } else {
        Some(FxMat { e00: ve00.unwrap() as i128, e01: ve01.unwrap() as i128, e02: ve02.unwrap() as i128, e10: ve10.unwrap() as i128, e11: ve11.unwrap() as i128, e12: ve12.unwrap() as i128, e20: ve20.unwrap() as i128, e21: ve21.unwrap() as i128, e22: ve22.unwrap() as i128 })
    }
}

/// A diagonal matrix (given by its diagonal) times a matrix, in fixed
/// point.
pub fn fx_diag_times(d: &FxVec, m: &FxMat) -> (r: Option<FxMat>)
    ensures
        r == fx_diag_times_spec(*d, *m),
{
    let ve00_opt: Option<i128> = fx_mul(d.x, m.e00);
    if ve00_opt.is_none() {
        return None;
    }
    let ve00: i128 = ve00_opt.unwrap();
    let ve01_opt: Option<i128> = fx_mul(d.x, m.e01);
    if ve01_opt.is_none() {
        return None;
    }
    let ve01: i128 = ve01_opt.unwrap();
    let ve02_opt: Option<i128> = fx_mul(d.x, m.e02);
    if ve02_opt.is_none() {
        return None;
    }
    let ve02: i128 = ve02_opt.unwrap();
    let ve10_opt: Option<i128> = fx_mul(d.y, m.e10);
    if ve10_opt.is_none() {
        return None;
    }
    let ve10: i128 = ve10_opt.unwrap();
    let ve11_opt: Option<i128> = fx_mul(d.y, m.e11);
    if ve11_opt.is_none() {
        return None;
    }
    let ve11: i128 = ve11_opt.unwrap();
    let ve12_opt: Option<i128> = fx_mul(d.y, m.e12);
    if ve12_opt.is_none() {
        return None;
    }
    let ve12: i128 = ve12_opt.unwrap();
    let ve20_opt: Option<i128> = fx_mul(d.z, m.e20);
    if ve20_opt.is_none() {
        return None;
    }
    let ve20: i128 = ve20_opt.unwrap();
    let ve21_opt: Option<i128> = fx_mul(d.z, m.e21);
    if ve21_opt.is_none() {
        return None;
    }
    let ve21: i128 = ve21_opt.unwrap();
    let ve22_opt: Option<i128> = fx_mul(d.z, m.e22);
    if ve22_opt.is_none() {
        return None;
    }
    let ve22: i128 = ve22_opt.unwrap();
    Some(FxMat { e00: ve00, e01: ve01, e02: ve02, e10: ve10, e11: ve11, e12: ve12, e20: ve20, e21: ve21, e22: ve22 })
}

/// Mirror of `fx_mat_mul`.
pub open spec fn fx_mat_mul_spec(a: FxMat, b: FxMat) -> Option<FxMat> {
    let ve00 = fx_dot_spec(a.e00 as int, a.e01 as int, a.e02 as int, b.e00 as int, b.e10 as int, b.e20 as int);
    let ve01 = fx_dot_spec(a.e00 as int, a.e01 as int, a.e02 as int, b.e01 as int, b.e11 as int, b.e21 as int);
    let ve02 = fx_dot_spec(a.e00 as int, a.e01 as int, a.e02 as int, b.e02 as int, b.e12 as int, b.e22 as int);
    let ve10 = fx_dot_spec(a.e10 as int, a.e11 as int, a.e12 as int, b.e00 as int, b.e10 as int, b.e20 as int);
    let ve11 = fx_dot_spec(a.e10 as int, a.e11 as int, a.e12 as int, b.e01 as int, b.e11 as int, b.e21 as int);
    let ve12 = fx_dot_spec(a.e10 as int, a.e11 as int, a.e12 as int, b.e02 as int, b.e12 as int, b.e22 as int);
    let ve20 = fx_dot_spec(a.e20 as int, a.e21 as int, a.e22 as int, b.e00 as int, b.e10 as int, b.e20 as int);
    let ve21 = fx_dot_spec(a.e20 as int, a.e21 as int, a.e22 as int, b.e01 as int, b.e11 as int, b.e21 as int);
    let ve22 = fx_dot_spec(a.e20 as int, a.e21 as int, a.e22 as int, b.e02 as int, b.e12 as int, b.e22 as int);
    if ve00 is None || ve01 is None || ve02 is None || ve10 is None || ve11 is None || ve12 is None || ve20 is None || ve21 is None || ve22 is None {
        None
    } else {
        Some(FxMat { e00: ve00.unwrap() as i128, e01: ve01.unwrap() as i128, e02: ve02.unwrap() as i128, e10: ve10.unwrap() as i128, e11: ve11.unwrap() as i128, e12: ve12.unwrap() as i128, e20: ve20.unwrap() as i128, e21: ve21.unwrap() as i128, e22: ve22.unwrap() as i128 })
    }
}

/// The product of two matrices, in fixed point.
pub fn fx_mat_mul(a: &FxMat, b: &FxMat) -> (r: Option<FxMat>)
    ensures
        r == fx_mat_mul_spec(*a, *b),
{
    let ve00_opt: Option<i128> = fx_dot(a.e00, a.e01, a.e02, b.e00, b.e10, b.e20);
    if ve00_opt.is_none() {
        return None;
    }
    let ve00: i128 = ve00_opt.unwrap();
    let ve01_opt: Option<i128> = fx_dot(a.e00, a.e01, a.e02, b.e01, b.e11, b.e21);
    if ve01_opt.is_none() {
        return None;
    }
    let ve01: i128 = ve01_opt.unwrap();
    let ve02_opt: Option<i128> = fx_dot(a.e00, a.e01, a.e02, b.e02, b.e12, b.e22);
    if ve02_opt.is_none() {
        return None;
    }
    let ve02: i128 = ve02_opt.unwrap();
    let ve10_opt: Option<i128> = fx_dot(a.e10, a.e11, a.e12, b.e00, b.e10, b.e20);
    if ve10_opt.is_none() {
        return None;
    }
    let ve10: i128 = ve10_opt.unwrap();
    let ve11_opt: Option<i128> = fx_dot(a.e10, a.e11, a.e12, b.e01, b.e11, b.e21);
    if ve11_opt.is_none() {
        return None;
    }
    let ve11: i128 = ve11_opt.unwrap();
    let ve12_opt: Option<i128> = fx_dot(a.e10, a.e11, a.e12, b.e02, b.e12, b.e22);
    if ve12_opt.is_none() {
        return None;
    }
    let ve12: i128 = ve12_opt.unwrap();
    let ve20_opt: Option<i128> = fx_dot(a.e20, a.e21, a.e22, b.e00, b.e10, b.e20);
    if ve20_opt.is_none() {
        return None;
    }
    let ve20: i128 = ve20_opt.unwrap();
    let ve21_opt: Option<i128> = fx_dot(a.e20, a.e21, a.e22, b.e01, b.e11, b.e21);
    if ve21_opt.is_none() {
        return None;
    }
    let ve21: i128 = ve21_opt.unwrap();
    let ve22_opt: Option<i128> = fx_dot(a.e20, a.e21, a.e22, b.e02, b.e12, b.e22);
    if ve22_opt.is_none() {
        return None;
    }
    let ve22: i128 = ve22_opt.unwrap();
    Some(FxMat { e00: ve00, e01: ve01, e02: ve02, e10: ve10, e11: ve11, e12: ve12, e20: ve20, e21: ve21, e22: ve22 })
}

/// Mirror of `fx_inverse`.
pub open spec fn fx_inverse_spec(m: FxMat) -> Result<FxMat, AdaptError> {
    let c00 = cof2_spec(m.e11 as int, m.e22 as int, m.e12 as int, m.e21 as int);
    let c01 = cof2_spec(m.e12 as int, m.e20 as int, m.e10 as int, m.e22 as int);
    let c02 = cof2_spec(m.e10 as int, m.e21 as int, m.e11 as int, m.e20 as int);
    let c10 = cof2_spec(m.e02 as int, m.e21 as int, m.e01 as int, m.e22 as int);
    let c11 = cof2_spec(m.e00 as int, m.e22 as int, m.e02 as int, m.e20 as int);
    let c12 = cof2_spec(m.e01 as int, m.e20 as int, m.e00 as int, m.e21 as int);
    let c20 = cof2_spec(m.e01 as int, m.e12 as int, m.e02 as int, m.e11 as int);
    let c21 = cof2_spec(m.e02 as int, m.e10 as int, m.e00 as int, m.e12 as int);
    let c22 = cof2_spec(m.e00 as int, m.e11 as int, m.e01 as int, m.e10 as int);
    if c00 is None || c01 is None || c02 is None || c10 is None || c11 is None || c12 is None || c20 is None || c21 is None || c22 is None {
        Err(AdaptError::Precision)
    } else {
        let det = fx_dot_spec(m.e00 as int, m.e01 as int, m.e02 as int, c00.unwrap(), c01.unwrap(),
            c02.unwrap());
        if det is None {
            Err(AdaptError::Precision)
        } else if det.unwrap() == 0 {
            Err(AdaptError::SingularMatrix)
        } else {
    let ie00 = fx_div_spec(c00.unwrap(), det.unwrap());
    let ie01 = fx_div_spec(c10.unwrap(), det.unwrap());
    let ie02 = fx_div_spec(c20.unwrap(), det.unwrap());
    let ie10 = fx_div_spec(c01.unwrap(), det.unwrap());
    let ie11 = fx_div_spec(c11.unwrap(), det.unwrap());
    let ie12 = fx_div_spec(c21.unwrap(), det.unwrap());
    let ie20 = fx_div_spec(c02.unwrap(), det.unwrap());
    let ie21 = fx_div_spec(c12.unwrap(), det.unwrap());
    let ie22 = fx_div_spec(c22.unwrap(), det.unwrap());
            if ie00 is None || ie01 is None || ie02 is None || ie10 is None || ie11 is None || ie12 is None || ie20 is None || ie21 is None || ie22 is None {
                Err(AdaptError::Precision)
            } else {
                Ok(FxMat { e00: ie00.unwrap() as i128, e01: ie01.unwrap() as i128, e02: ie02.unwrap() as i128, e10: ie10.unwrap() as i128, e11: ie11.unwrap() as i128, e12: ie12.unwrap() as i128, e20: ie20.unwrap() as i128, e21: ie21.unwrap() as i128, e22: ie22.unwrap() as i128 })
            }
        }
    }
}

/// The inverse of a matrix, in fixed point, by the adjugate and the
/// determinant; a zero determinant is a `SingularMatrix` error.
pub fn fx_inverse(m: &FxMat) -> (r: Result<FxMat, AdaptError>)
    ensures
        r == fx_inverse_spec(*m),
{
    let c00_opt: Option<i128> = cof2(m.e11, m.e22, m.e12, m.e21);
    if c00_opt.is_none() {
        return Err(AdaptError::Precision);
    }
    let c00: i128 = c00_opt.unwrap();
    let c01_opt: Option<i128> = cof2(m.e12, m.e20, m.e10, m.e22);
    if c01_opt.is_none() {
        return Err(AdaptError::Precision);
    }
    let c01: i128 = c01_opt.unwrap();
    let c02_opt: Option<i128> = cof2(m.e10, m.e21, m.e11, m.e20);
    if c02_opt.is_none() {
        return Err(AdaptError::Precision);
    }
    let c02: i128 = c02_opt.unwrap();
    let c10_opt: Option<i128> = cof2(m.e02, m.e21, m.e01, m.e22);
    if c10_opt.is_none() {
        return Err(AdaptError::Precision);
    }
    let c10: i128 = c10_opt.unwrap();
    let c11_opt: Option<i128> = cof2(m.e00, m.e22, m.e02, m.e20);
    if c11_opt.is_none() {
        return Err(AdaptError::Precision);
    }
    let c11: i128 = c11_opt.unwrap();
    let c12_opt: Option<i128> = cof2(m.e01, m.e20, m.e00, m.e21);
    if c12_opt.is_none() {
        return Err(AdaptError::Precision);
    }
    let c12: i128 = c12_opt.unwrap();
    let c20_opt: Option<i128> = cof2(m.e01, m.e12, m.e02, m.e11);
    if c20_opt.is_none() {
        return Err(AdaptError::Precision);
    }
    let c20: i128 = c20_opt.unwrap();
    let c21_opt: Option<i128> = cof2(m.e02, m.e10, m.e00, m.e12);
    if c21_opt.is_none() {
        return Err(AdaptError::Precision);
    }
    let c21: i128 = c21_opt.unwrap();
    let c22_opt: Option<i128> = cof2(m.e00, m.e11, m.e01, m.e10);
    if c22_opt.is_none() {
        return Err(AdaptError::Precision);
    }
    let c22: i128 = c22_opt.unwrap();
    let det_opt: Option<i128> = fx_dot(m.e00, m.e01, m.e02, c00, c01, c02);
    if det_opt.is_none() {
        return Err(AdaptError::Precision);
    }
    let det: i128 = det_opt.unwrap();
    if det == 0 {
        return Err(AdaptError::SingularMatrix);
    }
    let ie00_opt: Option<i128> = fx_div(c00, det);
    if ie00_opt.is_none() {
        return Err(AdaptError::Precision);
    }
    let ie00: i128 = ie00_opt.unwrap();
    let ie01_opt: Option<i128> = fx_div(c10, det);
    if ie01_opt.is_none() {
        return Err(AdaptError::Precision);
    }
    let ie01: i128 = ie01_opt.unwrap();
    let ie02_opt: Option<i128> = fx_div(c20, det);
    if ie02_opt.is_none() {
        return Err(AdaptError::Precision);
    }
    let ie02: i128 = ie02_opt.unwrap();
    let ie10_opt: Option<i128> = fx_div(c01, det);
    if ie10_opt.is_none() {
        return Err(AdaptError::Precision);
    }
    let ie10: i128 = ie10_opt.unwrap();
    let ie11_opt: Option<i128> = fx_div(c11, det);
    if ie11_opt.is_none() {
        return Err(AdaptError::Precision);
    }
    let ie11: i128 = ie11_opt.unwrap();
    let ie12_opt: Option<i128> = fx_div(c21, det);
    if ie12_opt.is_none() {
        return Err(AdaptError::Precision);
    }
    let ie12: i128 = ie12_opt.unwrap();
    let ie20_opt: Option<i128> = fx_div(c02, det);
    if ie20_opt.is_none() {
        return Err(AdaptError::Precision);
    }
    let ie20: i128 = ie20_opt.unwrap();
    let ie21_opt: Option<i128> = fx_div(c12, det);
    if ie21_opt.is_none() {
        return Err(AdaptError::Precision);
    }
    let ie21: i128 = ie21_opt.unwrap();
    let ie22_opt: Option<i128> = fx_div(c22, det);
    if ie22_opt.is_none() {
        return Err(AdaptError::Precision);
    }
    let ie22: i128 = ie22_opt.unwrap();
    Ok(FxMat { e00: ie00, e01: ie01, e02: ie02, e10: ie10, e11: ie11, e12: ie12, e20: ie20, e21: ie21, e22: ie22 })
}

} // verus!

verus! {

/// Mirror of `adaptation_matrix`.
pub open spec fn adaptation_matrix_spec(t: AdaptationTransform, ws: Xyz, wd: Xyz) -> Result<
    FxMat,
    AdaptError,
> {
    let mf = mat_to_fixed_spec(cone_matrix_spec(t));
    if mf is None {
        Err(AdaptError::Precision)
    } else {
        let wsf = xyz_to_fixed_spec(ws);
        let wdf = xyz_to_fixed_spec(wd);
        if wsf is None || wdf is None {
            Err(AdaptError::Precision)
        } else {
            let cs = fx_mat_vec_spec(mf.unwrap(), wsf.unwrap());
            let cd = fx_mat_vec_spec(mf.unwrap(), wdf.unwrap());
            if cs is None || cd is None {
                Err(AdaptError::Precision)
            } else if cs.unwrap().x == 0 || cs.unwrap().y == 0 || cs.unwrap().z == 0 {
                Err(AdaptError::DegenerateWhitePoint)
            } else {
                let d0 = fx_div_spec(cd.unwrap().x as int, cs.unwrap().x as int);
                let d1 = fx_div_spec(cd.unwrap().y as int, cs.unwrap().y as int);
                let d2 = fx_div_spec(cd.unwrap().z as int, cs.unwrap().z as int);
                if d0 is None || d1 is None || d2 is None {
                    Err(AdaptError::Precision)
                } else {
                    match fx_inverse_spec(mf.unwrap()) {
                        Err(e) => Err(e),
                        Ok(minv) => {
                            let diag = FxVec {
                                x: d0.unwrap() as i128,
                                y: d1.unwrap() as i128,
                                z: d2.unwrap() as i128,
                            };
                            let dm = fx_diag_times_spec(diag, mf.unwrap());
                            if dm is None {
                                Err(AdaptError::Precision)
                            } else {
                                let a = fx_mat_mul_spec(minv, dm.unwrap());
                                if a is None {
                                    Err(AdaptError::Precision)
                                } else {
                                    Ok(a.unwrap())
                                }
                            }
                        },
                    }
                }
            }
        }
    }
}

/// The generalized von Kries adaptation matrix, in fixed point.
///
/// Given the cone-response matrix `M` of the chosen method and the source
/// and destination reference whites `ws`, `wd` (as exact tristimulus
/// values), this computes `M^-1 * D * M`, where `D` is the diagonal matrix
/// of ratios of the two whites' cone responses.  A zero cone response of
/// the source white is a `DegenerateWhitePoint` error; a cone matrix with
/// zero determinant is a `SingularMatrix` error; a fixed-point overflow is
/// a `Precision` error.  The result and each error case are pinned exactly
/// by `adaptation_matrix_spec`.
pub fn adaptation_matrix(t: AdaptationTransform, ws: &Xyz, wd: &Xyz) -> (r: Result<
    FxMat,
    AdaptError,
>)
    requires
        ws.wf(),
        wd.wf(),
    ensures
        r == adaptation_matrix_spec(t, *ws, *wd),
{
    let m: Mat3 = t.matrix();
    let mf_opt: Option<FxMat> = mat_to_fixed(&m);
    if mf_opt.is_none() {
        return Err(AdaptError::Precision);
    }
    let mf: FxMat = mf_opt.unwrap();
    let wsf_opt: Option<FxVec> = xyz_to_fixed(ws);
    if wsf_opt.is_none() {
        return Err(AdaptError::Precision);
    }
    let wdf_opt: Option<FxVec> = xyz_to_fixed(wd);
    if wdf_opt.is_none() {
        return Err(AdaptError::Precision);
    }
    let cs_opt: Option<FxVec> = fx_mat_vec(&mf, &wsf_opt.unwrap());
    if cs_opt.is_none() {
        return Err(AdaptError::Precision);
    }
    let cd_opt: Option<FxVec> = fx_mat_vec(&mf, &wdf_opt.unwrap());
    if cd_opt.is_none() {
        return Err(AdaptError::Precision);
    }
    let cs: FxVec = cs_opt.unwrap();
    let cd: FxVec = cd_opt.unwrap();
    if cs.x == 0 || cs.y == 0 || cs.z == 0 {
        return Err(AdaptError::DegenerateWhitePoint);
    }
    let d0_opt: Option<i128> = fx_div(cd.x, cs.x);
    let d1_opt: Option<i128> = fx_div(cd.y, cs.y);
    let d2_opt: Option<i128> = fx_div(cd.z, cs.z);
    if d0_opt.is_none() || d1_opt.is_none() || d2_opt.is_none() {
        return Err(AdaptError::Precision);
    }
    let minv: FxMat = match fx_inverse(&mf) {
        Err(e) => {
            return Err(e);
        },
        Ok(mi) => mi,
    };
    let diag = FxVec { x: d0_opt.unwrap(), y: d1_opt.unwrap(), z: d2_opt.unwrap() };
    let dm_opt: Option<FxMat> = fx_diag_times(&diag, &mf);
    if dm_opt.is_none() {
        return Err(AdaptError::Precision);
    }
    let a_opt: Option<FxMat> = fx_mat_mul(&minv, &dm_opt.unwrap());
    if a_opt.is_none() {
        return Err(AdaptError::Precision);
    }
    Ok(a_opt.unwrap())
}

} // verus!

verus! {

/// Identity scaling of a whole matrix: multiplying by a diagonal of exact
/// fixed-point ones changes nothing.
proof fn lemma_unit_diag_times(m: FxMat)
    requires
        in_i128(SCALE as int * (m.e00 as int)),
        in_i128(SCALE as int * (m.e01 as int)),
        in_i128(SCALE as int * (m.e02 as int)),
        in_i128(SCALE as int * (m.e10 as int)),
        in_i128(SCALE as int * (m.e11 as int)),
        in_i128(SCALE as int * (m.e12 as int)),
        in_i128(SCALE as int * (m.e20 as int)),
        in_i128(SCALE as int * (m.e21 as int)),
        in_i128(SCALE as int * (m.e22 as int)),
    ensures
        fx_diag_times_spec(FxVec { x: SCALE, y: SCALE, z: SCALE }, m) == Some(m),
{
    lemma_unit_product(m.e00);
    lemma_unit_product(m.e01);
    lemma_unit_product(m.e02);
    lemma_unit_product(m.e10);
    lemma_unit_product(m.e11);
    lemma_unit_product(m.e12);
    lemma_unit_product(m.e20);
    lemma_unit_product(m.e21);
    lemma_unit_product(m.e22);
    assert(fx_diag_times_spec(FxVec { x: SCALE, y: SCALE, z: SCALE }, m).unwrap() == m);
}

/// Identity adaptation: when the source and destination reference whites
/// coincide (and their cone responses are positive and in range), the von
/// Kries diagonal is exactly the identity scaling, and the adaptation
/// matrix reduces to the composition of the cone matrix with its own
/// inverse -- no scaling is applied to any channel.
pub proof fn lemma_identity_adaptation(t: AdaptationTransform, w: Xyz)
    requires
        mat_to_fixed_spec(cone_matrix_spec(t)) is Some,
        xyz_to_fixed_spec(w) is Some,
        fx_mat_vec_spec(mat_to_fixed_spec(cone_matrix_spec(t)).unwrap(), xyz_to_fixed_spec(w).unwrap()) is Some,
        ({
            let cs = fx_mat_vec_spec(
                mat_to_fixed_spec(cone_matrix_spec(t)).unwrap(),
                xyz_to_fixed_spec(w).unwrap(),
            ).unwrap();
            cs.x > 0 && cs.y > 0 && cs.z > 0 && in_i128(cs.x as int * (SCALE as int)) && in_i128(
                cs.y as int * (SCALE as int),
            ) && in_i128(cs.z as int * (SCALE as int))
        }),
        ({
            let mf = mat_to_fixed_spec(cone_matrix_spec(t)).unwrap();
            in_i128(SCALE as int * (mf.e00 as int)) && in_i128(SCALE as int * (mf.e01 as int))
                && in_i128(SCALE as int * (mf.e02 as int)) && in_i128(
                SCALE as int * (mf.e10 as int),
            ) && in_i128(SCALE as int * (mf.e11 as int)) && in_i128(SCALE as int * (mf.e12 as int))
                && in_i128(SCALE as int * (mf.e20 as int)) && in_i128(
                SCALE as int * (mf.e21 as int),
            ) && in_i128(SCALE as int * (mf.e22 as int))
        }),
    ensures
        ({
            let mf = mat_to_fixed_spec(cone_matrix_spec(t)).unwrap();
            adaptation_matrix_spec(t, w, w) == match fx_inverse_spec(mf) {
                Err(e) => Err(e),
                Ok(minv) => match fx_mat_mul_spec(minv, mf) {
                    None => Err(AdaptError::Precision),
                    Some(a) => Ok::<FxMat, AdaptError>(a),
                },
            }
        }),
{
    let mf = mat_to_fixed_spec(cone_matrix_spec(t)).unwrap();
    let cs = fx_mat_vec_spec(mf, xyz_to_fixed_spec(w).unwrap()).unwrap();
    lemma_identity_scaling(cs.x);
    lemma_identity_scaling(cs.y);
    lemma_identity_scaling(cs.z);
    lemma_unit_diag_times(mf);
}

} // verus!
