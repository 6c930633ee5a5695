//! Named RGB working spaces: each carries its reference illuminant and its
//! fixed forward (RGB to XYZ) and inverse (XYZ to RGB) matrices, plus the
//! composite RGB-to-RGB transforms.

use vstd::prelude::*;
use crate::rational::{Q, q_frac, q_int, norm_num, norm_den};
use crate::illuminants::{StandardObserver, Illuminant, Chromaticity, illuminant, illuminant_spec};
use crate::matrix::{Mat3, FxMat, FxVec, SCALE};
use crate::models::{Xyz, Color, xy_to_xyz, xy_to_xyz_arg, xyy_to_xyz_ok, xyy_to_xyz_x, xyy_to_xyz_z};
use crate::adaptation::{
    AdaptationTransform, AdaptError, adaptation_matrix, adaptation_matrix_spec, mat_to_fixed,
    mat_to_fixed_spec, fx_mat_mul, fx_mat_mul_spec, fx_mat_vec, fx_mat_vec_spec, xyz_to_fixed,
    xyz_to_fixed_spec,
};

verus! {

/// A named RGB working space.
#[derive(Clone, Copy, PartialEq, Eq, Structural, Debug)]
pub enum ColorSpace {
    AdobeRgb1998,
}

/// An RGB triple together with the working space it is expressed in.
#[derive(Clone, Copy, PartialEq, Eq, Structural, Debug)]
pub struct Rgb {
    pub r: Q,
    pub g: Q,
    pub b: Q,
    pub space: ColorSpace,
}

impl Color for Rgb {

}

impl Rgb {
    /// All three channels are well-formed rationals.
    pub open spec fn wf(self) -> bool {
        self.r.wf() && self.g.wf() && self.b.wf()
    }
}

/// The reference illuminant of each working space.
pub open spec fn space_illuminant_spec(s: ColorSpace) -> Illuminant {
    match s {
        ColorSpace::AdobeRgb1998 => Illuminant::D65,
    }
}

/// The fixed RGB-to-XYZ matrix of each working space.
pub open spec fn rgb_to_xyz_matrix_spec(s: ColorSpace) -> Mat3 {
    match s {
        ColorSpace::AdobeRgb1998 => Mat3 { e00: q_frac(57667, 100000), e01: q_frac(4639, 25000), e02: q_frac(18823, 100000), e10: q_frac(14867, 50000), e11: q_frac(3921, 6250), e12: q_frac(7529, 100000), e20: q_frac(2703, 100000), e21: q_frac(7069, 100000), e22: q_frac(49567, 50000) },
    }
}

/// The fixed XYZ-to-RGB matrix of each working space; a precomputed
/// constant that inverts `rgb_to_xyz_matrix_spec` to published precision.
pub open spec fn xyz_to_rgb_matrix_spec(s: ColorSpace) -> Mat3 {
    match s {
        ColorSpace::AdobeRgb1998 => Mat3 { e00: q_frac(204159, 100000), e01: q_frac(-56501, 100000), e02: q_frac(-34473, 100000), e10: q_frac(-24231, 25000), e11: q_frac(187597, 100000), e12: q_frac(1039, 25000), e20: q_frac(42, 3125), e21: q_frac(-2959, 25000), e22: q_frac(101517, 100000) },
    }
}

impl ColorSpace {
    /// The reference illuminant the space is defined against.
    pub fn illuminant(&self) -> (r: Illuminant)
        ensures
            r == space_illuminant_spec(*self),
    {
        match *self {
            ColorSpace::AdobeRgb1998 => Illuminant::D65,
        }
    }

    /// The illuminant of the space's white point (the same reference
    /// illuminant).
    pub fn whitepoint(&self) -> (r: Illuminant)
        ensures
            r == space_illuminant_spec(*self),
    {
        match *self {
            ColorSpace::AdobeRgb1998 => Illuminant::D65,
        }
    }

    /// The space's fixed RGB-to-XYZ matrix.
    pub fn rgb_to_xyz_matrix(&self) -> (r: Mat3)
        ensures
            r == rgb_to_xyz_matrix_spec(*self),
            r.wf(),
    {
        match *self {
            ColorSpace::AdobeRgb1998 => Mat3 { e00: Q::from_parts(57667, 100000), e01: Q::from_parts(4639, 25000), e02: Q::from_parts(18823, 100000), e10: Q::from_parts(14867, 50000), e11: Q::from_parts(3921, 6250), e12: Q::from_parts(7529, 100000), e20: Q::from_parts(2703, 100000), e21: Q::from_parts(7069, 100000), e22: Q::from_parts(49567, 50000) },
        }
    }

    /// The space's fixed XYZ-to-RGB matrix.
    pub fn xyz_to_rgb_matrix(&self) -> (r: Mat3)
        ensures
            r == xyz_to_rgb_matrix_spec(*self),
            r.wf(),
    {
        match *self {
            ColorSpace::AdobeRgb1998 => Mat3 { e00: Q::from_parts(204159, 100000), e01: Q::from_parts(-56501, 100000), e02: Q::from_parts(-34473, 100000), e10: Q::from_parts(-24231, 25000), e11: Q::from_parts(187597, 100000), e12: Q::from_parts(1039, 25000), e20: Q::from_parts(42, 3125), e21: Q::from_parts(-2959, 25000), e22: Q::from_parts(101517, 100000) },
        }
    }
}

} // verus!

verus! {

/// The chromaticity of a working space's reference white under an
/// observer, as the exact table constants.
pub open spec fn whitepoint_chroma_spec(s: ColorSpace, o: StandardObserver) -> Chromaticity {
    let t = illuminant_spec(o, space_illuminant_spec(s));
    Chromaticity { x: q_frac(t.0, t.1), y: q_frac(t.2, t.3) }
}

/// Mirror of `whitepoint_xyz`.
pub open spec fn whitepoint_xyz_spec(s: ColorSpace, o: StandardObserver) -> Option<Xyz> {
    let arg = xy_to_xyz_arg(whitepoint_chroma_spec(s, o));
    if arg.y1.num() == 0 {
        Some(Xyz { x: q_int(0), y: q_int(0), z: q_int(0) })
    } else if !xyy_to_xyz_ok(arg) {
        None
    } else {
        Some(
            Xyz {
                x: q_frac(xyy_to_xyz_x(arg).1, xyy_to_xyz_x(arg).2),
                y: q_int(1),
                z: q_frac(xyy_to_xyz_z(arg).1, xyy_to_xyz_z(arg).2),
            },
        )
    }
}

/// The working space's reference white as an exact tristimulus value: the
/// chromaticity of its reference illuminant extended to unit luminance.
pub fn whitepoint_xyz(s: ColorSpace, o: StandardObserver) -> (r: Option<Xyz>)
    ensures
        r == whitepoint_xyz_spec(s, o),
        r matches Some(v) ==> v.wf(),
{
    let ill: Illuminant = s.illuminant();
    let w: Chromaticity = illuminant(o, ill);
    proof {
        crate::rational::lemma_q_parts(w.x);
        crate::rational::lemma_q_parts(w.y);
        assert(w == whitepoint_chroma_spec(s, o));
    }
    xy_to_xyz(&w)
}

/// Mirror of `rgb_to_rgb_matrix`.
pub open spec fn rgb_to_rgb_matrix_spec(input: ColorSpace, output: ColorSpace) -> Option<FxMat> {
    let fwd = mat_to_fixed_spec(rgb_to_xyz_matrix_spec(input));
    let inv = mat_to_fixed_spec(xyz_to_rgb_matrix_spec(output));
    if fwd is None || inv is None {
        None
    } else {
        fx_mat_mul_spec(inv.unwrap(), fwd.unwrap())
    }
}

/// The plain composite transform between two working spaces, with no
/// chromatic adaptation: the output space's XYZ-to-RGB matrix times the
/// input space's RGB-to-XYZ matrix, in fixed point.
pub fn rgb_to_rgb_matrix(input: &ColorSpace, output: &ColorSpace) -> (r: Option<FxMat>)
    ensures
        r == rgb_to_rgb_matrix_spec(*input, *output),
{
    let input_matrix: Mat3 = input.rgb_to_xyz_matrix();
    let output_matrix: Mat3 = output.xyz_to_rgb_matrix();
    let fwd_opt: Option<FxMat> = mat_to_fixed(&input_matrix);
    if fwd_opt.is_none() {
        return None;
    }
    let inv_opt: Option<FxMat> = mat_to_fixed(&output_matrix);
    if inv_opt.is_none() {
        return None;
    }
    fx_mat_mul(&inv_opt.unwrap(), &fwd_opt.unwrap())
}

/// Mirror of `rgb_to_rgb_adapted_matrix`.
pub open spec fn rgb_to_rgb_adapted_spec(
    input: ColorSpace,
    output: ColorSpace,
    t: AdaptationTransform,
    o: StandardObserver,
) -> Result<FxMat, AdaptError> {
    let ws = whitepoint_xyz_spec(input, o);
    let wd = whitepoint_xyz_spec(output, o);
    if ws is None || wd is None {
        Err(AdaptError::Precision)
    } else {
        match adaptation_matrix_spec(t, ws.unwrap(), wd.unwrap()) {
            Err(e) => Err(e),
            Ok(a) => {
                let fwd = mat_to_fixed_spec(rgb_to_xyz_matrix_spec(input));
                let inv = mat_to_fixed_spec(xyz_to_rgb_matrix_spec(output));
                if fwd is None || inv is None {
                    Err(AdaptError::Precision)
                } else {
                    let am = fx_mat_mul_spec(a, fwd.unwrap());
                    if am is None {
                        Err(AdaptError::Precision)
                    } else {
                        let tm = fx_mat_mul_spec(inv.unwrap(), am.unwrap());
                        if tm is None {
                            Err(AdaptError::Precision)
                        } else {
                            Ok(tm.unwrap())
                        }
                    }
                }
            },
        }
    }
}

/// The full composite transform between two working spaces under a chosen
/// adaptation method: `XyzToRgb(output) * A * RgbToXyz(input)`, where `A`
/// adapts the input space's reference white to the output space's.
pub fn rgb_to_rgb_adapted_matrix(
    input: &ColorSpace,
    output: &ColorSpace,
    t: AdaptationTransform,
    o: StandardObserver,
) -> (r: Result<FxMat, AdaptError>)
    ensures
        r == rgb_to_rgb_adapted_spec(*input, *output, t, o),
{
    let ws_opt: Option<Xyz> = whitepoint_xyz(*input, o);
    if ws_opt.is_none() {
        return Err(AdaptError::Precision);
    }
    let wd_opt: Option<Xyz> = whitepoint_xyz(*output, o);
    if wd_opt.is_none() {
        return Err(AdaptError::Precision);
    }
    let a: FxMat = match adaptation_matrix(t, &ws_opt.unwrap(), &wd_opt.unwrap()) {
        Err(e) => {
            return Err(e);
        },
        Ok(a) => a,
    };
    let input_matrix: Mat3 = input.rgb_to_xyz_matrix();
    let output_matrix: Mat3 = output.xyz_to_rgb_matrix();
    let fwd_opt: Option<FxMat> = mat_to_fixed(&input_matrix);
    if fwd_opt.is_none() {
        return Err(AdaptError::Precision);
    }
    let inv_opt: Option<FxMat> = mat_to_fixed(&output_matrix);
    if inv_opt.is_none() {
        return Err(AdaptError::Precision);
    }
    let am_opt: Option<FxMat> = fx_mat_mul(&a, &fwd_opt.unwrap());
    if am_opt.is_none() {
        return Err(AdaptError::Precision);
    }
    let tm_opt: Option<FxMat> = fx_mat_mul(&inv_opt.unwrap(), &am_opt.unwrap());
    if tm_opt.is_none() {
        return Err(AdaptError::Precision);
    }
    Ok(tm_opt.unwrap())
}

/// Mirror of `Rgb::to_rgb`.
pub open spec fn to_rgb_spec(
    c: Rgb,
    space: ColorSpace,
    t: AdaptationTransform,
    o: StandardObserver,
) -> Result<Rgb, AdaptError> {
    match rgb_to_rgb_adapted_spec(c.space, space, t, o) {
        Err(e) => Err(e),
        Ok(m) => {
            let vr = to_fixed_spec_rgb(c);
            if vr is None {
                Err(AdaptError::Precision)
            } else {
                let out = fx_mat_vec_spec(m, vr.unwrap());
                if out is None {
                    Err(AdaptError::Precision)
                } else if out.unwrap().x == i128::MIN || out.unwrap().y == i128::MIN
                    || out.unwrap().z == i128::MIN {
                    Err(AdaptError::Precision)
                } else {
                    Ok(
                        Rgb {
                            r: q_frac(
                                norm_num(out.unwrap().x as int, SCALE as int),
                                norm_den(out.unwrap().x as int, SCALE as int),
                            ),
                            g: q_frac(
                                norm_num(out.unwrap().y as int, SCALE as int),
                                norm_den(out.unwrap().y as int, SCALE as int),
                            ),
                            b: q_frac(
                                norm_num(out.unwrap().z as int, SCALE as int),
                                norm_den(out.unwrap().z as int, SCALE as int),
                            ),
                            space,
                        },
                    )
                }
            }
        },
    }
}

/// The fixed-point form of an RGB triple.
pub open spec fn to_fixed_spec_rgb(c: Rgb) -> Option<FxVec> {
    let vr = crate::matrix::to_fixed_spec(c.r);
    let vg = crate::matrix::to_fixed_spec(c.g);
    let vb = crate::matrix::to_fixed_spec(c.b);
    if vr is None || vg is None || vb is None {
        None
    } else {
        Some(FxVec { x: vr.unwrap() as i128, y: vg.unwrap() as i128, z: vb.unwrap() as i128 })
    }
}

impl Rgb {
    /// This color re-expressed in another working space, adapted for the
    /// white-point difference under the chosen method: the composite
    /// transform of `rgb_to_rgb_adapted_matrix` applied to the triple.
    pub fn to_rgb(&self, space: ColorSpace, t: AdaptationTransform, o: StandardObserver) -> (r:
        Result<Rgb, AdaptError>)
        requires
            self.wf(),
        ensures
            r == to_rgb_spec(*self, space, t, o),
            r matches Ok(v) ==> v.wf() && v.space == space,
    {
        let m: FxMat = match rgb_to_rgb_adapted_matrix(&self.space, &space, t, o) {
            Err(e) => {
                return Err(e);
            },
            Ok(m) => m,
        };
        let vr_opt: Option<i128> = crate::matrix::to_fixed(&self.r);
        if vr_opt.is_none() {
            return Err(AdaptError::Precision);
        }
        let vg_opt: Option<i128> = crate::matrix::to_fixed(&self.g);
        if vg_opt.is_none() {
            return Err(AdaptError::Precision);
        }
        let vb_opt: Option<i128> = crate::matrix::to_fixed(&self.b);
        if vb_opt.is_none() {
            return Err(AdaptError::Precision);
        }
        let v = FxVec { x: vr_opt.unwrap(), y: vg_opt.unwrap(), z: vb_opt.unwrap() };
        let out_opt: Option<FxVec> = fx_mat_vec(&m, &v);
        if out_opt.is_none() {
            return Err(AdaptError::Precision);
        }
        let out: FxVec = out_opt.unwrap();
        if out.x == i128::MIN || out.y == i128::MIN || out.z == i128::MIN {
            return Err(AdaptError::Precision);
        }
        let rr: Q = Q::from_raw(out.x, SCALE);
        let gg: Q = Q::from_raw(out.y, SCALE);
        let bb: Q = Q::from_raw(out.z, SCALE);
        Ok(Rgb { r: rr, g: gg, b: bb, space })
    }
}

} // verus!
