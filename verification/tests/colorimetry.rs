use pigments::adaptation::{adaptation_matrix, AdaptError, AdaptationTransform};
use pigments::color_space::{rgb_to_rgb_adapted_matrix, rgb_to_rgb_matrix, whitepoint_xyz, ColorSpace, Rgb};
use pigments::illuminants::{illuminant, Chromaticity, Illuminant, StandardObserver};
use pigments::matrix::{FxMat, SCALE};
use pigments::models::{xy_to_xyy, xy_to_xyz, Xyy, Xyz};
use pigments::Q;

fn q(n: i64, d: i64) -> Q {
    Q::from_fraction(n, d).unwrap()
}

fn qf(x: &Q) -> f64 {
    x.numerator() as f64 / x.denominator() as f64
}

fn assert_close(a: f64, b: f64, tol: f64) {
    let scale = 1.0_f64.max(a.abs()).max(b.abs());
    assert!(
        (a - b).abs() <= tol * scale,
        "{} and {} differ by more than {}",
        a,
        b,
        tol
    );
}

fn fx(e: i128) -> f64 {
    e as f64 / SCALE as f64
}

fn assert_fxmat_close(m: &FxMat, expect: [[f64; 3]; 3], tol: f64) {
    let got = [
        [fx(m.e00), fx(m.e01), fx(m.e02)],
        [fx(m.e10), fx(m.e11), fx(m.e12)],
        [fx(m.e20), fx(m.e21), fx(m.e22)],
    ];
    for i in 0..3 {
        for j in 0..3 {
            assert_close(got[i][j], expect[i][j], tol);
        }
    }
}

#[test]
fn chromaticity_is_deterministic_and_in_unit_range() {
    let pairs = [
        (StandardObserver::Two, Illuminant::A),
        (StandardObserver::Two, Illuminant::D65),
        (StandardObserver::Two, Illuminant::E),
        (StandardObserver::Ten, Illuminant::D60),
        (StandardObserver::Ten, Illuminant::HP5),
        (StandardObserver::Ten, Illuminant::FL311),
    ];
    for (o, i) in pairs {
        let a = illuminant(o, i);
        let b = illuminant(o, i);
        assert_eq!(a, b);
        let x = qf(&a.x);
        let y = qf(&a.y);
        assert!((0.0..=1.0).contains(&x));
        assert!((0.0..=1.0).contains(&y));
    }
}

#[test]
fn chromaticity_matches_published_constants() {
    let a = illuminant(StandardObserver::Two, Illuminant::A);
    assert_eq!(a.x, q(44758, 100000));
    assert_eq!(a.y, q(40745, 100000));
    let e = illuminant(StandardObserver::Ten, Illuminant::E);
    assert_eq!(e.x, q(1, 3));
    assert_eq!(e.y, q(1, 3));
    let d65 = illuminant(StandardObserver::Two, Illuminant::D65);
    assert_close(qf(&d65.x), 0.31270, 1e-12);
    assert_close(qf(&d65.y), 0.32900, 1e-12);
}

#[test]
fn xyz_xyy_round_trip_is_exact() {
    let v = Xyz {
        x: q(20654008, 100000000),
        y: q(12197225, 100000000),
        z: q(5136952, 100000000),
    };
    let c = v.to_xyy(StandardObserver::Two, Illuminant::D65).unwrap();
    let r = c.to_xyz().unwrap();
    assert_eq!(r, v);
}

#[test]
fn zero_stimulus_takes_reference_chromaticity() {
    let v = Xyz {
        x: q(0, 1),
        y: q(0, 1),
        z: q(0, 1),
    };
    let c = v.to_xyy(StandardObserver::Two, Illuminant::D65).unwrap();
    assert_eq!(c.x, q(31270, 100000));
    assert_eq!(c.y1, q(32900, 100000));
    assert_eq!(c.y2, q(0, 1));
    assert_close(qf(&c.x), 0.31270, 1e-12);
    assert_close(qf(&c.y1), 0.32900, 1e-12);
}

#[test]
fn degenerate_chromaticity_yields_zero_tristimulus() {
    let c = Xyy {
        x: q(4, 10),
        y1: q(0, 1),
        y2: q(5, 10),
    };
    let v = c.to_xyz().unwrap();
    assert_eq!(v.x, q(0, 1));
    assert_eq!(v.y, q(0, 1));
    assert_eq!(v.z, q(0, 1));
}

#[test]
fn xyy_to_xyz_concrete_scenario() {
    let c = Xyy {
        x: q(54369557, 100000000),
        y1: q(32107944, 100000000),
        y2: q(12197225, 100000000),
    };
    let v = c.to_xyz().unwrap();
    assert_close(qf(&v.x), 0.2065400761504147, 1e-9);
    assert_close(qf(&v.y), 0.12197225, 1e-12);
    assert_close(qf(&v.z), 0.05136951866655647, 1e-9);
}

#[test]
fn xy_to_xyz_concrete_scenario() {
    let xy = Chromaticity {
        x: q(54369557, 100000000),
        y: q(32107944, 100000000),
    };
    let v = xy_to_xyz(&xy).unwrap();
    assert_close(qf(&v.x), 1.6933366085352586, 1e-9);
    assert_eq!(v.y, q(1, 1));
    assert_close(qf(&v.z), 0.4211574244679136, 1e-9);
}

#[test]
fn xy_to_xyy_copies_fields() {
    let xy = Chromaticity {
        x: q(1, 4),
        y: q(1, 3),
    };
    let c = xy_to_xyy(&xy, q(7, 10));
    assert_eq!(c.x, q(1, 4));
    assert_eq!(c.y1, q(1, 3));
    assert_eq!(c.y2, q(7, 10));
}

#[test]
fn rational_arithmetic_is_exact() {
    let a = q(1, 3);
    let b = q(1, 6);
    assert_eq!(a.add(b).unwrap(), q(1, 2));
    assert_eq!(a.sub(b).unwrap(), q(1, 6));
    assert_eq!(a.mul(b).unwrap(), q(1, 18));
    assert_eq!(a.div(b).unwrap(), q(2, 1));
    assert!(a.div(q(0, 1)).is_none());
    assert!(Q::from_fraction(1, 0).is_none());
    assert_eq!(Q::from_fraction(-3, -6).unwrap(), q(1, 2));
}

#[test]
fn working_space_registry_constants() {
    let s = ColorSpace::AdobeRgb1998;
    assert_eq!(s.illuminant(), Illuminant::D65);
    assert_eq!(s.whitepoint(), Illuminant::D65);
    let fwd = s.rgb_to_xyz_matrix();
    assert_eq!(fwd.e00, q(57667, 100000));
    assert_eq!(fwd.e01, q(18556, 100000));
    assert_eq!(fwd.e12, q(7529, 100000));
    let inv = s.xyz_to_rgb_matrix();
    assert_eq!(inv.e00, q(204159, 100000));
    assert_eq!(inv.e01, q(-56501, 100000));
    assert_eq!(inv.e22, q(101517, 100000));
}

#[test]
fn working_space_inverse_matches_forward() {
    // The registry invariant: the stored XYZ-to-RGB matrix inverts the
    // stored RGB-to-XYZ matrix to the precision of the published constants.
    let s = ColorSpace::AdobeRgb1998;
    let f = s.rgb_to_xyz_matrix();
    let i = s.xyz_to_rgb_matrix();
    let fm = [
        [qf(&f.e00), qf(&f.e01), qf(&f.e02)],
        [qf(&f.e10), qf(&f.e11), qf(&f.e12)],
        [qf(&f.e20), qf(&f.e21), qf(&f.e22)],
    ];
    let im = [
        [qf(&i.e00), qf(&i.e01), qf(&i.e02)],
        [qf(&i.e10), qf(&i.e11), qf(&i.e12)],
        [qf(&i.e20), qf(&i.e21), qf(&i.e22)],
    ];
    for r in 0..3 {
        for c in 0..3 {
            let mut acc = 0.0;
            for k in 0..3 {
                acc += im[r][k] * fm[k][c];
            }
            let expect = if r == c { 1.0 } else { 0.0 };
            assert_close(acc, expect, 1e-4);
        }
    }
}

#[test]
fn adaptation_matrix_registry_constants() {
    let m = AdaptationTransform::Bradford.matrix();
    assert_eq!(m.e00, q(8951, 10000));
    assert_eq!(m.e01, q(2664, 10000));
    assert_eq!(m.e02, q(-1614, 10000));
    assert_eq!(m.e20, q(389, 10000));
    let v = AdaptationTransform::VonKries.matrix();
    assert_close(qf(&v.e00), 0.4002400, 1e-12);
    assert_close(qf(&v.e22), 0.9182200, 1e-12);
    let x = AdaptationTransform::XYZScaling.matrix();
    assert_eq!(x.e00, q(3, 1));
    assert_eq!(x.e11, q(3, 1));
}

#[test]
fn identity_adaptation_is_identity_within_tolerance() {
    let s = ColorSpace::AdobeRgb1998;
    let ident = [[1.0, 0.0, 0.0], [0.0, 1.0, 0.0], [0.0, 0.0, 1.0]];
    for t in [
        AdaptationTransform::VonKries,
        AdaptationTransform::Bradford,
        AdaptationTransform::Sharp,
        AdaptationTransform::CAT02,
        AdaptationTransform::BiancoSchettini,
    ] {
        let w = whitepoint_xyz(s, StandardObserver::Two).unwrap();
        let a = adaptation_matrix(t, &w, &w).unwrap();
        assert_fxmat_close(&a, ident, 1e-9);
        let composite = rgb_to_rgb_adapted_matrix(&s, &s, t, StandardObserver::Two).unwrap();
        assert_fxmat_close(&composite, ident, 1e-4);
    }
}

#[test]
fn plain_composite_of_same_space_is_identity_within_tolerance() {
    let s = ColorSpace::AdobeRgb1998;
    let m = rgb_to_rgb_matrix(&s, &s).unwrap();
    let ident = [[1.0, 0.0, 0.0], [0.0, 1.0, 0.0], [0.0, 0.0, 1.0]];
    assert_fxmat_close(&m, ident, 1e-4);
}

#[test]
fn rgb_cross_space_round_trip() {
    let s = ColorSpace::AdobeRgb1998;
    let c = Rgb {
        r: q(1, 2),
        g: q(1, 4),
        b: q(3, 4),
        space: s,
    };
    let there = c
        .to_rgb(s, AdaptationTransform::Bradford, StandardObserver::Two)
        .unwrap();
    let back = there
        .to_rgb(s, AdaptationTransform::Bradford, StandardObserver::Two)
        .unwrap();
    assert_close(qf(&back.r), 0.5, 1e-4);
    assert_close(qf(&back.g), 0.25, 1e-4);
    assert_close(qf(&back.b), 0.75, 1e-4);
    assert_eq!(back.space, s);
}

#[test]
fn degenerate_white_point_is_reported() {
    let zero = Xyz {
        x: q(0, 1),
        y: q(0, 1),
        z: q(0, 1),
    };
    let w = whitepoint_xyz(ColorSpace::AdobeRgb1998, StandardObserver::Two).unwrap();
    let r = adaptation_matrix(AdaptationTransform::Bradford, &zero, &w);
    assert_eq!(r, Err(AdaptError::DegenerateWhitePoint));
}

#[test]
fn singular_cone_matrix_is_reported() {
    let w = whitepoint_xyz(ColorSpace::AdobeRgb1998, StandardObserver::Two).unwrap();
    let r = adaptation_matrix(AdaptationTransform::XYZScaling, &w, &w);
    assert_eq!(r, Err(AdaptError::SingularMatrix));
}

#[test]
fn precision_overflow_is_reported() {
    let huge = Rgb {
        r: q(i64::MAX, 1),
        g: q(1, 1),
        b: q(1, 1),
        space: ColorSpace::AdobeRgb1998,
    };
    let r = huge.to_rgb(
        ColorSpace::AdobeRgb1998,
        AdaptationTransform::Bradford,
        StandardObserver::Two,
    );
    assert_eq!(r, Err(AdaptError::Precision));
}

#[test]
fn whitepoint_of_adobe_rgb_is_d65() {
    let w = whitepoint_xyz(ColorSpace::AdobeRgb1998, StandardObserver::Two).unwrap();
    assert_close(qf(&w.x), 0.31270 / 0.32900, 1e-12);
    assert_eq!(w.y, q(1, 1));
    assert_close(qf(&w.z), (1.0 - 0.31270 - 0.32900) / 0.32900, 1e-12);
}
