//! Decomposition round trips: the shear products rebuild the source
//! matrix exactly, in 2-d and 3-d, and degenerate pivots are rejected.

use paeth::{Mat2, Mat3, PaethRotation2, PaethRotation3, Rat, RotateError};

/// Exact rational value of a (normal, moderate) `f32`.
fn rat_from_f32(x: f32) -> Rat {
    if x == 0.0 {
        return Rat::new(0, 1).unwrap();
    }
    let bits = x.to_bits();
    let sign: i64 = if bits >> 31 == 1 { -1 } else { 1 };
    let exp = ((bits >> 23) & 0xff) as i32;
    let frac = (bits & 0x7f_ffff) as i64;
    let mut mant = frac + (1 << 23);
    let mut e = exp - 127 - 23;
    while e < -62 {
        mant >>= 1;
        e += 1;
    }
    if mant == 0 {
        return Rat::new(0, 1).unwrap();
    }
    if e >= 0 {
        Rat::new(sign * (mant << e.min(38)), 1).unwrap()
    } else {
        Rat::new(sign * mant, 1i64 << (-e)).unwrap()
    }
}

/// Rational value of an `f32` quantised to a denominator of 4096 (keeps
/// the exact 3-d peeling inside the scalar range).
fn rat_q4096(x: f32) -> Rat {
    Rat::new((x * 4096.0).round() as i64, 4096).unwrap()
}

fn mat2_from_f32(m: [[f32; 2]; 2]) -> Mat2 {
    Mat2 {
        m11: rat_from_f32(m[0][0]),
        m12: rat_from_f32(m[0][1]),
        m21: rat_from_f32(m[1][0]),
        m22: rat_from_f32(m[1][1]),
    }
}

fn mat3_q4096(m: [[f32; 3]; 3]) -> Mat3 {
    Mat3 {
        m11: rat_q4096(m[0][0]),
        m12: rat_q4096(m[0][1]),
        m13: rat_q4096(m[0][2]),
        m21: rat_q4096(m[1][0]),
        m22: rat_q4096(m[1][1]),
        m23: rat_q4096(m[1][2]),
        m31: rat_q4096(m[2][0]),
        m32: rat_q4096(m[2][1]),
        m33: rat_q4096(m[2][2]),
    }
}

/// Rotation matrix of an angle, row-major.
fn rot2(angle: f32) -> [[f32; 2]; 2] {
    let c = angle.cos();
    let s = angle.sin();
    [[c, -s], [s, c]]
}

/// Rotation matrix of an axis-angle vector (Rodrigues), row-major.
fn rot3(v: [f32; 3]) -> [[f32; 3]; 3] {
    let th = (v[0] * v[0] + v[1] * v[1] + v[2] * v[2]).sqrt();
    let (x, y, z) = (v[0] / th, v[1] / th, v[2] / th);
    let (s, c) = (th.sin(), th.cos());
    let t = 1.0 - c;
    [
        [t * x * x + c, t * x * y - s * z, t * x * z + s * y],
        [t * x * y + s * z, t * y * y + c, t * y * z - s * x],
        [t * x * z - s * y, t * y * z + s * x, t * z * z + c],
    ]
}

fn assert_mat2_eq(a: &Mat2, b: &Mat2) {
    assert!(a.m11.eq_val(&b.m11));
    assert!(a.m12.eq_val(&b.m12));
    assert!(a.m21.eq_val(&b.m21));
    assert!(a.m22.eq_val(&b.m22));
}

fn assert_mat3_eq(a: &Mat3, b: &Mat3) {
    assert!(a.m11.eq_val(&b.m11));
    assert!(a.m12.eq_val(&b.m12));
    assert!(a.m13.eq_val(&b.m13));
    assert!(a.m21.eq_val(&b.m21));
    assert!(a.m22.eq_val(&b.m22));
    assert!(a.m23.eq_val(&b.m23));
    assert!(a.m31.eq_val(&b.m31));
    assert!(a.m32.eq_val(&b.m32));
    assert!(a.m33.eq_val(&b.m33));
}

#[test]
fn test_rot2() {
    let rm = mat2_from_f32(rot2(32f32));
    let p = PaethRotation2::new(&rm).unwrap();
    let px = p.shear_x();
    let py = p.shear_y();
    let rr = py.mul(&px).unwrap();
    assert!(rr.m11.eq_val(&rm.m11));
    assert!(rr.m12.eq_val(&rm.m12));
    assert!(rr.m21.eq_val(&rm.m21));
    assert!(rr.m22.eq_val(&rm.m22));
}

#[test]
fn test_rot3() {
    let rm = mat3_q4096(rot3([2f32, 5f32, -3f32]));
    let p = PaethRotation3::new(&rm).unwrap();
    let px = p.shear_x();
    let py = p.shear_y();
    let pz = p.shear_z();
    let rr = pz.mul(&py).unwrap().mul(&px).unwrap();
    assert!(rr.m11.eq_val(&rm.m11));
    assert!(rr.m12.eq_val(&rm.m12));
    assert!(rr.m13.eq_val(&rm.m13));
    assert!(rr.m21.eq_val(&rm.m21));
    assert!(rr.m22.eq_val(&rm.m22));
    assert!(rr.m23.eq_val(&rm.m23));
    assert!(rr.m31.eq_val(&rm.m31));
    assert!(rr.m32.eq_val(&rm.m32));
    assert!(rr.m33.eq_val(&rm.m33));
}

#[test]
fn rebuild2_exact_three_four_five() {
    // a rational rotation: (3/5, 4/5)
    let rm = Mat2 {
        m11: Rat::new(3, 5).unwrap(),
        m12: Rat::new(-4, 5).unwrap(),
        m21: Rat::new(4, 5).unwrap(),
        m22: Rat::new(3, 5).unwrap(),
    };
    let p = PaethRotation2::new(&rm).unwrap();
    // xx = m11, xy = m12, yx = m21/m11 = 4/3, yy = m22 - m21*m12/m11 = 5/3
    assert_eq!(p.yx.num(), 4);
    assert_eq!(p.yx.den(), 3);
    assert_eq!(p.yy.num(), 5);
    assert_eq!(p.yy.den(), 3);
    let rr = p.shear_y().mul(&p.shear_x()).unwrap();
    assert_mat2_eq(&rr, &rm);
}

#[test]
fn redecompose2_is_idempotent() {
    let rm = mat2_from_f32(rot2(0.7f32));
    let p = PaethRotation2::new(&rm).unwrap();
    let rr = p.shear_y().mul(&p.shear_x()).unwrap();
    let p2 = PaethRotation2::new(&rr).unwrap();
    assert!(p.xx.eq_val(&p2.xx));
    assert!(p.xy.eq_val(&p2.xy));
    assert!(p.yx.eq_val(&p2.yx));
    assert!(p.yy.eq_val(&p2.yy));
}

#[test]
fn redecompose3_is_idempotent() {
    let rm = mat3_q4096(rot3([0.3f32, -0.2f32, 0.9f32]));
    let p = PaethRotation3::new(&rm).unwrap();
    let rr = p.shear_z().mul(&p.shear_y()).unwrap().mul(&p.shear_x()).unwrap();
    let p2 = PaethRotation3::new(&rr).unwrap();
    assert!(p.yx.eq_val(&p2.yx));
    assert!(p.yy.eq_val(&p2.yy));
    assert!(p.yz.eq_val(&p2.yz));
    assert!(p.zx.eq_val(&p2.zx));
    assert!(p.zy.eq_val(&p2.zy));
    assert!(p.zz.eq_val(&p2.zz));
}

#[test]
fn ninety_degrees_is_degenerate() {
    // m11 == 0: no decomposition under this convention
    let rm = Mat2 {
        m11: Rat::new(0, 1).unwrap(),
        m12: Rat::new(-1, 1).unwrap(),
        m21: Rat::new(1, 1).unwrap(),
        m22: Rat::new(0, 1).unwrap(),
    };
    assert_eq!(PaethRotation2::new(&rm), Err(RotateError::DegenerateShearPivot));
}

#[test]
fn degenerate_pivot_in_three_d() {
    let zero = Rat::new(0, 1).unwrap();
    let one = Rat::new(1, 1).unwrap();
    let mone = Rat::new(-1, 1).unwrap();
    // rotation by 90 degrees about the z axis: m11 == 0
    let rm = Mat3 {
        m11: zero,
        m12: mone,
        m13: zero,
        m21: one,
        m22: zero,
        m23: zero,
        m31: zero,
        m32: zero,
        m33: one,
    };
    assert_eq!(PaethRotation3::new(&rm), Err(RotateError::DegenerateShearPivot));
}

#[test]
fn overflow_is_reported() {
    // yx = m21/m11 = 3 * 2^62 leaves the scalar range
    let rm = Mat2 {
        m11: Rat::new(1, 3).unwrap(),
        m12: Rat::new(0, 1).unwrap(),
        m21: Rat::new(1 << 62, 1).unwrap(),
        m22: Rat::new(1, 1).unwrap(),
    };
    assert_eq!(PaethRotation2::new(&rm), Err(RotateError::NumericOverflow));
}

#[test]
fn identity_decomposes_to_identity_shears() {
    let one = Rat::new(1, 1).unwrap();
    let zero = Rat::new(0, 1).unwrap();
    let rm = Mat2 { m11: one, m12: zero, m21: zero, m22: one };
    let p = PaethRotation2::new(&rm).unwrap();
    assert_eq!(p.xx.num(), 1);
    assert_eq!(p.xx.den(), 1);
    assert_eq!(p.xy.num(), 0);
    assert_eq!(p.yx.num(), 0);
    assert_eq!(p.yy.num(), 1);
    assert_eq!(p.yy.den(), 1);
}

#[test]
fn half_turn_decomposes_exactly() {
    // 180 degrees: [[-1, 0], [0, -1]] has a valid decomposition
    let mone = Rat::new(-1, 1).unwrap();
    let zero = Rat::new(0, 1).unwrap();
    let rm = Mat2 { m11: mone, m12: zero, m21: zero, m22: mone };
    let p = PaethRotation2::new(&rm).unwrap();
    assert_eq!(p.xx.num(), -1);
    assert_eq!(p.xy.num(), 0);
    assert_eq!(p.yx.num(), 0);
    assert_eq!(p.yy.num(), -1);
    let rr = p.shear_y().mul(&p.shear_x()).unwrap();
    assert_mat2_eq(&rr, &rm);
}

#[test]
fn rebuild3_exact_rational_matrix() {
    // not a rotation; the peeling identity holds for any nonzero pivots
    let rm = Mat3 {
        m11: Rat::new(2, 3).unwrap(),
        m12: Rat::new(1, 2).unwrap(),
        m13: Rat::new(-1, 4).unwrap(),
        m21: Rat::new(1, 3).unwrap(),
        m22: Rat::new(5, 6).unwrap(),
        m23: Rat::new(1, 5).unwrap(),
        m31: Rat::new(-2, 7).unwrap(),
        m32: Rat::new(1, 9).unwrap(),
        m33: Rat::new(3, 4).unwrap(),
    };
    let p = PaethRotation3::new(&rm).unwrap();
    let rr = p.shear_z().mul(&p.shear_y()).unwrap().mul(&p.shear_x()).unwrap();
    assert_mat3_eq(&rr, &rm);
}
