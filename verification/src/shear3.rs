//! Three-dimensional Paeth rotation.
//!
//! Decomposes a 3-by-3 rotation matrix into three one-dimensional shears,
//! `R = Z*Y*X`, by successive peeling: the x-triple is row one of `m`;
//! multiplying by the closed-form inverse of the x-shear leaves a matrix
//! whose second row is the y-triple; peeling that shear off in turn
//! leaves the z-shear itself, whose third row is the residual z-triple.
//!
//! ```text
//! X = [ xx xy xz     Y = [  1  0  0     Z = [  1  0  0
//!        0  1  0           yx yy yz            0  1  0
//!        0  0  1 ]          0  0  1 ]         zx zy zz ]
//! ```
//!
//! The factorization needs two nonzero pivots, `m11` and the peeled
//! `yy`; either vanishing is reported as `DegenerateShearPivot`.  Over
//! exact rationals the reconstruction `Z*Y*X == m` is an algebraic
//! identity for any matrix with nonzero pivots, proved as
//! `lemma_rebuild3`.

use vstd::prelude::*;
use crate::rat::{
    Rat, Ratio, rq_nz, rq_eq, rq_zero, rq_one, rq_mul, rq_add, rq_sub, rq_div, rq_norm, rq_reduce,
    rq_fits, xmul, xsub, xdiv, xmul_ok, xsub_ok, xdiv_ok, lemma_reduce_eq, lemma_norm_eq,
    lemma_rq_trans, lemma_nz_mul, lemma_mul_cong, lemma_sub_cong, lemma_div_cong, lemma_add_cong,
    lemma_pivot_cong, lemma_one_mul, lemma_mul_one_r, lemma_add_zero_r, lemma_add_zero_l,
    lemma_div_cancel, lemma_mul_div_swap, lemma_add_sub_cancel, lemma_sub_then_add,
    lemma_den_prod, lemma_add_two_zeros, lemma_add_zero_lr, lemma_zero_mul, lemma_nz_den6,
    lemma_mul_zero_r,
};
use crate::mat::{Mat3, SpecMat3, sm3_eq, sm3_nz, sm3_mul};
use crate::RotateError;

verus! {

/// Ghost model of a 3-d shear descriptor.
pub ghost struct SpecShear3 {
    pub xx: Ratio,
    pub xy: Ratio,
    pub xz: Ratio,
    pub yx: Ratio,
    pub yy: Ratio,
    pub yz: Ratio,
    pub zx: Ratio,
    pub zy: Ratio,
    pub zz: Ratio,
}

/// Entrywise rational equality of descriptors.
pub open spec fn sh3_eq(a: SpecShear3, b: SpecShear3) -> bool {
    rq_eq(a.xx, b.xx) && rq_eq(a.xy, b.xy) && rq_eq(a.xz, b.xz) && rq_eq(a.yx, b.yx) && rq_eq(
        a.yy,
        b.yy,
    ) && rq_eq(a.yz, b.yz) && rq_eq(a.zx, b.zx) && rq_eq(a.zy, b.zy) && rq_eq(a.zz, b.zz)
}

/// One peeled entry: `b - (a*c)/p`.
pub open spec fn peel_entry(b: Ratio, a: Ratio, c: Ratio, p: Ratio) -> Ratio {
    rq_sub(b, rq_div(rq_mul(a, c), p))
}

/// The closed-form factorization by successive peeling.
pub open spec fn spec_decomp3(m: SpecMat3) -> SpecShear3 {
    let yx = rq_div(m.m21, m.m11);
    let yy = peel_entry(m.m22, m.m21, m.m12, m.m11);
    let yz = peel_entry(m.m23, m.m21, m.m13, m.m11);
    let t31 = rq_div(m.m31, m.m11);
    let t32 = peel_entry(m.m32, m.m31, m.m12, m.m11);
    let t33 = peel_entry(m.m33, m.m31, m.m13, m.m11);
    SpecShear3 {
        xx: m.m11,
        xy: m.m12,
        xz: m.m13,
        yx,
        yy,
        yz,
        zx: peel_entry(t31, t32, yx, yy),
        zy: rq_div(t32, yy),
        zz: peel_entry(t33, t32, yz, yy),
    }
}

/// The x-shear matrix of a descriptor.
pub open spec fn spec_shear_x3(s: SpecShear3) -> SpecMat3 {
    SpecMat3 {
        m11: s.xx,
        m12: s.xy,
        m13: s.xz,
        m21: rq_zero(),
        m22: rq_one(),
        m23: rq_zero(),
        m31: rq_zero(),
        m32: rq_zero(),
        m33: rq_one(),
    }
}

/// The y-shear matrix of a descriptor.
pub open spec fn spec_shear_y3(s: SpecShear3) -> SpecMat3 {
    SpecMat3 {
        m11: rq_one(),
        m12: rq_zero(),
        m13: rq_zero(),
        m21: s.yx,
        m22: s.yy,
        m23: s.yz,
        m31: rq_zero(),
        m32: rq_zero(),
        m33: rq_one(),
    }
}

/// The z-shear matrix of a descriptor.
pub open spec fn spec_shear_z3(s: SpecShear3) -> SpecMat3 {
    SpecMat3 {
        m11: rq_one(),
        m12: rq_zero(),
        m13: rq_zero(),
        m21: rq_zero(),
        m22: rq_one(),
        m23: rq_zero(),
        m31: s.zx,
        m32: s.zy,
        m33: s.zz,
    }
}

/// Rebuilding in the fixed composition order: `(Z*Y)*X`.
pub open spec fn spec_rebuild3(s: SpecShear3) -> SpecMat3 {
    sm3_mul(sm3_mul(spec_shear_z3(s), spec_shear_y3(s)), spec_shear_x3(s))
}

/// The exact value of the executable peeled entry.
pub open spec fn xpeel(b: Ratio, a: Ratio, c: Ratio, p: Ratio) -> Ratio {
    xsub(b, xdiv(xmul(a, c), p))
}

/// When the executable peeled entry stays in scalar range (includes the
/// nonzero-pivot condition of the division).
pub open spec fn xpeel_ok(b: Ratio, a: Ratio, c: Ratio, p: Ratio) -> bool {
    xmul_ok(a, c) && xdiv_ok(xmul(a, c), p) && xsub_ok(b, xdiv(xmul(a, c), p))
}

/// The exact first-peel row values the executable decomposer computes.
pub open spec fn eyx(m: SpecMat3) -> Ratio {
    xdiv(m.m21, m.m11)
}

pub open spec fn eyy(m: SpecMat3) -> Ratio {
    xpeel(m.m22, m.m21, m.m12, m.m11)
}

pub open spec fn eyz(m: SpecMat3) -> Ratio {
    xpeel(m.m23, m.m21, m.m13, m.m11)
}

pub open spec fn et31(m: SpecMat3) -> Ratio {
    xdiv(m.m31, m.m11)
}

pub open spec fn et32(m: SpecMat3) -> Ratio {
    xpeel(m.m32, m.m31, m.m12, m.m11)
}

pub open spec fn et33(m: SpecMat3) -> Ratio {
    xpeel(m.m33, m.m31, m.m13, m.m11)
}

/// When the first peel (rows two and three of `m * inverse(X)`) stays in
/// scalar range.
pub open spec fn decomp3_fits_a(m: SpecMat3) -> bool {
    xdiv_ok(m.m21, m.m11) && xpeel_ok(m.m22, m.m21, m.m12, m.m11) && xpeel_ok(
        m.m23,
        m.m21,
        m.m13,
        m.m11,
    ) && xdiv_ok(m.m31, m.m11) && xpeel_ok(m.m32, m.m31, m.m12, m.m11) && xpeel_ok(
        m.m33,
        m.m31,
        m.m13,
        m.m11,
    )
}

/// When the second peel (the residual z-triple) stays in scalar range.
pub open spec fn decomp3_fits_b(m: SpecMat3) -> bool {
    xpeel_ok(et31(m), et32(m), eyx(m), eyy(m)) && xdiv_ok(et32(m), eyy(m)) && xpeel_ok(
        et33(m),
        et32(m),
        eyz(m),
        eyy(m),
    )
}

/// Three-dimensional Paeth rotation descriptor.
#[derive(Clone, Copy, PartialEq, Eq, Structural, Debug)]
pub struct PaethRotation3 {
    pub xx: Rat,
    pub xy: Rat,
    pub xz: Rat,
    pub yx: Rat,
    pub yy: Rat,
    pub yz: Rat,
    pub zx: Rat,
    pub zy: Rat,
    pub zz: Rat,
}

impl View for PaethRotation3 {
    type V = SpecShear3;

    open spec fn view(&self) -> SpecShear3 {
        SpecShear3 {
            xx: self.xx@,
            xy: self.xy@,
            xz: self.xz@,
            yx: self.yx@,
            yy: self.yy@,
            yz: self.yz@,
            zx: self.zx@,
            zy: self.zy@,
            zz: self.zz@,
        }
    }
}

/// Compute one peeled entry `b - (a*c)/p`.
fn peel(b: &Rat, a: &Rat, c: &Rat, p: &Rat) -> (r: Option<Rat>)
    ensures
        r matches Some(q) ==> q@ == xpeel(b@, a@, c@, p@) && rq_eq(q@, peel_entry(b@, a@, c@, p@))
            && rq_eq(peel_entry(b@, a@, c@, p@), q@) && crate::rat::rq_rep(q@),
        r is Some <==> xpeel_ok(b@, a@, c@, p@),
{
    b.wf_witness();
    a.wf_witness();
    c.wf_witness();
    p.wf_witness();
    let ac = match a.mul(c) {
        Some(v) => v,
        None => {
            return None;
        },
    };
    let q = match ac.div(p) {
        Some(v) => v,
        None => {
            return None;
        },
    };
    let res = match b.sub(&q) {
        Some(v) => v,
        None => {
            return None;
        },
    };
    proof {
        let prod = rq_mul(a@, c@);
        let dv = rq_div(prod, p@);
        let dvt = rq_div(ac@, p@);
        lemma_nz_mul(a@.d, c@.d);
        lemma_reduce_eq(prod);
        lemma_nz_mul(ac@.d, p@.n);
        lemma_norm_eq(dvt);
        lemma_reduce_eq(rq_norm(dvt));
        lemma_rq_trans(q@, rq_norm(dvt), dvt);
        lemma_div_cong(ac@, prod, p@, p@);
        lemma_nz_mul(prod.d, p@.n);
        lemma_rq_trans(q@, dvt, dv);
        lemma_sub_cong(b@, b@, q@, dv);
        lemma_den_prod(b@.d, q@.d);
        lemma_reduce_eq(rq_sub(b@, q@));
        lemma_rq_trans(res@, rq_sub(b@, q@), peel_entry(b@, a@, c@, p@));
        lemma_div_cong(prod, ac@, p@, p@);
        lemma_rq_trans(dv, dvt, q@);
        lemma_sub_cong(b@, b@, dv, q@);
        lemma_rq_trans(peel_entry(b@, a@, c@, p@), rq_sub(b@, q@), res@);
    }
    Some(res)
}

/// Build the x-shear matrix from its triple.
fn shear_x_from_entries(xx: Rat, xy: Rat, xz: Rat) -> (r: Mat3)
    ensures
        r@.m11 == xx@ && r@.m12 == xy@ && r@.m13 == xz@,
        r@.m21 == rq_zero() && r@.m22 == rq_one() && r@.m23 == rq_zero(),
        r@.m31 == rq_zero() && r@.m32 == rq_zero() && r@.m33 == rq_one(),
{
    let zero = Rat::from_int(0);
    let one = Rat::from_int(1);
    Mat3 {
        m11: xx,
        m12: xy,
        m13: xz,
        m21: zero,
        m22: one,
        m23: zero,
        m31: zero,
        m32: zero,
        m33: one,
    }
}

/// Build the y-shear matrix from its triple.
fn shear_y_from_entries(yx: Rat, yy: Rat, yz: Rat) -> (r: Mat3)
    ensures
        r@.m11 == rq_one() && r@.m12 == rq_zero() && r@.m13 == rq_zero(),
        r@.m21 == yx@ && r@.m22 == yy@ && r@.m23 == yz@,
        r@.m31 == rq_zero() && r@.m32 == rq_zero() && r@.m33 == rq_one(),
{
    let zero = Rat::from_int(0);
    let one = Rat::from_int(1);
    Mat3 {
        m11: one,
        m12: zero,
        m13: zero,
        m21: yx,
        m22: yy,
        m23: yz,
        m31: zero,
        m32: zero,
        m33: one,
    }
}

/// Build the z-shear matrix from its triple.
fn shear_z_from_entries(zx: Rat, zy: Rat, zz: Rat) -> (r: Mat3)
    ensures
        r@.m11 == rq_one() && r@.m12 == rq_zero() && r@.m13 == rq_zero(),
        r@.m21 == rq_zero() && r@.m22 == rq_one() && r@.m23 == rq_zero(),
        r@.m31 == zx@ && r@.m32 == zy@ && r@.m33 == zz@,
{
    let zero = Rat::from_int(0);
    let one = Rat::from_int(1);
    Mat3 {
        m11: one,
        m12: zero,
        m13: zero,
        m21: zero,
        m22: one,
        m23: zero,
        m31: zx,
        m32: zy,
        m33: zz,
    }
}

impl PaethRotation3 {
    /// Decompose a 3-by-3 rotation matrix by successive peeling.
    ///
    /// Returns `DegenerateShearPivot` exactly when a required pivot
    /// (`m11`, or the peeled `yy`) is zero, `NumericOverflow` exactly
    /// when an exact intermediate leaves the scalar range, and otherwise
    /// the nine-scalar descriptor.
    pub fn new_from_matrix(m: &Mat3) -> (r: Result<PaethRotation3, RotateError>)
        ensures
            r matches Ok(p) ==> sh3_eq(p@, spec_decomp3(m@)) && sh3_eq(spec_decomp3(m@), p@),
            r matches Ok(p) ==> p@.xx == m@.m11 && p@.xy == m@.m12 && p@.xz == m@.m13,
            r matches Ok(p) ==> m@.m11.n != 0 && spec_decomp3(m@).yy.n != 0,
            r is Ok <==> m@.m11.n != 0 && decomp3_fits_a(m@) && eyy(m@).n != 0 && decomp3_fits_b(
                m@,
            ),
            r == Err::<PaethRotation3, RotateError>(RotateError::DegenerateShearPivot) <==> (
            m@.m11.n == 0 || (m@.m11.n != 0 && decomp3_fits_a(m@) && eyy(m@).n == 0)),
            r == Err::<PaethRotation3, RotateError>(RotateError::NumericOverflow) <==> (m@.m11.n
                != 0 && !decomp3_fits_a(m@)) || (m@.m11.n != 0 && decomp3_fits_a(m@) && eyy(m@).n
                != 0 && !decomp3_fits_b(m@)),
    {
        m.m11.wf_witness();
        m.m12.wf_witness();
        m.m13.wf_witness();
        m.m21.wf_witness();
        m.m22.wf_witness();
        m.m23.wf_witness();
        m.m31.wf_witness();
        m.m32.wf_witness();
        m.m33.wf_witness();
        if m.m11.is_zero() {
            return Err(RotateError::DegenerateShearPivot);
        }
        let yx = match m.m21.div(&m.m11) {
            Some(v) => v,
            None => {
                return Err(RotateError::NumericOverflow);
            },
        };
        let yy = match peel(&m.m22, &m.m21, &m.m12, &m.m11) {
            Some(v) => v,
            None => {
                return Err(RotateError::NumericOverflow);
            },
        };
        let yz = match peel(&m.m23, &m.m21, &m.m13, &m.m11) {
            Some(v) => v,
            None => {
                return Err(RotateError::NumericOverflow);
            },
        };
        let t31 = match m.m31.div(&m.m11) {
            Some(v) => v,
            None => {
                return Err(RotateError::NumericOverflow);
            },
        };
        let t32 = match peel(&m.m32, &m.m31, &m.m12, &m.m11) {
            Some(v) => v,
            None => {
                return Err(RotateError::NumericOverflow);
            },
        };
        let t33 = match peel(&m.m33, &m.m31, &m.m13, &m.m11) {
            Some(v) => v,
            None => {
                return Err(RotateError::NumericOverflow);
            },
        };
        proof {
            // the peeled second pivot denotes the same rational as the
            // symbolic one, so zero-ness transfers
            let s = spec_decomp3(m@);
            lemma_nz_mul(m@.m21.d, m@.m12.d);
            lemma_nz_mul(rq_mul(m@.m21, m@.m12).d, m@.m11.n);
            lemma_nz_mul(m@.m22.d, rq_div(rq_mul(m@.m21, m@.m12), m@.m11).d);
            lemma_pivot_cong(yy@, s.yy);
        }
        if yy.is_zero() {
            return Err(RotateError::DegenerateShearPivot);
        }
        let zx = match peel(&t31, &t32, &yx, &yy) {
            Some(v) => v,
            None => {
                return Err(RotateError::NumericOverflow);
            },
        };
        let zy = match t32.div(&yy) {
            Some(v) => v,
            None => {
                return Err(RotateError::NumericOverflow);
            },
        };
        let zz = match peel(&t33, &t32, &yz, &yy) {
            Some(v) => v,
            None => {
                return Err(RotateError::NumericOverflow);
            },
        };
        proof {
            let s = spec_decomp3(m@);
            let syx = rq_div(m@.m21, m@.m11);
            let syy = peel_entry(m@.m22, m@.m21, m@.m12, m@.m11);
            let syz = peel_entry(m@.m23, m@.m21, m@.m13, m@.m11);
            let st31 = rq_div(m@.m31, m@.m11);
            let st32 = peel_entry(m@.m32, m@.m31, m@.m12, m@.m11);
            let st33 = peel_entry(m@.m33, m@.m31, m@.m13, m@.m11);
            // yx: the reduced normalised quotient denotes the symbolic one
            lemma_nz_mul(m@.m21.d, m@.m11.n);
            lemma_norm_eq(syx);
            lemma_reduce_eq(rq_norm(syx));
            lemma_rq_trans(yx@, rq_norm(syx), syx);
            lemma_rq_trans(syx, rq_norm(syx), yx@);
            // t31 likewise
            lemma_nz_mul(m@.m31.d, m@.m11.n);
            lemma_norm_eq(st31);
            lemma_reduce_eq(rq_norm(st31));
            lemma_rq_trans(t31@, rq_norm(st31), st31);
            lemma_rq_trans(st31, rq_norm(st31), t31@);
            // zx == t31 - (t32*yx)/yy, congruent to the symbolic peel
            let midzx = peel_entry(t31@, t32@, yx@, yy@);
            lemma_mul_cong(t32@, st32, yx@, syx);
            lemma_div_cong(rq_mul(t32@, yx@), rq_mul(st32, syx), yy@, syy);
            lemma_sub_cong(t31@, st31, rq_div(rq_mul(t32@, yx@), yy@), rq_div(
                rq_mul(st32, syx),
                syy,
            ));
            lemma_nz_mul(t32@.d, yx@.d);
            lemma_nz_mul(t32@.d * yx@.d, yy@.n);
            lemma_nz_mul(t31@.d, (t32@.d * yx@.d) * yy@.n);
            lemma_rq_trans(zx@, midzx, s.zx);
            lemma_mul_cong(st32, t32@, syx, yx@);
            lemma_div_cong(rq_mul(st32, syx), rq_mul(t32@, yx@), syy, yy@);
            lemma_sub_cong(st31, t31@, rq_div(rq_mul(st32, syx), syy), rq_div(
                rq_mul(t32@, yx@),
                yy@,
            ));
            lemma_rq_trans(s.zx, midzx, zx@);
            // zy == t32/yy
            let midzy = rq_div(t32@, yy@);
            lemma_nz_mul(t32@.d, yy@.n);
            lemma_norm_eq(midzy);
            lemma_reduce_eq(rq_norm(midzy));
            lemma_rq_trans(zy@, rq_norm(midzy), midzy);
            lemma_div_cong(t32@, st32, yy@, syy);
            lemma_rq_trans(zy@, midzy, s.zy);
            lemma_div_cong(st32, t32@, syy, yy@);
            lemma_rq_trans(s.zy, midzy, zy@);
            // zz == t33 - (t32*yz)/yy
            let midzz = peel_entry(t33@, t32@, yz@, yy@);
            lemma_mul_cong(t32@, st32, yz@, syz);
            lemma_div_cong(rq_mul(t32@, yz@), rq_mul(st32, syz), yy@, syy);
            lemma_sub_cong(t33@, st33, rq_div(rq_mul(t32@, yz@), yy@), rq_div(
                rq_mul(st32, syz),
                syy,
            ));
            lemma_nz_mul(t32@.d, yz@.d);
            lemma_nz_mul(t32@.d * yz@.d, yy@.n);
            lemma_nz_mul(t33@.d, (t32@.d * yz@.d) * yy@.n);
            lemma_rq_trans(zz@, midzz, s.zz);
            lemma_mul_cong(st32, t32@, syz, yz@);
            lemma_div_cong(rq_mul(st32, syz), rq_mul(t32@, yz@), syy, yy@);
            lemma_sub_cong(st33, t33@, rq_div(rq_mul(st32, syz), syy), rq_div(
                rq_mul(t32@, yz@),
                yy@,
            ));
            lemma_rq_trans(s.zz, midzz, zz@);
        }
        Ok(PaethRotation3 { xx: m.m11, xy: m.m12, xz: m.m13, yx, yy, yz, zx, zy, zz })
    }

    /// Decompose a rotation (same contract as `new_from_matrix`).
    pub fn new(rot3: &Mat3) -> (r: Result<PaethRotation3, RotateError>)
        ensures
            r matches Ok(p) ==> sh3_eq(p@, spec_decomp3(rot3@)) && sh3_eq(
                spec_decomp3(rot3@),
                p@,
            ),
            r is Ok <==> rot3@.m11.n != 0 && decomp3_fits_a(rot3@) && eyy(rot3@).n != 0
                && decomp3_fits_b(rot3@),
    {
        Self::new_from_matrix(rot3)
    }

    /// The x-shear matrix `[[xx, xy, xz], [0, 1, 0], [0, 0, 1]]`.
    pub fn shear_x(&self) -> (r: Mat3)
        ensures
            r@ == spec_shear_x3(self@),
    {
        shear_x_from_entries(self.xx, self.xy, self.xz)
    }

    /// The y-shear matrix `[[1, 0, 0], [yx, yy, yz], [0, 0, 1]]`.
    pub fn shear_y(&self) -> (r: Mat3)
        ensures
            r@ == spec_shear_y3(self@),
    {
        shear_y_from_entries(self.yx, self.yy, self.yz)
    }

    /// The z-shear matrix `[[1, 0, 0], [0, 1, 0], [zx, zy, zz]]`.
    pub fn shear_z(&self) -> (r: Mat3)
        ensures
            r@ == spec_shear_z3(self@),
    {
        shear_z_from_entries(self.zx, self.zy, self.zz)
    }
}


/// Law: for every matrix with nonzero entry denominators whose pivots
/// `m11` and peeled `yy` are nonzero, the three shears of its
/// decomposition rebuild it exactly: `(Z*Y)*X == m` entrywise as
/// rationals.  This is an algebraic identity of the peeling, not an
/// approximation, and does not require `m` to be a rotation.
pub proof fn lemma_rebuild3(m: SpecMat3)
    requires
        sm3_nz(m),
        m.m11.n != 0,
        spec_decomp3(m).yy.n != 0,
    ensures
        sm3_eq(spec_rebuild3(spec_decomp3(m)), m),
        sm3_eq(m, spec_rebuild3(spec_decomp3(m))),
{
    let s = spec_decomp3(m);
    let sz = spec_shear_z3(s);
    let sy = spec_shear_y3(s);
    let sx = spec_shear_x3(s);
    let g = sm3_mul(sz, sy);
    let r = sm3_mul(g, sx);
    let t31 = rq_div(m.m31, m.m11);
    let t32 = peel_entry(m.m32, m.m31, m.m12, m.m11);
    let t33 = peel_entry(m.m33, m.m31, m.m13, m.m11);
    // nonzero denominators of the descriptor entries
    lemma_nz_mul(m.m21.d, m.m11.n);
    lemma_nz_mul(m.m21.d, m.m12.d);
    lemma_nz_mul(m.m21.d * m.m12.d, m.m11.n);
    lemma_nz_mul(m.m22.d, (m.m21.d * m.m12.d) * m.m11.n);
    lemma_nz_mul(m.m21.d, m.m13.d);
    lemma_nz_mul(m.m21.d * m.m13.d, m.m11.n);
    lemma_nz_mul(m.m23.d, (m.m21.d * m.m13.d) * m.m11.n);
    lemma_nz_mul(m.m31.d, m.m11.n);
    lemma_nz_mul(m.m31.d, m.m12.d);
    lemma_nz_mul(m.m31.d * m.m12.d, m.m11.n);
    lemma_nz_mul(m.m32.d, (m.m31.d * m.m12.d) * m.m11.n);
    lemma_nz_mul(m.m31.d, m.m13.d);
    lemma_nz_mul(m.m31.d * m.m13.d, m.m11.n);
    lemma_nz_mul(m.m33.d, (m.m31.d * m.m13.d) * m.m11.n);
    assert(rq_nz(s.yx) && rq_nz(s.yy) && rq_nz(s.yz) && rq_nz(t31) && rq_nz(t32) && rq_nz(t33));
    lemma_nz_mul(t32.d, s.yx.d);
    lemma_nz_mul(t32.d * s.yx.d, s.yy.n);
    lemma_nz_mul(t31.d, (t32.d * s.yx.d) * s.yy.n);
    lemma_nz_mul(t32.d, s.yy.n);
    lemma_nz_mul(t32.d, s.yz.d);
    lemma_nz_mul(t32.d * s.yz.d, s.yy.n);
    lemma_nz_mul(t33.d, (t32.d * s.yz.d) * s.yy.n);
    assert(rq_nz(s.zx) && rq_nz(s.zy) && rq_nz(s.zz));
    // --- the partial product G = Z*Y, entry by entry ---
    // row one is the identity row as rationals
    lemma_add_two_zeros(rq_mul(rq_one(), rq_one()), rq_mul(rq_zero(), s.yx), rq_mul(
        rq_zero(),
        rq_zero(),
    ));
    assert(rq_eq(rq_mul(rq_one(), rq_one()), rq_one()));
    lemma_rq_trans(g.m11, rq_mul(rq_one(), rq_one()), rq_one());
    let i12 = rq_add(rq_mul(rq_one(), rq_zero()), rq_mul(rq_zero(), s.yy));
    lemma_zero_mul(rq_mul(rq_one(), rq_zero()).n, rq_mul(rq_zero(), s.yy).d);
    lemma_zero_mul(rq_mul(rq_zero(), s.yy).n, rq_mul(rq_one(), rq_zero()).d);
    assert(i12.n == 0);
    lemma_zero_mul(i12.n, rq_mul(rq_zero(), rq_zero()).d);
    lemma_zero_mul(rq_mul(rq_zero(), rq_zero()).n, i12.d);
    assert(g.m12.n == 0);
    let i13 = rq_add(rq_mul(rq_one(), rq_zero()), rq_mul(rq_zero(), s.yz));
    lemma_zero_mul(rq_mul(rq_one(), rq_zero()).n, rq_mul(rq_zero(), s.yz).d);
    lemma_zero_mul(rq_mul(rq_zero(), s.yz).n, rq_mul(rq_one(), rq_zero()).d);
    assert(i13.n == 0);
    lemma_zero_mul(i13.n, rq_mul(rq_zero(), rq_one()).d);
    lemma_zero_mul(rq_mul(rq_zero(), rq_one()).n, i13.d);
    assert(g.m13.n == 0);
    // row two is the y-triple as rationals
    lemma_add_zero_lr(rq_mul(rq_zero(), rq_one()), rq_mul(rq_one(), s.yx), rq_mul(
        rq_zero(),
        rq_zero(),
    ));
    lemma_one_mul(s.yx);
    lemma_rq_trans(g.m21, rq_mul(rq_one(), s.yx), s.yx);
    lemma_add_zero_lr(rq_mul(rq_zero(), rq_zero()), rq_mul(rq_one(), s.yy), rq_mul(
        rq_zero(),
        rq_zero(),
    ));
    lemma_one_mul(s.yy);
    lemma_rq_trans(g.m22, rq_mul(rq_one(), s.yy), s.yy);
    lemma_add_zero_lr(rq_mul(rq_zero(), rq_zero()), rq_mul(rq_one(), s.yz), rq_mul(
        rq_zero(),
        rq_one(),
    ));
    lemma_one_mul(s.yz);
    lemma_rq_trans(g.m23, rq_mul(rq_one(), s.yz), s.yz);
    // row three is the third row of the first peel, as rationals
    let w1 = rq_div(rq_mul(t32, s.yx), s.yy);
    let inner31 = rq_add(rq_mul(s.zx, rq_one()), rq_mul(s.zy, s.yx));
    assert(rq_mul(s.zz, rq_zero()).n == 0);
    lemma_add_zero_r(inner31, rq_mul(s.zz, rq_zero()));
    lemma_mul_one_r(s.zx);
    lemma_mul_div_swap(t32, s.yx, s.yy);
    lemma_add_cong(rq_mul(s.zx, rq_one()), s.zx, rq_mul(s.zy, s.yx), w1);
    lemma_sub_then_add(t31, w1);
    lemma_nz_mul(s.zy.d, s.yx.d);
    lemma_nz_mul(s.zx.d * 1, s.zy.d * s.yx.d);
    lemma_rq_trans(g.m31, inner31, rq_add(s.zx, w1));
    lemma_nz_mul(s.zx.d, w1.d);
    lemma_rq_trans(g.m31, rq_add(s.zx, w1), t31);
    lemma_nz_mul(s.zy.d, s.yy.d);
    lemma_add_zero_lr(rq_mul(s.zx, rq_zero()), rq_mul(s.zy, s.yy), rq_mul(s.zz, rq_zero()));
    lemma_div_cancel(t32, s.yy);
    lemma_nz_mul(s.zy.d, s.yy.d);
    lemma_rq_trans(g.m32, rq_mul(s.zy, s.yy), t32);
    let w2 = rq_div(rq_mul(t32, s.yz), s.yy);
    let inner33 = rq_add(rq_mul(s.zx, rq_zero()), rq_mul(s.zy, s.yz));
    lemma_add_zero_l(rq_mul(s.zx, rq_zero()), rq_mul(s.zy, s.yz));
    lemma_mul_div_swap(t32, s.yz, s.yy);
    lemma_nz_mul(s.zy.d, s.yz.d);
    lemma_rq_trans(inner33, rq_mul(s.zy, s.yz), w2);
    lemma_mul_one_r(s.zz);
    lemma_add_cong(inner33, w2, rq_mul(s.zz, rq_one()), s.zz);
    lemma_add_sub_cancel(t33, w2);
    lemma_nz_mul(s.zx.d * 1, s.zy.d * s.yz.d);
    lemma_nz_mul((t32.d * s.yz.d) * s.yy.n, s.zz.d);
    lemma_rq_trans(g.m33, rq_add(w2, s.zz), t33);
    // --- R = G*X, entry by entry ---
    lemma_nz_den6(rq_one().d, rq_one().d, rq_zero().d, s.yx.d, rq_zero().d, rq_zero().d, g.m11.d);
    lemma_nz_den6(rq_one().d, rq_zero().d, rq_zero().d, s.yy.d, rq_zero().d, rq_zero().d, g.m12.d);
    lemma_nz_den6(rq_one().d, rq_zero().d, rq_zero().d, s.yz.d, rq_zero().d, rq_one().d, g.m13.d);
    lemma_nz_den6(rq_zero().d, rq_one().d, rq_one().d, s.yx.d, rq_zero().d, rq_zero().d, g.m21.d);
    lemma_nz_den6(rq_zero().d, rq_zero().d, rq_one().d, s.yy.d, rq_zero().d, rq_zero().d, g.m22.d);
    lemma_nz_den6(rq_zero().d, rq_zero().d, rq_one().d, s.yz.d, rq_zero().d, rq_one().d, g.m23.d);
    lemma_nz_den6(s.zx.d, rq_one().d, s.zy.d, s.yx.d, s.zz.d, rq_zero().d, g.m31.d);
    lemma_nz_den6(s.zx.d, rq_zero().d, s.zy.d, s.yy.d, s.zz.d, rq_zero().d, g.m32.d);
    lemma_nz_den6(s.zx.d, rq_zero().d, s.zy.d, s.yz.d, s.zz.d, rq_one().d, g.m33.d);
    // zero numerators and nonzero denominators used across the R entries
    lemma_mul_zero_r(g.m12, rq_zero());
    lemma_mul_zero_r(g.m13, rq_zero());
    lemma_zero_mul(g.m12.n, rq_one().n);
    lemma_zero_mul(g.m13.n, rq_one().n);
    lemma_mul_zero_r(g.m22, rq_zero());
    lemma_mul_zero_r(g.m23, rq_zero());
    lemma_mul_zero_r(g.m32, rq_zero());
    lemma_mul_zero_r(g.m33, rq_zero());
    lemma_nz_mul(g.m11.d, m.m11.d);
    lemma_nz_mul(g.m11.d, m.m12.d);
    lemma_nz_mul(g.m11.d, m.m13.d);
    lemma_nz_mul(g.m12.d, rq_zero().d);
    lemma_nz_mul(g.m12.d, rq_one().d);
    lemma_nz_mul(g.m21.d, m.m11.d);
    lemma_nz_mul(g.m21.d, m.m12.d);
    lemma_nz_mul(g.m21.d, m.m13.d);
    lemma_nz_mul(g.m22.d, rq_zero().d);
    lemma_nz_mul(g.m22.d, rq_one().d);
    lemma_nz_mul(g.m31.d, m.m11.d);
    lemma_nz_mul(g.m31.d, m.m12.d);
    lemma_nz_mul(g.m31.d, m.m13.d);
    lemma_nz_mul(g.m32.d, rq_zero().d);
    lemma_nz_mul(g.m32.d, rq_one().d);
    lemma_nz_mul(rq_one().d, m.m11.d);
    lemma_nz_mul(rq_one().d, m.m12.d);
    lemma_nz_mul(rq_one().d, m.m13.d);
    lemma_nz_mul(g.m21.d * m.m12.d, g.m22.d * rq_one().d);
    lemma_nz_mul(g.m31.d * m.m12.d, g.m32.d * rq_one().d);
    // row one: reproduces the x-triple
    lemma_add_two_zeros(rq_mul(g.m11, s.xx), rq_mul(g.m12, rq_zero()), rq_mul(g.m13, rq_zero()));
    lemma_mul_cong(g.m11, rq_one(), s.xx, s.xx);
    lemma_one_mul(s.xx);
    lemma_nz_mul(g.m11.d, m.m11.d);
    lemma_rq_trans(rq_mul(g.m11, s.xx), rq_mul(rq_one(), s.xx), s.xx);
    lemma_rq_trans(r.m11, rq_mul(g.m11, s.xx), m.m11);
    lemma_add_two_zeros(rq_mul(g.m11, s.xy), rq_mul(g.m12, rq_one()), rq_mul(g.m13, rq_zero()));
    lemma_mul_cong(g.m11, rq_one(), s.xy, s.xy);
    lemma_one_mul(s.xy);
    lemma_nz_mul(g.m11.d, m.m12.d);
    lemma_rq_trans(rq_mul(g.m11, s.xy), rq_mul(rq_one(), s.xy), s.xy);
    lemma_rq_trans(r.m12, rq_mul(g.m11, s.xy), m.m12);
    lemma_add_two_zeros(rq_mul(g.m11, s.xz), rq_mul(g.m12, rq_zero()), rq_mul(g.m13, rq_one()));
    lemma_mul_cong(g.m11, rq_one(), s.xz, s.xz);
    lemma_one_mul(s.xz);
    lemma_nz_mul(g.m11.d, m.m13.d);
    lemma_rq_trans(rq_mul(g.m11, s.xz), rq_mul(rq_one(), s.xz), s.xz);
    lemma_rq_trans(r.m13, rq_mul(g.m11, s.xz), m.m13);
    // row two: reproduces row two of m
    lemma_add_two_zeros(rq_mul(g.m21, s.xx), rq_mul(g.m22, rq_zero()), rq_mul(g.m23, rq_zero()));
    lemma_mul_cong(g.m21, s.yx, s.xx, s.xx);
    lemma_div_cancel(m.m21, m.m11);
    lemma_nz_mul(s.yx.d, m.m11.d);
    lemma_nz_mul(g.m21.d, m.m11.d);
    lemma_rq_trans(rq_mul(g.m21, s.xx), rq_mul(s.yx, s.xx), m.m21);
    lemma_rq_trans(r.m21, rq_mul(g.m21, s.xx), m.m21);
    let v22 = rq_div(rq_mul(m.m21, m.m12), m.m11);
    let inn22 = rq_add(rq_mul(g.m21, s.xy), rq_mul(g.m22, rq_one()));
    lemma_add_zero_r(inn22, rq_mul(g.m23, rq_zero()));
    lemma_mul_cong(g.m21, s.yx, s.xy, s.xy);
    lemma_mul_div_swap(m.m21, m.m12, m.m11);
    lemma_nz_mul(s.yx.d, m.m12.d);
    lemma_rq_trans(rq_mul(g.m21, s.xy), rq_mul(s.yx, s.xy), v22);
    lemma_mul_one_r(g.m22);
    lemma_rq_trans(rq_mul(g.m22, rq_one()), g.m22, s.yy);
    lemma_add_cong(rq_mul(g.m21, s.xy), v22, rq_mul(g.m22, rq_one()), s.yy);
    lemma_add_sub_cancel(m.m22, v22);
    lemma_nz_mul(v22.d, s.yy.d);
    lemma_rq_trans(inn22, rq_add(v22, s.yy), m.m22);
    lemma_rq_trans(r.m22, inn22, m.m22);
    let v23 = rq_div(rq_mul(m.m21, m.m13), m.m11);
    let inn23 = rq_add(rq_mul(g.m21, s.xz), rq_mul(g.m22, rq_zero()));
    lemma_add_zero_r(rq_mul(g.m21, s.xz), rq_mul(g.m22, rq_zero()));
    lemma_mul_cong(g.m21, s.yx, s.xz, s.xz);
    lemma_mul_div_swap(m.m21, m.m13, m.m11);
    lemma_nz_mul(s.yx.d, m.m13.d);
    lemma_nz_mul(g.m21.d, m.m13.d);
    lemma_rq_trans(rq_mul(g.m21, s.xz), rq_mul(s.yx, s.xz), v23);
    lemma_rq_trans(inn23, rq_mul(g.m21, s.xz), v23);
    lemma_mul_one_r(g.m23);
    lemma_rq_trans(rq_mul(g.m23, rq_one()), g.m23, s.yz);
    lemma_add_cong(inn23, v23, rq_mul(g.m23, rq_one()), s.yz);
    lemma_add_sub_cancel(m.m23, v23);
    lemma_nz_mul(v23.d, s.yz.d);
    lemma_rq_trans(r.m23, rq_add(v23, s.yz), m.m23);
    // row three: reproduces row three of m
    lemma_add_two_zeros(rq_mul(g.m31, s.xx), rq_mul(g.m32, rq_zero()), rq_mul(g.m33, rq_zero()));
    lemma_mul_cong(g.m31, t31, s.xx, s.xx);
    lemma_div_cancel(m.m31, m.m11);
    lemma_nz_mul(t31.d, m.m11.d);
    lemma_nz_mul(g.m31.d, m.m11.d);
    lemma_rq_trans(rq_mul(g.m31, s.xx), rq_mul(t31, s.xx), m.m31);
    lemma_rq_trans(r.m31, rq_mul(g.m31, s.xx), m.m31);
    let v32 = rq_div(rq_mul(m.m31, m.m12), m.m11);
    let inn32 = rq_add(rq_mul(g.m31, s.xy), rq_mul(g.m32, rq_one()));
    lemma_add_zero_r(inn32, rq_mul(g.m33, rq_zero()));
    lemma_mul_cong(g.m31, t31, s.xy, s.xy);
    lemma_mul_div_swap(m.m31, m.m12, m.m11);
    lemma_nz_mul(t31.d, m.m12.d);
    lemma_rq_trans(rq_mul(g.m31, s.xy), rq_mul(t31, s.xy), v32);
    lemma_mul_one_r(g.m32);
    lemma_rq_trans(rq_mul(g.m32, rq_one()), g.m32, t32);
    lemma_add_cong(rq_mul(g.m31, s.xy), v32, rq_mul(g.m32, rq_one()), t32);
    lemma_add_sub_cancel(m.m32, v32);
    lemma_nz_mul(v32.d, t32.d);
    lemma_rq_trans(inn32, rq_add(v32, t32), m.m32);
    lemma_rq_trans(r.m32, inn32, m.m32);
    let v33 = rq_div(rq_mul(m.m31, m.m13), m.m11);
    let inn33 = rq_add(rq_mul(g.m31, s.xz), rq_mul(g.m32, rq_zero()));
    lemma_add_zero_r(rq_mul(g.m31, s.xz), rq_mul(g.m32, rq_zero()));
    lemma_mul_cong(g.m31, t31, s.xz, s.xz);
    lemma_mul_div_swap(m.m31, m.m13, m.m11);
    lemma_nz_mul(t31.d, m.m13.d);
    lemma_nz_mul(g.m31.d, m.m13.d);
    lemma_rq_trans(rq_mul(g.m31, s.xz), rq_mul(t31, s.xz), v33);
    lemma_rq_trans(inn33, rq_mul(g.m31, s.xz), v33);
    lemma_mul_one_r(g.m33);
    lemma_rq_trans(rq_mul(g.m33, rq_one()), g.m33, t33);
    lemma_add_cong(inn33, v33, rq_mul(g.m33, rq_one()), t33);
    lemma_add_sub_cancel(m.m33, v33);
    lemma_nz_mul(v33.d, t33.d);
    lemma_rq_trans(r.m33, rq_add(v33, t33), m.m33);
}

/// Decomposition respects entrywise rational equality of its input.
proof fn lemma_decomp3_cong(a: SpecMat3, b: SpecMat3)
    requires
        sm3_eq(a, b),
    ensures
        sh3_eq(spec_decomp3(a), spec_decomp3(b)),
{
    lemma_div_cong(a.m21, b.m21, a.m11, b.m11);
    lemma_mul_cong(a.m21, b.m21, a.m12, b.m12);
    lemma_div_cong(rq_mul(a.m21, a.m12), rq_mul(b.m21, b.m12), a.m11, b.m11);
    lemma_sub_cong(a.m22, b.m22, rq_div(rq_mul(a.m21, a.m12), a.m11), rq_div(
        rq_mul(b.m21, b.m12),
        b.m11,
    ));
    lemma_mul_cong(a.m21, b.m21, a.m13, b.m13);
    lemma_div_cong(rq_mul(a.m21, a.m13), rq_mul(b.m21, b.m13), a.m11, b.m11);
    lemma_sub_cong(a.m23, b.m23, rq_div(rq_mul(a.m21, a.m13), a.m11), rq_div(
        rq_mul(b.m21, b.m13),
        b.m11,
    ));
    lemma_div_cong(a.m31, b.m31, a.m11, b.m11);
    lemma_mul_cong(a.m31, b.m31, a.m12, b.m12);
    lemma_div_cong(rq_mul(a.m31, a.m12), rq_mul(b.m31, b.m12), a.m11, b.m11);
    lemma_sub_cong(a.m32, b.m32, rq_div(rq_mul(a.m31, a.m12), a.m11), rq_div(
        rq_mul(b.m31, b.m12),
        b.m11,
    ));
    lemma_mul_cong(a.m31, b.m31, a.m13, b.m13);
    lemma_div_cong(rq_mul(a.m31, a.m13), rq_mul(b.m31, b.m13), a.m11, b.m11);
    lemma_sub_cong(a.m33, b.m33, rq_div(rq_mul(a.m31, a.m13), a.m11), rq_div(
        rq_mul(b.m31, b.m13),
        b.m11,
    ));
    let pa = spec_decomp3(a);
    let pb = spec_decomp3(b);
    lemma_mul_cong(
        peel_entry(a.m32, a.m31, a.m12, a.m11),
        peel_entry(b.m32, b.m31, b.m12, b.m11),
        pa.yx,
        pb.yx,
    );
    lemma_div_cong(
        rq_mul(peel_entry(a.m32, a.m31, a.m12, a.m11), pa.yx),
        rq_mul(peel_entry(b.m32, b.m31, b.m12, b.m11), pb.yx),
        pa.yy,
        pb.yy,
    );
    lemma_sub_cong(
        rq_div(a.m31, a.m11),
        rq_div(b.m31, b.m11),
        rq_div(rq_mul(peel_entry(a.m32, a.m31, a.m12, a.m11), pa.yx), pa.yy),
        rq_div(rq_mul(peel_entry(b.m32, b.m31, b.m12, b.m11), pb.yx), pb.yy),
    );
    lemma_div_cong(
        peel_entry(a.m32, a.m31, a.m12, a.m11),
        peel_entry(b.m32, b.m31, b.m12, b.m11),
        pa.yy,
        pb.yy,
    );
    lemma_mul_cong(
        peel_entry(a.m32, a.m31, a.m12, a.m11),
        peel_entry(b.m32, b.m31, b.m12, b.m11),
        pa.yz,
        pb.yz,
    );
    lemma_div_cong(
        rq_mul(peel_entry(a.m32, a.m31, a.m12, a.m11), pa.yz),
        rq_mul(peel_entry(b.m32, b.m31, b.m12, b.m11), pb.yz),
        pa.yy,
        pb.yy,
    );
    lemma_sub_cong(
        peel_entry(a.m33, a.m31, a.m13, a.m11),
        peel_entry(b.m33, b.m31, b.m13, b.m11),
        rq_div(rq_mul(peel_entry(a.m32, a.m31, a.m12, a.m11), pa.yz), pa.yy),
        rq_div(rq_mul(peel_entry(b.m32, b.m31, b.m12, b.m11), pb.yz), pb.yy),
    );
}

/// Law: the factorization is idempotent.  Decomposing, rebuilding the
/// shear product, and decomposing again yields the same descriptor,
/// entrywise as rationals.
pub proof fn lemma_redecomp3(m: SpecMat3)
    requires
        sm3_nz(m),
        m.m11.n != 0,
        spec_decomp3(m).yy.n != 0,
    ensures
        sh3_eq(spec_decomp3(spec_rebuild3(spec_decomp3(m))), spec_decomp3(m)),
{
    lemma_rebuild3(m);
    lemma_decomp3_cong(spec_rebuild3(spec_decomp3(m)), m);
}

} // verus!
