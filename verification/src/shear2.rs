//! Two-dimensional Paeth rotation.
//!
//! Decomposes a 2-by-2 rotation matrix into a y-shear following an
//! x-shear, `R = Y*X`, with
//!
//! ```text
//! X = [ xx  xy      Y = [  1   0
//!        0   1 ]          yx  yy ]
//! ```
//!
//! The factorization exists exactly when the pivot `m11` is nonzero; a
//! 90-degree rotation is reported as `DegenerateShearPivot`.  Over exact
//! rationals the reconstruction `Y*X == m` is an algebraic identity,
//! proved below as `lemma_rebuild2`.

use vstd::prelude::*;
use crate::rat::{
    Rat, Ratio, rq_nz, rq_eq, rq_zero, rq_one, rq_mul, rq_add, rq_sub, rq_div, rq_norm, rq_reduce,
    rq_fits, lemma_reduce_eq, lemma_norm_eq, lemma_rq_trans, lemma_nz_mul, lemma_mul_cong,
    lemma_sub_cong, lemma_div_cong, lemma_pivot_cong, lemma_add_cong, lemma_one_mul,
    lemma_mul_one_r, lemma_mul_zero_r, lemma_add_zero_r, lemma_div_cancel, lemma_mul_div_swap,
    lemma_add_sub_cancel,
};
use crate::mat::{Mat2, SpecMat2, sm2_eq, sm2_nz, sm2_mul};
use crate::RotateError;

verus! {

/// Ghost model of a 2-d shear descriptor.
pub ghost struct SpecShear2 {
    pub xx: Ratio,
    pub xy: Ratio,
    pub yx: Ratio,
    pub yy: Ratio,
}

/// Entrywise rational equality of descriptors.
pub open spec fn sh2_eq(a: SpecShear2, b: SpecShear2) -> bool {
    rq_eq(a.xx, b.xx) && rq_eq(a.xy, b.xy) && rq_eq(a.yx, b.yx) && rq_eq(a.yy, b.yy)
}

/// The closed-form factorization of the decomposer.
pub open spec fn spec_decomp2(m: SpecMat2) -> SpecShear2 {
    SpecShear2 {
        xx: m.m11,
        xy: m.m12,
        yx: rq_div(m.m21, m.m11),
        yy: rq_sub(m.m22, rq_div(rq_mul(m.m21, m.m12), m.m11)),
    }
}

/// The x-shear matrix of a descriptor.
pub open spec fn spec_shear_x2(s: SpecShear2) -> SpecMat2 {
    SpecMat2 { m11: s.xx, m12: s.xy, m21: rq_zero(), m22: rq_one() }
}

/// The y-shear matrix of a descriptor.
pub open spec fn spec_shear_y2(s: SpecShear2) -> SpecMat2 {
    SpecMat2 { m11: rq_one(), m12: rq_zero(), m21: s.yx, m22: s.yy }
}

/// Rebuilding in the fixed composition order: `Y*X`.
pub open spec fn spec_rebuild2(s: SpecShear2) -> SpecMat2 {
    sm2_mul(spec_shear_y2(s), spec_shear_x2(s))
}

/// When every exact intermediate of the executable decomposer stays in
/// scalar range.
pub open spec fn decomp2_fits(m: SpecMat2) -> bool {
    rq_fits(rq_norm(rq_div(m.m21, m.m11))) && rq_fits(rq_mul(m.m21, m.m12)) && rq_fits(
        rq_norm(rq_div(rq_reduce(rq_mul(m.m21, m.m12)), m.m11)),
    ) && rq_fits(rq_sub(m.m22, rq_reduce(rq_norm(rq_div(rq_reduce(rq_mul(m.m21, m.m12)), m.m11)))))
}

/// Two-dimensional Paeth rotation descriptor.
#[derive(Clone, Copy, PartialEq, Eq, Structural, Debug)]
pub struct PaethRotation2 {
    pub xx: Rat,
    pub xy: Rat,
    pub yx: Rat,
    pub yy: Rat,
}

impl View for PaethRotation2 {
    type V = SpecShear2;

    open spec fn view(&self) -> SpecShear2 {
        SpecShear2 { xx: self.xx@, xy: self.xy@, yx: self.yx@, yy: self.yy@ }
    }
}

impl PaethRotation2 {
    /// Decompose a 2-by-2 rotation matrix.
    ///
    /// Returns `DegenerateShearPivot` exactly when `m11` is zero (the
    /// 90-degree cases), `NumericOverflow` exactly when an exact
    /// intermediate leaves the scalar range, and otherwise the descriptor
    /// `{xx = m11, xy = m12, yx = m21/m11, yy = m22 - m21*m12/m11}`.
    pub fn new_from_matrix(m: &Mat2) -> (r: Result<PaethRotation2, RotateError>)
        ensures
            r matches Ok(p) ==> sh2_eq(p@, spec_decomp2(m@)) && sh2_eq(spec_decomp2(m@), p@),
            r matches Ok(p) ==> p@.xx == m@.m11 && p@.xy == m@.m12 && p@.yx == rq_reduce(
                rq_norm(rq_div(m@.m21, m@.m11)),
            ),
            r is Ok <==> m@.m11.n != 0 && decomp2_fits(m@),
            r == Err::<PaethRotation2, RotateError>(RotateError::DegenerateShearPivot) <==> m@.m11.n == 0,
            r == Err::<PaethRotation2, RotateError>(RotateError::NumericOverflow) <==> m@.m11.n != 0 && !decomp2_fits(m@),
    {
        m.m11.wf_witness();
        m.m12.wf_witness();
        m.m21.wf_witness();
        m.m22.wf_witness();
        if m.m11.is_zero() {
            return Err(RotateError::DegenerateShearPivot);
        }
        let yx = match m.m21.div(&m.m11) {
            Some(v) => v,
            None => {
                return Err(RotateError::NumericOverflow);
            },
        };
        let t = match m.m21.mul(&m.m12) {
            Some(v) => v,
            None => {
                return Err(RotateError::NumericOverflow);
            },
        };
        let u = match t.div(&m.m11) {
            Some(v) => v,
            None => {
                return Err(RotateError::NumericOverflow);
            },
        };
        let yy = match m.m22.sub(&u) {
            Some(v) => v,
            None => {
                return Err(RotateError::NumericOverflow);
            },
        };
        proof {
            let s = spec_decomp2(m@);
            // yx is the reduced normalised quotient; connect it to the
            // symbolic quotient.
            let dv = rq_div(m@.m21, m@.m11);
            lemma_nz_mul(m@.m21.d, m@.m11.n);
            lemma_norm_eq(dv);
            lemma_reduce_eq(rq_norm(dv));
            lemma_rq_trans(yx@, rq_norm(dv), dv);
            lemma_rq_trans(dv, rq_norm(dv), yx@);
            // yy: chase the chain m22 - (m21*m12)/m11.
            let p = rq_mul(m@.m21, m@.m12);
            let dv2 = rq_div(p, m@.m11);
            let dv2t = rq_div(t@, m@.m11);
            lemma_nz_mul(m@.m21.d, m@.m12.d);
            lemma_reduce_eq(p);
            lemma_nz_mul(t@.d, m@.m11.n);
            lemma_norm_eq(dv2t);
            lemma_reduce_eq(rq_norm(dv2t));
            lemma_rq_trans(u@, rq_norm(dv2t), dv2t);
            lemma_div_cong(t@, p, m@.m11, m@.m11);
            lemma_rq_trans(u@, dv2t, dv2);
            lemma_nz_mul(p.d, m@.m11.n);
            lemma_sub_cong(m@.m22, m@.m22, u@, dv2);
            crate::rat::lemma_den_prod(m@.m22.d, u@.d);
            lemma_reduce_eq(rq_sub(m@.m22, u@));
            lemma_rq_trans(yy@, rq_sub(m@.m22, u@), s.yy);
            // and the reverse directions
            lemma_div_cong(p, t@, m@.m11, m@.m11);
            lemma_rq_trans(dv2, dv2t, u@);
            lemma_sub_cong(m@.m22, m@.m22, dv2, u@);
            lemma_rq_trans(s.yy, rq_sub(m@.m22, u@), yy@);
        }
        Ok(PaethRotation2 { xx: m.m11, xy: m.m12, yx, yy })
    }

    /// Decompose a rotation (same contract as `new_from_matrix`).
    pub fn new(rot2: &Mat2) -> (r: Result<PaethRotation2, RotateError>)
        ensures
            r matches Ok(p) ==> sh2_eq(p@, spec_decomp2(rot2@)) && sh2_eq(
                spec_decomp2(rot2@),
                p@,
            ),
            r is Ok <==> rot2@.m11.n != 0 && decomp2_fits(rot2@),
            r == Err::<PaethRotation2, RotateError>(RotateError::DegenerateShearPivot) <==> rot2@.m11.n == 0,
            r == Err::<PaethRotation2, RotateError>(RotateError::NumericOverflow) <==> rot2@.m11.n != 0 && !decomp2_fits(rot2@),
    {
        Self::new_from_matrix(rot2)
    }

    /// The x-shear matrix `[[xx, xy], [0, 1]]`.
    pub fn shear_x(&self) -> (r: Mat2)
        ensures
            r@ == spec_shear_x2(self@),
    {
        Mat2 { m11: self.xx, m12: self.xy, m21: Rat::from_int(0), m22: Rat::from_int(1) }
    }

    /// The y-shear matrix `[[1, 0], [yx, yy]]`.
    pub fn shear_y(&self) -> (r: Mat2)
        ensures
            r@ == spec_shear_y2(self@),
    {
        Mat2 { m11: Rat::from_int(1), m12: Rat::from_int(0), m21: self.yx, m22: self.yy }
    }
}

/// Law: for every matrix with nonzero entries' denominators and a nonzero
/// pivot `m11`, the two shears of its decomposition rebuild it exactly:
/// `shearY(m) * shearX(m) == m` entrywise as rationals.
pub proof fn lemma_rebuild2(m: SpecMat2)
    requires
        sm2_nz(m),
        m.m11.n != 0,
    ensures
        sm2_eq(spec_rebuild2(spec_decomp2(m)), m),
        sm2_eq(m, spec_rebuild2(spec_decomp2(m))),
        sm2_nz(spec_rebuild2(spec_decomp2(m))),
        spec_rebuild2(spec_decomp2(m)).m11.n != 0,
{
    let s = spec_decomp2(m);
    let r = spec_rebuild2(s);
    let dv = rq_div(rq_mul(m.m21, m.m12), m.m11);
    // denominators of the descriptor entries are nonzero
    lemma_nz_mul(m.m21.d, m.m11.n);
    lemma_nz_mul(m.m21.d, m.m12.d);
    lemma_nz_mul(m.m21.d * m.m12.d, m.m11.n);
    lemma_nz_mul(m.m22.d, (m.m21.d * m.m12.d) * m.m11.n);
    assert(rq_nz(s.yx) && rq_nz(s.yy) && rq_nz(dv));
    // entry (1,1): 1*m11 + 0*0
    let a11 = rq_mul(rq_one(), m.m11);
    let z11 = rq_mul(rq_zero(), rq_zero());
    lemma_one_mul(m.m11);
    lemma_add_zero_r(a11, z11);
    lemma_rq_trans(r.m11, a11, m.m11);
    lemma_rq_trans(m.m11, a11, r.m11);
    // entry (1,2): 1*m12 + 0*1
    let a12 = rq_mul(rq_one(), m.m12);
    let z12 = rq_mul(rq_zero(), rq_one());
    lemma_one_mul(m.m12);
    lemma_add_zero_r(a12, z12);
    lemma_rq_trans(r.m12, a12, m.m12);
    lemma_rq_trans(m.m12, a12, r.m12);
    // entry (2,1): yx*m11 + yy*0, and yx*m11 == (m21/m11)*m11 == m21
    let a21 = rq_mul(s.yx, m.m11);
    let z21 = rq_mul(s.yy, rq_zero());
    lemma_mul_zero_r(s.yy, rq_zero());
    lemma_add_zero_r(a21, z21);
    lemma_div_cancel(m.m21, m.m11);
    lemma_nz_mul(m.m21.d * m.m11.n, m.m11.d);
    assert(rq_nz(a21));
    lemma_rq_trans(r.m21, a21, m.m21);
    lemma_rq_trans(m.m21, a21, r.m21);
    // entry (2,2): yx*m12 + yy*1; yx*m12 == (m21*m12)/m11, and adding
    // yy == m22 - (m21*m12)/m11 restores m22.
    let b = rq_mul(s.yx, m.m12);
    let o = rq_mul(s.yy, rq_one());
    let mid = rq_add(dv, s.yy);
    lemma_mul_one_r(s.yy);
    lemma_mul_div_swap(m.m21, m.m12, m.m11);
    lemma_add_cong(b, dv, o, s.yy);
    lemma_add_cong(dv, b, s.yy, o);
    lemma_add_sub_cancel(m.m22, dv);
    lemma_nz_mul(dv.d, s.yy.d);
    assert(rq_nz(mid));
    lemma_rq_trans(r.m22, mid, m.m22);
    lemma_rq_trans(m.m22, mid, r.m22);
    // nonzero denominators of the rebuilt entries
    lemma_nz_mul(a11.d, z11.d);
    lemma_nz_mul(a12.d, z12.d);
    lemma_nz_mul(a21.d, z21.d);
    lemma_nz_mul(m.m21.d * m.m11.n, m.m12.d);
    lemma_nz_mul(b.d, o.d);
    assert(rq_nz(r.m11) && rq_nz(r.m12) && rq_nz(r.m21) && rq_nz(r.m22));
    // the rebuilt pivot is nonzero
    lemma_pivot_cong(r.m11, m.m11);
}

/// Decomposition respects entrywise rational equality of its input.
proof fn lemma_decomp2_cong(a: SpecMat2, b: SpecMat2)
    requires
        sm2_eq(a, b),
    ensures
        sh2_eq(spec_decomp2(a), spec_decomp2(b)),
{
    lemma_div_cong(a.m21, b.m21, a.m11, b.m11);
    lemma_mul_cong(a.m21, b.m21, a.m12, b.m12);
    lemma_div_cong(rq_mul(a.m21, a.m12), rq_mul(b.m21, b.m12), a.m11, b.m11);
    lemma_sub_cong(a.m22, b.m22, rq_div(rq_mul(a.m21, a.m12), a.m11), rq_div(
        rq_mul(b.m21, b.m12),
        b.m11,
    ));
}

/// Law: the factorization is idempotent.  Decomposing, rebuilding the
/// shear product, and decomposing again yields the same descriptor,
/// entrywise as rationals.
pub proof fn lemma_redecomp2(m: SpecMat2)
    requires
        sm2_nz(m),
        m.m11.n != 0,
    ensures
        sh2_eq(spec_decomp2(spec_rebuild2(spec_decomp2(m))), spec_decomp2(m)),
{
    lemma_rebuild2(m);
    let r = spec_rebuild2(spec_decomp2(m));
    lemma_decomp2_cong(r, m);
}

} // verus!
