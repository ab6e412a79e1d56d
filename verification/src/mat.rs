//! Small dense matrices over the exact rational scalar.
//!
//! `Mat2` and `Mat3` hold the rotation matrices handed to the decomposers
//! and the shear matrices they produce.  Their ghost models are matrices
//! of `Ratio` values; matrix equality in contracts is entrywise rational
//! equality (`sm2_eq`, `sm3_eq`).

use vstd::prelude::*;
use crate::rat::{
    Rat, Ratio, rq_nz, rq_eq, rq_wf, rq_add, rq_mul, rq_reduce, rq_fits, lemma_den_prod,
    lemma_reduce_eq, lemma_add_cong, lemma_rq_trans,
};

verus! {

/// Ghost model of a 2-by-2 matrix.
pub ghost struct SpecMat2 {
    pub m11: Ratio,
    pub m12: Ratio,
    pub m21: Ratio,
    pub m22: Ratio,
}

/// Ghost model of a 3-by-3 matrix.
pub ghost struct SpecMat3 {
    pub m11: Ratio,
    pub m12: Ratio,
    pub m13: Ratio,
    pub m21: Ratio,
    pub m22: Ratio,
    pub m23: Ratio,
    pub m31: Ratio,
    pub m32: Ratio,
    pub m33: Ratio,
}

/// Every entry denotes a rational (nonzero denominator).
pub open spec fn sm2_nz(m: SpecMat2) -> bool {
    rq_nz(m.m11) && rq_nz(m.m12) && rq_nz(m.m21) && rq_nz(m.m22)
}

pub open spec fn sm3_nz(m: SpecMat3) -> bool {
    rq_nz(m.m11) && rq_nz(m.m12) && rq_nz(m.m13) && rq_nz(m.m21) && rq_nz(m.m22) && rq_nz(m.m23)
        && rq_nz(m.m31) && rq_nz(m.m32) && rq_nz(m.m33)
}

/// Entrywise rational equality.
pub open spec fn sm2_eq(a: SpecMat2, b: SpecMat2) -> bool {
    rq_eq(a.m11, b.m11) && rq_eq(a.m12, b.m12) && rq_eq(a.m21, b.m21) && rq_eq(a.m22, b.m22)
}

pub open spec fn sm3_eq(a: SpecMat3, b: SpecMat3) -> bool {
    rq_eq(a.m11, b.m11) && rq_eq(a.m12, b.m12) && rq_eq(a.m13, b.m13) && rq_eq(a.m21, b.m21)
        && rq_eq(a.m22, b.m22) && rq_eq(a.m23, b.m23) && rq_eq(a.m31, b.m31) && rq_eq(
        a.m32,
        b.m32,
    ) && rq_eq(a.m33, b.m33)
}

/// Two-term linear combination, the building block of a matrix product.
pub open spec fn lin2(a1: Ratio, b1: Ratio, a2: Ratio, b2: Ratio) -> Ratio {
    rq_add(rq_mul(a1, b1), rq_mul(a2, b2))
}

/// Three-term linear combination.
pub open spec fn lin3(a1: Ratio, b1: Ratio, a2: Ratio, b2: Ratio, a3: Ratio, b3: Ratio) -> Ratio {
    rq_add(lin2(a1, b1, a2, b2), rq_mul(a3, b3))
}

/// The exact value the executable two-term combination produces.
pub open spec fn lin2_exact(a1: Ratio, b1: Ratio, a2: Ratio, b2: Ratio) -> Ratio {
    rq_reduce(rq_add(rq_reduce(rq_mul(a1, b1)), rq_reduce(rq_mul(a2, b2))))
}

/// When the executable two-term combination stays in scalar range.
pub open spec fn lin2_fits(a1: Ratio, b1: Ratio, a2: Ratio, b2: Ratio) -> bool {
    rq_fits(rq_mul(a1, b1)) && rq_fits(rq_mul(a2, b2)) && rq_fits(
        rq_add(rq_reduce(rq_mul(a1, b1)), rq_reduce(rq_mul(a2, b2))),
    )
}

/// When the executable three-term combination stays in scalar range.
pub open spec fn lin3_fits(a1: Ratio, b1: Ratio, a2: Ratio, b2: Ratio, a3: Ratio, b3: Ratio) -> bool {
    lin2_fits(a1, b1, a2, b2) && rq_fits(rq_mul(a3, b3)) && rq_fits(
        rq_add(lin2_exact(a1, b1, a2, b2), rq_reduce(rq_mul(a3, b3))),
    )
}

/// Matrix product of the ghost models.
pub open spec fn sm2_mul(a: SpecMat2, b: SpecMat2) -> SpecMat2 {
    SpecMat2 {
        m11: lin2(a.m11, b.m11, a.m12, b.m21),
        m12: lin2(a.m11, b.m12, a.m12, b.m22),
        m21: lin2(a.m21, b.m11, a.m22, b.m21),
        m22: lin2(a.m21, b.m12, a.m22, b.m22),
    }
}

pub open spec fn sm3_mul(a: SpecMat3, b: SpecMat3) -> SpecMat3 {
    SpecMat3 {
        m11: lin3(a.m11, b.m11, a.m12, b.m21, a.m13, b.m31),
        m12: lin3(a.m11, b.m12, a.m12, b.m22, a.m13, b.m32),
        m13: lin3(a.m11, b.m13, a.m12, b.m23, a.m13, b.m33),
        m21: lin3(a.m21, b.m11, a.m22, b.m21, a.m23, b.m31),
        m22: lin3(a.m21, b.m12, a.m22, b.m22, a.m23, b.m32),
        m23: lin3(a.m21, b.m13, a.m22, b.m23, a.m23, b.m33),
        m31: lin3(a.m31, b.m11, a.m32, b.m21, a.m33, b.m31),
        m32: lin3(a.m31, b.m12, a.m32, b.m22, a.m33, b.m32),
        m33: lin3(a.m31, b.m13, a.m32, b.m23, a.m33, b.m33),
    }
}

/// When the executable 2-by-2 product stays in scalar range.
pub open spec fn sm2_mul_fits(a: SpecMat2, b: SpecMat2) -> bool {
    lin2_fits(a.m11, b.m11, a.m12, b.m21) && lin2_fits(a.m11, b.m12, a.m12, b.m22) && lin2_fits(
        a.m21,
        b.m11,
        a.m22,
        b.m21,
    ) && lin2_fits(a.m21, b.m12, a.m22, b.m22)
}

/// When the executable 3-by-3 product stays in scalar range.
pub open spec fn sm3_mul_fits(a: SpecMat3, b: SpecMat3) -> bool {
    lin3_fits(a.m11, b.m11, a.m12, b.m21, a.m13, b.m31) && lin3_fits(
        a.m11,
        b.m12,
        a.m12,
        b.m22,
        a.m13,
        b.m32,
    ) && lin3_fits(a.m11, b.m13, a.m12, b.m23, a.m13, b.m33) && lin3_fits(
        a.m21,
        b.m11,
        a.m22,
        b.m21,
        a.m23,
        b.m31,
    ) && lin3_fits(a.m21, b.m12, a.m22, b.m22, a.m23, b.m32) && lin3_fits(
        a.m21,
        b.m13,
        a.m22,
        b.m23,
        a.m23,
        b.m33,
    ) && lin3_fits(a.m31, b.m11, a.m32, b.m21, a.m33, b.m31) && lin3_fits(
        a.m31,
        b.m12,
        a.m32,
        b.m22,
        a.m33,
        b.m32,
    ) && lin3_fits(a.m31, b.m13, a.m32, b.m23, a.m33, b.m33)
}

/// Executable 2-by-2 matrix of exact rationals.
#[derive(Clone, Copy, PartialEq, Eq, Structural, Debug)]
pub struct Mat2 {
    pub m11: Rat,
    pub m12: Rat,
    pub m21: Rat,
    pub m22: Rat,
}

impl View for Mat2 {
    type V = SpecMat2;

    open spec fn view(&self) -> SpecMat2 {
        SpecMat2 { m11: self.m11@, m12: self.m12@, m21: self.m21@, m22: self.m22@ }
    }
}

/// Executable 3-by-3 matrix of exact rationals.
#[derive(Clone, Copy, PartialEq, Eq, Structural, Debug)]
pub struct Mat3 {
    pub m11: Rat,
    pub m12: Rat,
    pub m13: Rat,
    pub m21: Rat,
    pub m22: Rat,
    pub m23: Rat,
    pub m31: Rat,
    pub m32: Rat,
    pub m33: Rat,
}

impl View for Mat3 {
    type V = SpecMat3;

    open spec fn view(&self) -> SpecMat3 {
        SpecMat3 {
            m11: self.m11@,
            m12: self.m12@,
            m13: self.m13@,
            m21: self.m21@,
            m22: self.m22@,
            m23: self.m23@,
            m31: self.m31@,
            m32: self.m32@,
            m33: self.m33@,
        }
    }
}

/// Executable two-term combination `a1*b1 + a2*b2`.
fn dot2(a1: &Rat, b1: &Rat, a2: &Rat, b2: &Rat) -> (r: Option<Rat>)
    ensures
        r matches Some(q) ==> q@ == lin2_exact(a1@, b1@, a2@, b2@) && rq_wf(q@) && rq_eq(
            q@,
            lin2(a1@, b1@, a2@, b2@),
        ) && rq_eq(lin2(a1@, b1@, a2@, b2@), q@),
        r is Some <==> lin2_fits(a1@, b1@, a2@, b2@),
{
    a1.wf_witness();
    b1.wf_witness();
    a2.wf_witness();
    b2.wf_witness();
    let t1 = match a1.mul(b1) {
        Some(v) => v,
        None => {
            return None;
        },
    };
    let t2 = match a2.mul(b2) {
        Some(v) => v,
        None => {
            return None;
        },
    };
    let s = match t1.add(&t2) {
        Some(v) => v,
        None => {
            return None;
        },
    };
    proof {
        let p1 = rq_mul(a1@, b1@);
        let p2 = rq_mul(a2@, b2@);
        lemma_den_prod(a1@.d, b1@.d);
        lemma_den_prod(a2@.d, b2@.d);
        lemma_reduce_eq(p1);
        lemma_reduce_eq(p2);
        let mid = rq_add(t1@, t2@);
        lemma_den_prod(t1@.d, t2@.d);
        lemma_reduce_eq(mid);
        lemma_add_cong(t1@, p1, t2@, p2);
        lemma_rq_trans(s@, mid, lin2(a1@, b1@, a2@, b2@));
        lemma_add_cong(p1, t1@, p2, t2@);
        lemma_rq_trans(lin2(a1@, b1@, a2@, b2@), mid, s@);
    }
    Some(s)
}

/// Executable three-term combination `a1*b1 + a2*b2 + a3*b3`.
fn dot3(a1: &Rat, b1: &Rat, a2: &Rat, b2: &Rat, a3: &Rat, b3: &Rat) -> (r: Option<Rat>)
    ensures
        r matches Some(q) ==> rq_wf(q@) && rq_eq(q@, lin3(a1@, b1@, a2@, b2@, a3@, b3@)) && rq_eq(
            lin3(a1@, b1@, a2@, b2@, a3@, b3@),
            q@,
        ),
        r is Some <==> lin3_fits(a1@, b1@, a2@, b2@, a3@, b3@),
{
    a3.wf_witness();
    b3.wf_witness();
    let s2 = match dot2(a1, b1, a2, b2) {
        Some(v) => v,
        None => {
            return None;
        },
    };
    let t3 = match a3.mul(b3) {
        Some(v) => v,
        None => {
            return None;
        },
    };
    let s = match s2.add(&t3) {
        Some(v) => v,
        None => {
            return None;
        },
    };
    proof {
        let p3 = rq_mul(a3@, b3@);
        lemma_den_prod(a3@.d, b3@.d);
        lemma_reduce_eq(p3);
        let mid = rq_add(s2@, t3@);
        lemma_den_prod(s2@.d, t3@.d);
        lemma_reduce_eq(mid);
        let l2 = lin2(a1@, b1@, a2@, b2@);
        let l3 = lin3(a1@, b1@, a2@, b2@, a3@, b3@);
        lemma_add_cong(s2@, l2, t3@, p3);
        lemma_rq_trans(s@, mid, l3);
        lemma_add_cong(l2, s2@, p3, t3@);
        lemma_rq_trans(l3, mid, s@);
    }
    Some(s)
}

impl Mat2 {
    /// Exact matrix product.  Fails exactly when an entry leaves the
    /// scalar range.
    pub fn mul(&self, other: &Mat2) -> (r: Option<Mat2>)
        ensures
            r matches Some(q) ==> sm2_eq(q@, sm2_mul(self@, other@)) && sm2_eq(
                sm2_mul(self@, other@),
                q@,
            ),
            r is Some <==> sm2_mul_fits(self@, other@),
    {
        let c11 = match dot2(&self.m11, &other.m11, &self.m12, &other.m21) {
            Some(v) => v,
            None => {
                return None;
            },
        };
        let c12 = match dot2(&self.m11, &other.m12, &self.m12, &other.m22) {
            Some(v) => v,
            None => {
                return None;
            },
        };
        let c21 = match dot2(&self.m21, &other.m11, &self.m22, &other.m21) {
            Some(v) => v,
            None => {
                return None;
            },
        };
        let c22 = match dot2(&self.m21, &other.m12, &self.m22, &other.m22) {
            Some(v) => v,
            None => {
                return None;
            },
        };
        Some(Mat2 { m11: c11, m12: c12, m21: c21, m22: c22 })
    }
}

impl Mat3 {
    /// Exact matrix product.  Fails exactly when an entry leaves the
    /// scalar range.
    pub fn mul(&self, other: &Mat3) -> (r: Option<Mat3>)
        ensures
            r matches Some(q) ==> sm3_eq(q@, sm3_mul(self@, other@)) && sm3_eq(
                sm3_mul(self@, other@),
                q@,
            ),
            r is Some <==> sm3_mul_fits(self@, other@),
    {
        let c11 = match dot3(&self.m11, &other.m11, &self.m12, &other.m21, &self.m13, &other.m31) {
            Some(v) => v,
            None => {
                return None;
            },
        };
        let c12 = match dot3(&self.m11, &other.m12, &self.m12, &other.m22, &self.m13, &other.m32) {
            Some(v) => v,
            None => {
                return None;
            },
        };
        let c13 = match dot3(&self.m11, &other.m13, &self.m12, &other.m23, &self.m13, &other.m33) {
            Some(v) => v,
            None => {
                return None;
            },
        };
        let c21 = match dot3(&self.m21, &other.m11, &self.m22, &other.m21, &self.m23, &other.m31) {
            Some(v) => v,
            None => {
                return None;
            },
        };
        let c22 = match dot3(&self.m21, &other.m12, &self.m22, &other.m22, &self.m23, &other.m32) {
            Some(v) => v,
            None => {
                return None;
            },
        };
        let c23 = match dot3(&self.m21, &other.m13, &self.m22, &other.m23, &self.m23, &other.m33) {
            Some(v) => v,
            None => {
                return None;
            },
        };
        let c31 = match dot3(&self.m31, &other.m11, &self.m32, &other.m21, &self.m33, &other.m31) {
            Some(v) => v,
            None => {
                return None;
            },
        };
        let c32 = match dot3(&self.m31, &other.m12, &self.m32, &other.m22, &self.m33, &other.m32) {
            Some(v) => v,
            None => {
                return None;
            },
        };
        let c33 = match dot3(&self.m31, &other.m13, &self.m32, &other.m23, &self.m33, &other.m33) {
            Some(v) => v,
            None => {
                return None;
            },
        };
        Some(
            Mat3 {
                m11: c11,
                m12: c12,
                m13: c13,
                m21: c21,
                m22: c22,
                m23: c23,
                m31: c31,
                m32: c32,
                m33: c33,
            },
        )
    }
}

} // verus!
