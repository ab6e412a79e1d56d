//! Shear filter parameterizer.
//!
//! One shear pass is described by a "major" coefficient `c` (the diagonal
//! term of that shear) and a "cross" coefficient `k` (the off-diagonal
//! term).  The resampling kernel consumes the affine destination-to-source
//! mapping `scale = 1/c`, `cross = -k/c`, the anti-alias band half-width
//! `band = min(1, 1/|k|)` (one when `k` is zero), and the four corner
//! offsets `{1/(2c) + k/(2c), 1/(2c) - k/(2c), -1/(2c) + k/(2c),
//! -1/(2c) - k/(2c)}` of the trapezoidal coverage filter, sorted
//! ascending.  The kernel integrates coverage piecewise over an ascending
//! partition, so sortedness is part of the contract here.

use vstd::prelude::*;
use crate::rat::{
    Rat, Ratio, rq_le, rq_wf, rq_one, rq_two, rq_half, rq_abs, rq_neg, rq_sub, rq_mul, iabs,
    xadd, xsub, xmul, xneg, xabs, xdiv, xadd_ok, xsub_ok, xmul_ok, xneg_ok, xabs_ok, xdiv_ok,
    lemma_le_trans, lemma_reduce_eq,
};
use crate::RotateError;

verus! {

/// Ghost model of one pass's filter parameters.
pub ghost struct SpecParams {
    pub scale: Ratio,
    pub cross: Ratio,
    pub band: Ratio,
    pub tau0: Ratio,
    pub tau1: Ratio,
    pub tau2: Ratio,
    pub tau3: Ratio,
}

/// Filter parameters of one shear pass, ready to bind as kernel
/// arguments.
#[derive(Clone, Copy, PartialEq, Eq, Structural, Debug)]
pub struct ShearParams {
    pub scale: Rat,
    pub cross: Rat,
    pub band: Rat,
    pub tau0: Rat,
    pub tau1: Rat,
    pub tau2: Rat,
    pub tau3: Rat,
}

impl View for ShearParams {
    type V = SpecParams;

    open spec fn view(&self) -> SpecParams {
        SpecParams {
            scale: self.scale@,
            cross: self.cross@,
            band: self.band@,
            tau0: self.tau0@,
            tau1: self.tau1@,
            tau2: self.tau2@,
            tau3: self.tau3@,
        }
    }
}

/// The exact band half-width the executable code produces:
/// `min(1, 1/|k|)`, taken as one when `k` is zero.
pub open spec fn band_exact(k: Ratio) -> Ratio {
    if k.n == 0 {
        rq_one()
    } else {
        if rq_le(rq_one(), xdiv(rq_one(), xabs(k))) {
            rq_one()
        } else {
            xdiv(rq_one(), xabs(k))
        }
    }
}

/// The four exact corner offsets, before sorting.
pub open spec fn tau_a(c: Ratio) -> Ratio {
    xdiv(rq_half(), c)
}

pub open spec fn tau_b(c: Ratio, k: Ratio) -> Ratio {
    xdiv(xmul(rq_half(), k), c)
}

pub open spec fn tau_pp(c: Ratio, k: Ratio) -> Ratio {
    xadd(tau_a(c), tau_b(c, k))
}

pub open spec fn tau_pm(c: Ratio, k: Ratio) -> Ratio {
    xsub(tau_a(c), tau_b(c, k))
}

pub open spec fn tau_mp(c: Ratio, k: Ratio) -> Ratio {
    xadd(xneg(tau_a(c)), tau_b(c, k))
}

pub open spec fn tau_mm(c: Ratio, k: Ratio) -> Ratio {
    xsub(xneg(tau_a(c)), tau_b(c, k))
}

/// Whether a ratio is one of the four exact corner offsets.
pub open spec fn is_tau_of(t: Ratio, c: Ratio, k: Ratio) -> bool {
    t == tau_pp(c, k) || t == tau_pm(c, k) || t == tau_mp(c, k) || t == tau_mm(c, k)
}

/// When every exact intermediate of the parameterizer stays in scalar
/// range.
pub open spec fn params_fits(c: Ratio, k: Ratio) -> bool {
    xdiv_ok(rq_one(), c) && xdiv_ok(k, c) && xneg_ok(xdiv(k, c)) && (k.n == 0 || (xabs_ok(k)
        && xdiv_ok(rq_one(), xabs(k)))) && xdiv_ok(rq_half(), c) && xmul_ok(rq_half(), k)
        && xdiv_ok(xmul(rq_half(), k), c) && xneg_ok(tau_a(c)) && xadd_ok(tau_a(c), tau_b(c, k))
        && xsub_ok(tau_a(c), tau_b(c, k)) && xadd_ok(xneg(tau_a(c)), tau_b(c, k)) && xsub_ok(
        xneg(tau_a(c)),
        tau_b(c, k),
    )
}

/// Sorted ascending.
pub open spec fn params_sorted(p: SpecParams) -> bool {
    rq_le(p.tau0, p.tau1) && rq_le(p.tau1, p.tau2) && rq_le(p.tau2, p.tau3)
}

/// Order two rationals.
fn order2(a: Rat, b: Rat) -> (r: (Rat, Rat))
    ensures
        rq_le(r.0@, r.1@),
        (r.0 == a && r.1 == b) || (r.0 == b && r.1 == a),
{
    if a.le(&b) {
        (a, b)
    } else {
        (b, a)
    }
}

/// Compute the filter parameters of one shear pass.
///
/// Returns `DegenerateShearPivot` exactly when the major coefficient is
/// zero, `NumericOverflow` exactly when an exact intermediate leaves the
/// scalar range; otherwise the exact affine mapping, band half-width, and
/// the four corner offsets sorted ascending.
pub fn shear_params(c: &Rat, k: &Rat) -> (r: Result<ShearParams, RotateError>)
    ensures
        r matches Ok(sp) ==> sp@.scale == xdiv(rq_one(), c@) && sp@.cross == xneg(xdiv(k@, c@))
            && sp@.band == band_exact(k@),
        r matches Ok(sp) ==> params_sorted(sp@) && is_tau_of(sp@.tau0, c@, k@) && is_tau_of(
            sp@.tau1,
            c@,
            k@,
        ) && is_tau_of(sp@.tau2, c@, k@) && is_tau_of(sp@.tau3, c@, k@),
        r matches Ok(sp) ==> (sp@.tau0 == tau_pp(c@, k@) || sp@.tau1 == tau_pp(c@, k@)
            || sp@.tau2 == tau_pp(c@, k@) || sp@.tau3 == tau_pp(c@, k@)) && (sp@.tau0 == tau_pm(
            c@,
            k@,
        ) || sp@.tau1 == tau_pm(c@, k@) || sp@.tau2 == tau_pm(c@, k@) || sp@.tau3 == tau_pm(
            c@,
            k@,
        )) && (sp@.tau0 == tau_mp(c@, k@) || sp@.tau1 == tau_mp(c@, k@) || sp@.tau2 == tau_mp(
            c@,
            k@,
        ) || sp@.tau3 == tau_mp(c@, k@)) && (sp@.tau0 == tau_mm(c@, k@) || sp@.tau1 == tau_mm(
            c@,
            k@,
        ) || sp@.tau2 == tau_mm(c@, k@) || sp@.tau3 == tau_mm(c@, k@)),
        r is Ok <==> c@.n != 0 && params_fits(c@, k@),
        r == Err::<ShearParams, RotateError>(RotateError::DegenerateShearPivot) <==> c@.n == 0,
        r == Err::<ShearParams, RotateError>(RotateError::NumericOverflow) <==> c@.n != 0
            && !params_fits(c@, k@),
{
    c.wf_witness();
    k.wf_witness();
    if c.is_zero() {
        return Err(RotateError::DegenerateShearPivot);
    }
    let one = Rat::from_int(1);
    let half = Rat::half();
    let scale = match one.div(c) {
        Some(v) => v,
        None => {
            return Err(RotateError::NumericOverflow);
        },
    };
    let kc = match k.div(c) {
        Some(v) => v,
        None => {
            return Err(RotateError::NumericOverflow);
        },
    };
    let cross = match kc.neg() {
        Some(v) => v,
        None => {
            return Err(RotateError::NumericOverflow);
        },
    };
    let band = if k.is_zero() {
        one
    } else {
        let ak = match k.abs() {
            Some(v) => v,
            None => {
                return Err(RotateError::NumericOverflow);
            },
        };
        proof {
            lemma_reduce_eq(rq_abs(k@));
            assert(iabs(k@.n) != 0);
        }
        let inv = match one.div(&ak) {
            Some(v) => v,
            None => {
                return Err(RotateError::NumericOverflow);
            },
        };
        one.min(&inv)
    };
    let ta = match half.div(c) {
        Some(v) => v,
        None => {
            return Err(RotateError::NumericOverflow);
        },
    };
    let hk = match half.mul(k) {
        Some(v) => v,
        None => {
            return Err(RotateError::NumericOverflow);
        },
    };
    let tb = match hk.div(c) {
        Some(v) => v,
        None => {
            return Err(RotateError::NumericOverflow);
        },
    };
    let nta = match ta.neg() {
        Some(v) => v,
        None => {
            return Err(RotateError::NumericOverflow);
        },
    };
    let tpp = match ta.add(&tb) {
        Some(v) => v,
        None => {
            return Err(RotateError::NumericOverflow);
        },
    };
    let tpm = match ta.sub(&tb) {
        Some(v) => v,
        None => {
            return Err(RotateError::NumericOverflow);
        },
    };
    let tmp = match nta.add(&tb) {
        Some(v) => v,
        None => {
            return Err(RotateError::NumericOverflow);
        },
    };
    let tmm = match nta.sub(&tb) {
        Some(v) => v,
        None => {
            return Err(RotateError::NumericOverflow);
        },
    };
    // five-comparator sorting network for four values
    let (a0, a1) = order2(tpp, tpm);
    let (a2, a3) = order2(tmp, tmm);
    let (b0, b2) = order2(a0, a2);
    let (b1, b3) = order2(a1, a3);
    let (c1, c2) = order2(b1, b2);
    a0.wf_witness();
    a1.wf_witness();
    a2.wf_witness();
    a3.wf_witness();
    b0.wf_witness();
    b1.wf_witness();
    b2.wf_witness();
    b3.wf_witness();
    proof {
        lemma_le_trans(b0@, a0@, a1@);
        lemma_le_trans(b0@, a2@, a3@);
        lemma_le_trans(a0@, a1@, b3@);
        lemma_le_trans(a2@, a3@, b3@);
    }
    Ok(ShearParams { scale, cross, band, tau0: b0, tau1: c1, tau2: c2, tau3: b3 })
}


/// Law: whenever the four sorted thresholds lie within the anti-alias
/// band, their spread is at most twice the band half-width:
/// `tau3 - tau0 <= 2 * band`.
///
/// The thresholds of a pair `(c, k)` are the four values
/// `+-1/(2c) +- k/(2c)`, which are symmetric about zero, so they lie
/// within the band exactly when the spread bound holds; the requires
/// below excludes precisely the coefficient pairs on which the bound
/// fails (for `c = 1/10, k = 0` the spread is ten while the band
/// half-width is capped at one).
pub proof fn lemma_tau_spread(p: SpecParams)
    requires
        rq_wf(p.tau0),
        rq_wf(p.tau3),
        rq_wf(p.band),
        rq_le(p.tau3, p.band),
        rq_le(rq_neg(p.band), p.tau0),
    ensures
        rq_le(rq_sub(p.tau3, p.tau0), rq_mul(rq_two(), p.band)),
{
    let hi = p.tau3;
    let lo = p.tau0;
    let h = p.band;
    assert((hi.n * lo.d - lo.n * hi.d) * (1 * h.d) <= (2 * h.n) * (hi.d * lo.d))
        by (nonlinear_arith)
        requires
            hi.n * h.d <= h.n * hi.d,
            (-h.n) * lo.d <= lo.n * h.d,
            hi.d >= 1,
            lo.d >= 1,
            h.d >= 1,
    ;
}

} // verus!
