//! GPU rotation pipeline planner.
//!
//! A rotation of a `nx` by `ny` raster is executed as two dependent
//! kernel launches: an x-shear pass reading the caller's source buffer
//! into an intermediate buffer, then a y-shear pass reading the
//! intermediate buffer into the caller's destination, gated on the
//! x-pass's completion event.  This module derives the complete dispatch
//! plan — kernel choice, scalar arguments in binding order, buffer roles,
//! grid geometry, and the single dependency edge — as verified data.  The
//! code that owns the command queue executes the plan verbatim.
//!
//! Destination samples whose source footprint falls outside the image
//! are filled by clamping to the nearest edge sample.
//!
//! The intermediate buffer is owned exclusively by one `ClRotator2`
//! instance, so at most one forward call may be in flight per instance;
//! the planner enforces this with an in-flight flag: `forw` requires the
//! planner to be idle, and `complete` (called once the returned y-pass
//! event has finished) makes it idle again.

use vstd::prelude::*;
use crate::rat::{
    Rat, Ratio, rq, rq_eq, rq_one, xneg, xdiv, lemma_reduce_eq, lemma_reduce_bounds, rq_norm,
};
use crate::filter::{
    ShearParams, shear_params, params_fits, params_sorted, band_exact, is_tau_of,
};
use crate::shear2::PaethRotation2;
use crate::RotateError;

verus! {

/// Kernel source supplier: one OpenCL program text per scalar element
/// type.  The crate that owns the device objects implements this for the
/// element types its kernels are compiled for.
pub trait ClRotate {
    /// Source text of the two-pass (2-d) shear rotation program.
    fn rotate2_source() -> &'static str;

    /// Source text of the three-pass (3-d) shear rotation program.
    fn rotate3_source() -> &'static str;
}

/// Which shear kernel a dispatch runs.
#[derive(Clone, Copy, PartialEq, Eq, Structural, Debug)]
pub enum ShearAxis {
    X,
    Y,
}

/// The buffer a dispatch argument names, symbolically: the caller's
/// source and destination, or the pipeline's own intermediate buffer.
#[derive(Clone, Copy, PartialEq, Eq, Structural, Debug)]
pub enum BufRef {
    Source,
    Intermediate,
    Destination,
}

/// What a dispatch waits for: the caller's wait-list, or the completion
/// event of this forward call's x-pass.
#[derive(Clone, Copy, PartialEq, Eq, Structural, Debug)]
pub enum WaitOn {
    CallerList,
    XPassEvent,
}

/// One planned kernel launch.  The scalar arguments bind in this order:
/// scale, cross, band, tau0, tau1, tau2, tau3 (from `params`), then
/// `nx`, `ny`, `wx`, `wy`, then the input and output buffers.
#[derive(Clone, Copy, PartialEq, Eq, Structural, Debug)]
pub struct KernelDispatch {
    pub axis: ShearAxis,
    pub params: ShearParams,
    pub nx: usize,
    pub ny: usize,
    pub wx: Rat,
    pub wy: Rat,
    pub input: BufRef,
    pub output: BufRef,
    pub global0: usize,
    pub global1: usize,
    pub local0: usize,
    pub local1: usize,
    pub wait: WaitOn,
}

/// A full two-pass rotation plan: the y-pass is gated on the x-pass.
#[derive(Clone, Copy, PartialEq, Eq, Structural, Debug)]
pub struct RotatePlan {
    pub x_pass: KernelDispatch,
    pub y_pass: KernelDispatch,
}

/// Ghost model of the planner state.
pub ghost struct RotatorModel {
    pub nx: int,
    pub ny: int,
    pub len: int,
    pub wx: Ratio,
    pub wy: Ratio,
    pub busy: bool,
}

/// Planner for the two-pass rotation of a fixed image size.  Holds the
/// image geometry, the centre offsets `wx = (nx-1)/2`, `wy = (ny-1)/2`
/// that keep the rotation pivot at the image centre, and the in-flight
/// flag guarding the shared intermediate buffer.
pub struct ClRotator2 {
    nx: usize,
    ny: usize,
    len: usize,
    wx: Rat,
    wy: Rat,
    in_flight: bool,
}

impl View for ClRotator2 {
    type V = RotatorModel;

    closed spec fn view(&self) -> RotatorModel {
        RotatorModel {
            nx: self.nx as int,
            ny: self.ny as int,
            len: self.len as int,
            wx: self.wx@,
            wy: self.wy@,
            busy: self.in_flight,
        }
    }
}

/// The geometry and parameter contract of one pass of a plan.
pub open spec fn pass_ok(p: KernelDispatch, c: Ratio, k: Ratio, s: RotatorModel) -> bool {
    &&& p.params@.scale == xdiv(rq_one(), c)
    &&& p.params@.cross == xneg(xdiv(k, c))
    &&& p.params@.band == band_exact(k)
    &&& params_sorted(p.params@)
    &&& is_tau_of(p.params@.tau0, c, k)
    &&& is_tau_of(p.params@.tau1, c, k)
    &&& is_tau_of(p.params@.tau2, c, k)
    &&& is_tau_of(p.params@.tau3, c, k)
    &&& p.nx as int == s.nx
    &&& p.ny as int == s.ny
    &&& p.wx@ == s.wx
    &&& p.wy@ == s.wy
    &&& p.local0 == 32
    &&& p.local1 == 8
}

impl ClRotator2 {
    /// Construct a planner for images of `nx` by `ny` pixels.
    ///
    /// Fails exactly when a dimension is zero, a centre offset does not
    /// fit the scalar range, or the intermediate buffer's element count
    /// overflows `usize`.  On success the centre offsets are exactly
    /// `(nx-1)/2` and `(ny-1)/2` and the planner is idle.
    pub fn new(nx: usize, ny: usize) -> (r: Option<ClRotator2>)
        ensures
            r matches Some(p) ==> p@.nx == nx as int && p@.ny == ny as int && p@.len == nx as int
                * ny as int && !p@.busy,
            r matches Some(p) ==> rq_eq(p@.wx, rq(nx as int - 1, 2)) && rq_eq(
                rq(nx as int - 1, 2),
                p@.wx,
            ) && rq_eq(p@.wy, rq(ny as int - 1, 2)) && rq_eq(rq(ny as int - 1, 2), p@.wy),
            r is Some <==> 1 <= nx && 1 <= ny && nx as int - 1 <= 0x7fff_ffff_ffff_ffff
                && ny as int - 1 <= 0x7fff_ffff_ffff_ffff && nx as int * ny as int <= usize::MAX
                as int,
    {
        if nx == 0 || ny == 0 {
            return None;
        }
        let nxm1 = nx - 1;
        let nym1 = ny - 1;
        if (nxm1 as u64) > 0x7fff_ffff_ffff_ffffu64 || (nym1 as u64) > 0x7fff_ffff_ffff_ffffu64 {
            return None;
        }
        let len = match nx.checked_mul(ny) {
            Some(v) => v,
            None => {
                return None;
            },
        };
        proof {
            lemma_reduce_bounds(rq(nxm1 as int, 2));
            lemma_reduce_eq(rq(nxm1 as int, 2));
            lemma_reduce_bounds(rq(nym1 as int, 2));
            lemma_reduce_eq(rq(nym1 as int, 2));
            assert(rq_norm(rq(nxm1 as int, 2)) == rq(nxm1 as int, 2));
            assert(rq_norm(rq(nym1 as int, 2)) == rq(nym1 as int, 2));
        }
        let wx = match Rat::new(nxm1 as i64, 2) {
            Some(v) => v,
            None => {
                return None;
            },
        };
        let wy = match Rat::new(nym1 as i64, 2) {
            Some(v) => v,
            None => {
                return None;
            },
        };
        Some(ClRotator2 { nx, ny, len, wx, wy, in_flight: false })
    }

    /// The element count of the intermediate buffer the executor must
    /// allocate (`nx * ny`).
    pub fn intermediate_len(&self) -> (r: usize)
        ensures
            r as int == self@.len,
    {
        self.len
    }

    /// Plan one full rotation: an x-pass over grid `(nx, ny)` reading the
    /// source into the intermediate buffer, then a y-pass over the
    /// swapped grid `(ny, nx)` reading the intermediate buffer into the
    /// destination, gated on the x-pass's completion event.  The x-pass
    /// parameters come from `(xx, xy)`, the y-pass parameters from
    /// `(yy, yx)`.
    ///
    /// Requires the planner to be idle (the intermediate buffer is shared
    /// between the two passes of one call and must not be raced); on
    /// success the planner is in flight until `complete` is called.
    pub fn forw(&mut self, rot: &PaethRotation2) -> (r: Result<RotatePlan, RotateError>)
        requires
            !old(self)@.busy,
        ensures
            final(self)@.nx == old(self)@.nx,
            final(self)@.ny == old(self)@.ny,
            final(self)@.len == old(self)@.len,
            final(self)@.wx == old(self)@.wx,
            final(self)@.wy == old(self)@.wy,
            final(self)@.busy == (r is Ok),
            r matches Ok(plan) ==> pass_ok(plan.x_pass, rot@.xx, rot@.xy, old(self)@) && pass_ok(
                plan.y_pass,
                rot@.yy,
                rot@.yx,
                old(self)@,
            ),
            r matches Ok(plan) ==> plan.x_pass.axis == ShearAxis::X && plan.x_pass.input
                == BufRef::Source && plan.x_pass.output == BufRef::Intermediate
                && plan.x_pass.wait == WaitOn::CallerList && plan.x_pass.global0 as int == old(self)@.nx && plan.x_pass.global1 as int == old(self)@.ny,
            r matches Ok(plan) ==> plan.y_pass.axis == ShearAxis::Y && plan.y_pass.input
                == BufRef::Intermediate && plan.y_pass.output == BufRef::Destination
                && plan.y_pass.wait == WaitOn::XPassEvent && plan.y_pass.global0 as int == old(self)@.ny && plan.y_pass.global1 as int == old(self)@.nx,
            r is Ok <==> rot@.xx.n != 0 && params_fits(rot@.xx, rot@.xy) && rot@.yy.n != 0
                && params_fits(rot@.yy, rot@.yx),
            r == Err::<RotatePlan, RotateError>(RotateError::DegenerateShearPivot) <==> rot@.xx.n
                == 0 || (rot@.xx.n != 0 && params_fits(rot@.xx, rot@.xy) && rot@.yy.n == 0),
            r == Err::<RotatePlan, RotateError>(RotateError::NumericOverflow) <==> (rot@.xx.n != 0
                && !params_fits(rot@.xx, rot@.xy)) || (rot@.xx.n != 0 && params_fits(
                rot@.xx,
                rot@.xy,
            ) && rot@.yy.n != 0 && !params_fits(rot@.yy, rot@.yx)),
    {
        let px = match shear_params(&rot.xx, &rot.xy) {
            Ok(v) => v,
            Err(e) => {
                return Err(e);
            },
        };
        let py = match shear_params(&rot.yy, &rot.yx) {
            Ok(v) => v,
            Err(e) => {
                return Err(e);
            },
        };
        let x_pass = KernelDispatch {
            axis: ShearAxis::X,
            params: px,
            nx: self.nx,
            ny: self.ny,
            wx: self.wx,
            wy: self.wy,
            input: BufRef::Source,
            output: BufRef::Intermediate,
            global0: self.nx,
            global1: self.ny,
            local0: 32,
            local1: 8,
            wait: WaitOn::CallerList,
        };
        let y_pass = KernelDispatch {
            axis: ShearAxis::Y,
            params: py,
            nx: self.nx,
            ny: self.ny,
            wx: self.wx,
            wy: self.wy,
            input: BufRef::Intermediate,
            output: BufRef::Destination,
            global0: self.ny,
            global1: self.nx,
            local0: 32,
            local1: 8,
            wait: WaitOn::XPassEvent,
        };
        self.in_flight = true;
        Ok(RotatePlan { x_pass, y_pass })
    }

    /// Mark the in-flight forward call as finished.  The caller invokes
    /// this after the y-pass event returned by the executed plan has
    /// completed; the planner is then idle and may plan the next
    /// rotation, reusing the intermediate buffer safely.
    pub fn complete(&mut self)
        requires
            old(self)@.busy,
        ensures
            final(self)@.nx == old(self)@.nx,
            final(self)@.ny == old(self)@.ny,
            final(self)@.len == old(self)@.len,
            final(self)@.wx == old(self)@.wx,
            final(self)@.wy == old(self)@.wy,
            !final(self)@.busy,
    {
        self.in_flight = false;
    }
}

} // verus!
