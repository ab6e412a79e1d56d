//! Paeth shear decomposition of 2-d and 3-d rotations, with the filter
//! parameters and dispatch plans of a two-pass GPU shear-rotation pipeline.
//!
//! A rotation is factored into one-dimensional shear matrices (`R = Y*X`
//! in 2-d, `R = Z*Y*X` in 3-d); each shear pass is then executed as a
//! separable, anti-aliased resampling kernel.  All scalar arithmetic in
//! this crate is exact rational arithmetic, so the reconstruction laws
//! hold as algebraic identities rather than floating-point approximations.

mod rat;
mod mat;
mod shear2;
mod shear3;
mod filter;
mod opencl;

pub use rat::Rat;
pub use rat::Ratio;
pub use mat::Mat2;
pub use mat::Mat3;
pub use shear2::PaethRotation2;
pub use shear3::PaethRotation3;
pub use filter::ShearParams;
pub use filter::shear_params;
pub use opencl::ClRotate;
pub use opencl::ClRotator2;
pub use opencl::RotatePlan;
pub use opencl::KernelDispatch;
pub use opencl::ShearAxis;
pub use opencl::BufRef;
pub use opencl::WaitOn;

use vstd::prelude::*;

verus! {

/// The error kinds of the rotation system.
///
/// `DegenerateShearPivot` and `NumericOverflow` arise in the exact
/// decomposition and parameter arithmetic; the remaining kinds report
/// failures of the compute backend and are raised by the code that owns
/// the device objects.
#[derive(Clone, Copy, PartialEq, Eq, Structural, Debug)]
pub enum RotateError {
    /// A required shear pivot is zero: the fixed factorization convention
    /// has no decomposition for this matrix.
    DegenerateShearPivot,
    /// An exact rational result left the representable scalar range.
    NumericOverflow,
    /// Kernel program compilation or build failed.
    BuildFailure,
    /// Buffer creation failed.
    AllocationFailure,
    /// A kernel launch was rejected by the backend.
    DispatchFailure,
    /// Asynchronous execution failed after dispatch.
    DeviceFailure,
}

} // verus!
