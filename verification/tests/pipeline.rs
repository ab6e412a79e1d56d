//! Pipeline planner: construction, dispatch geometry, buffer and event
//! choreography, and safe serialized reuse of the intermediate buffer.

use paeth::{BufRef, ClRotator2, Mat2, PaethRotation2, Rat, ShearAxis, WaitOn};

fn rotation_three_four_five() -> PaethRotation2 {
    let rm = Mat2 {
        m11: Rat::new(3, 5).unwrap(),
        m12: Rat::new(-4, 5).unwrap(),
        m21: Rat::new(4, 5).unwrap(),
        m22: Rat::new(3, 5).unwrap(),
    };
    PaethRotation2::new(&rm).unwrap()
}

#[test]
fn construction_and_centre_offsets() {
    let r = ClRotator2::new(5, 8).unwrap();
    assert_eq!(r.intermediate_len(), 40);
    // wx = (5-1)/2 = 2, wy = (8-1)/2 = 7/2: checked through the plan
    let mut r = r;
    let p = rotation_three_four_five();
    let plan = r.forw(&p).unwrap();
    assert_eq!((plan.x_pass.wx.num(), plan.x_pass.wx.den()), (2, 1));
    assert_eq!((plan.x_pass.wy.num(), plan.x_pass.wy.den()), (7, 2));
}

#[test]
fn zero_dimension_is_rejected() {
    assert!(ClRotator2::new(0, 16).is_none());
    assert!(ClRotator2::new(16, 0).is_none());
}

#[test]
fn plan_geometry_and_dependency() {
    let mut r = ClRotator2::new(64, 48).unwrap();
    let p = rotation_three_four_five();
    let plan = r.forw(&p).unwrap();
    // x pass: source -> intermediate over (nx, ny), gated on the caller
    assert_eq!(plan.x_pass.axis, ShearAxis::X);
    assert_eq!(plan.x_pass.input, BufRef::Source);
    assert_eq!(plan.x_pass.output, BufRef::Intermediate);
    assert_eq!(plan.x_pass.wait, WaitOn::CallerList);
    assert_eq!((plan.x_pass.global0, plan.x_pass.global1), (64, 48));
    assert_eq!((plan.x_pass.local0, plan.x_pass.local1), (32, 8));
    // y pass: intermediate -> destination over the swapped grid, gated on
    // the x pass
    assert_eq!(plan.y_pass.axis, ShearAxis::Y);
    assert_eq!(plan.y_pass.input, BufRef::Intermediate);
    assert_eq!(plan.y_pass.output, BufRef::Destination);
    assert_eq!(plan.y_pass.wait, WaitOn::XPassEvent);
    assert_eq!((plan.y_pass.global0, plan.y_pass.global1), (48, 64));
    assert_eq!((plan.y_pass.local0, plan.y_pass.local1), (32, 8));
}

#[test]
fn pass_parameters_come_from_the_right_coefficients() {
    let mut r = ClRotator2::new(16, 16).unwrap();
    let p = rotation_three_four_five();
    let plan = r.forw(&p).unwrap();
    // x pass: scale = 1/xx = 5/3, cross = -xy/xx = 4/3
    assert_eq!((plan.x_pass.params.scale.num(), plan.x_pass.params.scale.den()), (5, 3));
    assert_eq!((plan.x_pass.params.cross.num(), plan.x_pass.params.cross.den()), (4, 3));
    // y pass: scale = 1/yy = 3/5, cross = -yx/yy = -4/5
    assert_eq!((plan.y_pass.params.scale.num(), plan.y_pass.params.scale.den()), (3, 5));
    assert_eq!((plan.y_pass.params.cross.num(), plan.y_pass.params.cross.den()), (-4, 5));
}

#[test]
fn serialized_reuse_gives_the_same_plan() {
    // two sequential forward calls on one instance, the second only after
    // the first completed: buffer reuse is safe and deterministic
    let mut r = ClRotator2::new(64, 64).unwrap();
    let p = rotation_three_four_five();
    let plan1 = r.forw(&p).unwrap();
    r.complete();
    let plan2 = r.forw(&p).unwrap();
    r.complete();
    assert_eq!(plan1, plan2);
}

#[test]
fn degenerate_rotation_is_rejected_before_dispatch() {
    let rm = Mat2 {
        m11: Rat::new(0, 1).unwrap(),
        m12: Rat::new(-1, 1).unwrap(),
        m21: Rat::new(1, 1).unwrap(),
        m22: Rat::new(0, 1).unwrap(),
    };
    assert!(PaethRotation2::new(&rm).is_err());
}
