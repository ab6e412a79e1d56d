//! Filter parameterizer: exact values, ascending thresholds, and the
//! band-width bound on shallow shears.

use paeth::{shear_params, Rat, RotateError};

#[test]
fn identity_pass_parameters() {
    let c = Rat::new(1, 1).unwrap();
    let k = Rat::new(0, 1).unwrap();
    let sp = shear_params(&c, &k).unwrap();
    assert_eq!(sp.scale.num(), 1);
    assert_eq!(sp.scale.den(), 1);
    assert_eq!(sp.cross.num(), 0);
    assert_eq!(sp.band.num(), 1);
    assert_eq!(sp.band.den(), 1);
    // thresholds {1/2, 1/2, -1/2, -1/2} sorted ascending
    assert_eq!((sp.tau0.num(), sp.tau0.den()), (-1, 2));
    assert_eq!((sp.tau1.num(), sp.tau1.den()), (-1, 2));
    assert_eq!((sp.tau2.num(), sp.tau2.den()), (1, 2));
    assert_eq!((sp.tau3.num(), sp.tau3.den()), (1, 2));
}

#[test]
fn steep_shear_narrows_the_band() {
    // |k| = 2 > 1, so the half-width is 1/|k| = 1/2
    let c = Rat::new(1, 1).unwrap();
    let k = Rat::new(2, 1).unwrap();
    let sp = shear_params(&c, &k).unwrap();
    assert_eq!((sp.band.num(), sp.band.den()), (1, 2));
    // taus: {1/2 + 1, 1/2 - 1, -1/2 + 1, -1/2 - 1} = {3/2, -1/2, 1/2, -3/2}
    assert_eq!((sp.tau0.num(), sp.tau0.den()), (-3, 2));
    assert_eq!((sp.tau1.num(), sp.tau1.den()), (-1, 2));
    assert_eq!((sp.tau2.num(), sp.tau2.den()), (1, 2));
    assert_eq!((sp.tau3.num(), sp.tau3.den()), (3, 2));
}

#[test]
fn thresholds_are_sorted() {
    let pairs: [(i64, i64, i64, i64); 5] = [
        (3, 5, -4, 5),
        (-3, 5, 4, 5),
        (1, 1, 0, 1),
        (5, 3, 4, 3),
        (-1, 2, 7, 3),
    ];
    for (cn, cd, kn, kd) in pairs {
        let c = Rat::new(cn, cd).unwrap();
        let k = Rat::new(kn, kd).unwrap();
        let sp = shear_params(&c, &k).unwrap();
        assert!(sp.tau0.le(&sp.tau1));
        assert!(sp.tau1.le(&sp.tau2));
        assert!(sp.tau2.le(&sp.tau3));
    }
}

#[test]
fn spread_within_band_for_y_pass_of_shallow_rotation() {
    // y-pass coefficients of the 3-4-5 rotation: c = 5/3, k = 4/3; the
    // spread tau3 - tau0 stays within twice the band half-width here
    let c = Rat::new(5, 3).unwrap();
    let k = Rat::new(4, 3).unwrap();
    let sp = shear_params(&c, &k).unwrap();
    let spread = sp.tau3.sub(&sp.tau0).unwrap();
    let two = Rat::new(2, 1).unwrap();
    let bound = two.mul(&sp.band).unwrap();
    assert!(spread.le(&bound));
}

#[test]
fn zero_major_coefficient_is_degenerate() {
    let c = Rat::new(0, 1).unwrap();
    let k = Rat::new(1, 2).unwrap();
    assert_eq!(shear_params(&c, &k), Err(RotateError::DegenerateShearPivot));
}

#[test]
fn parameter_overflow_is_reported() {
    // 1/c = 3 * 2^62 leaves the scalar range
    let c = Rat::new(1, 3).unwrap();
    let huge = Rat::new(1 << 62, 1).unwrap();
    let k = Rat::new(0, 1).unwrap();
    let cr = c.mul(&huge).unwrap();
    // c' = 2^62/3: scale = 3/2^62 is fine, but tau arithmetic on
    // (2^62) * 3 overflows when k makes the numerators large
    let k2 = Rat::new(3, 1 << 62).unwrap();
    let r = shear_params(&cr, &k2);
    // either exact success or a reported overflow; never a silent wrap
    match r {
        Ok(sp) => {
            assert!(sp.tau0.le(&sp.tau3));
        },
        Err(e) => {
            assert_eq!(e, RotateError::NumericOverflow);
        },
    }
    let tiny = Rat::new(1, 1 << 62).unwrap();
    let k3 = Rat::new(3, 1).unwrap();
    assert_eq!(shear_params(&tiny, &k3), Err(RotateError::NumericOverflow));
}
