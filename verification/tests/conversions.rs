use orbit_frames::vector3;
use orbit_frames::CanBeOrbitCoefficient;
use orbit_frames::MatrixError;
use orbit_frames::OrbitCoefficients;
use orbit_frames::PosVel;
use orbit_frames::RealField;
use orbit_frames::Vector3;
use orbit_frames::J2000;
use orbit_frames::LVLH;
use orbit_frames::VVLH;

/// Double-precision scalar for exercising the library at runtime.
#[derive(Debug, Clone, Copy, PartialEq)]
struct F(f64);

impl RealField for F {
    fn add(self, rhs: Self) -> Self {
        F(self.0 + rhs.0)
    }

    fn sub(self, rhs: Self) -> Self {
        F(self.0 - rhs.0)
    }

    fn mul(self, rhs: Self) -> Self {
        F(self.0 * rhs.0)
    }

    fn div(self, rhs: Self) -> Self {
        F(self.0 / rhs.0)
    }

    fn neg(self) -> Self {
        F(-self.0)
    }

    fn sqrt(self) -> Self {
        F(self.0.sqrt())
    }

    fn sin(self) -> Self {
        F(self.0.sin())
    }

    fn cos(self) -> Self {
        F(self.0.cos())
    }

    fn zero() -> Self {
        F(0.0)
    }

    fn one() -> Self {
        F(1.0)
    }

    fn is_zero(self) -> bool {
        self.0 == 0.0
    }

    // Ghost items of the trait: the verifier erases them, and nothing ever
    // calls them at runtime; the bodies only satisfy the compiler.
    fn add_spec(self, _rhs: Self) -> Self {
        self
    }

    fn sub_spec(self, _rhs: Self) -> Self {
        self
    }

    fn mul_spec(self, _rhs: Self) -> Self {
        self
    }

    fn div_spec(self, _rhs: Self) -> Self {
        self
    }

    fn neg_spec(self) -> Self {
        self
    }

    fn sqrt_spec(self) -> Self {
        self
    }

    fn sin_spec(self) -> Self {
        self
    }

    fn cos_spec(self) -> Self {
        self
    }

    fn zero_spec() -> Self {
        Self::zero()
    }

    fn one_spec() -> Self {
        Self::one()
    }

    fn is_zero_spec(self) -> bool {
        false
    }

    fn law_neg_neg(self) {}

    fn law_zero_add_zero() {}

    fn law_zero_mul_zero() {}

    fn law_sqrt_zero() {}

    fn law_zero_is_zero() {}
}

impl CanBeOrbitCoefficient for F {
    fn mu() -> Self {
        F(3.986004418e14)
    }

    // Ghost item of the trait: erased by the verifier, never run.
    fn mu_spec() -> Self {
        Self::mu()
    }
}

fn v3(x: f64, y: f64, z: f64) -> Vector3<F> {
    Vector3::new(F(x), F(y), F(z))
}

fn close(actual: F, expected: f64) -> bool {
    let scale = 1.0_f64.max(expected.abs());
    (actual.0 - expected).abs() <= 1e-6 * scale
}

fn assert_vec_close(actual: Vector3<F>, expected: [f64; 3]) {
    assert!(
        close(actual.x, expected[0]) && close(actual.y, expected[1])
            && close(actual.z, expected[2]),
        "got ({}, {}, {}), expected {:?}",
        actual.x.0,
        actual.y.0,
        actual.z.0,
        expected
    );
}

fn reference_state() -> J2000<F> {
    J2000::new(
        v3(-5042137.452, 42166300.0, 14286.07219),
        v3(-2732.96475, -456.767294, 7.459819),
    )
}

#[test]
fn from_lvlh_to_j2000() {
    let ref_state = reference_state();
    let cases = [
        (
            [-100000.0, 200000.0, -300000.0, 0.0, -5.0, 10.0],
            [
                -5229668.299157037,
                42043264.60687324,
                -285204.28391968715,
                -2719.9534663356803,
                -468.343192497209,
                17.424173822617966,
            ],
        ),
        (
            [500000.0, -200000.0, 400000.0, 0.0, 15.0, -5.0],
            [
                -4901826.073964696,
                42686504.709447816,
                413910.6178101943,
                -2781.7781127925523,
                -449.47424296750046,
                2.5932278090834116,
            ],
        ),
    ];
    for (lvlh, j2000) in cases {
        let lvlh_state = LVLH::new(
            v3(lvlh[0], lvlh[1], lvlh[2]),
            v3(lvlh[3], lvlh[4], lvlh[5]),
        );
        let result = J2000::try_from_lvlh(lvlh_state, &ref_state).unwrap();
        assert_vec_close(result.0.pos, [j2000[0], j2000[1], j2000[2]]);
        assert_vec_close(result.0.vel, [j2000[3], j2000[4], j2000[5]]);
    }
}

#[test]
fn from_lvlh_vel_to_j2000() {
    let ref_state = reference_state();
    let cases = [
        (
            [0.0, -5.0, 10.0],
            [4.991929089449267, 0.5935385856962423, 9.986408559296978],
        ),
        (
            [0.0, 15.0, -5.0],
            [
                -14.907497440247987,
                -1.7809198808180138,
                -4.9593189499271855,
            ],
        ),
    ];
    for (lvlh, j2000) in cases {
        let vel = v3(lvlh[0], lvlh[1], lvlh[2]);
        let result = vector3::try_j2000_vel_from_lvlh(&vel, &ref_state).unwrap();
        assert_vec_close(result, j2000);
    }
}

#[test]
fn vector3_lvlh_and_vvlh_trans() {
    let vvlh = v3(1.0, 2.0, 3.0);
    let lvlh = vector3::lvlh_from_vvlh(&vvlh);
    assert_eq!(lvlh, v3(-3.0, 1.0, -2.0));
    let vvlh_back = vector3::vvlh_from_lvlh(&lvlh);
    assert_eq!(vvlh_back, vvlh);
}

#[test]
fn vec_to_slice() {
    let vec = v3(1.0, 2.0, 3.0);
    let arr = vector3::to_array(vec);
    assert_eq!(arr, [F(1.0), F(2.0), F(3.0)]);
    assert_eq!(vector3::from_array(&arr), vec);
}

#[test]
fn sat_state_to_vec6() {
    let arr = [F(1.0), F(2.0), F(3.0), F(4.0), F(5.0), F(6.0)];
    let sat_state = PosVel::from_array(&arr);
    assert_eq!(sat_state.pos, v3(1.0, 2.0, 3.0));
    assert_eq!(sat_state.vel, v3(4.0, 5.0, 6.0));
    assert_eq!(sat_state.to_array(), arr);
}

#[test]
fn sat_state_to_slice() {
    let sat_state = PosVel::new(v3(1.0, 2.0, 3.0), v3(4.0, 5.0, 6.0));
    let arr = sat_state.to_array();
    assert_eq!(arr, [F(1.0), F(2.0), F(3.0), F(4.0), F(5.0), F(6.0)]);
    assert_eq!(PosVel::from_array(&arr), sat_state);
}

#[test]
fn orbit_coefficients_to_slice() {
    let orbit = OrbitCoefficients {
        a: F(7.0e6),
        e: F(0.01),
        i: F(0.2),
        omega: F(0.3),
        w: F(0.4),
        theta: F(0.5),
    };
    let arr = orbit.to_array();
    assert_eq!(arr, [F(7.0e6), F(0.01), F(0.2), F(0.3), F(0.4), F(0.5)]);
    assert_eq!(OrbitCoefficients::from_array(&arr), orbit);
}

#[test]
fn normalize_zero_vector_fails() {
    let zero = v3(0.0, 0.0, 0.0);
    assert_eq!(vector3::norm_not_zero(&zero), Err(MatrixError::NormalizeZero));
    assert_eq!(vector3::normalize(&zero), Err(MatrixError::NormalizeZero));
    let unit = vector3::normalize(&v3(3.0, 0.0, 4.0)).unwrap();
    assert_vec_close(unit, [0.6, 0.0, 0.8]);
}

#[test]
fn zero_reference_position_fails_conversions() {
    let degenerate = J2000::new(v3(0.0, 0.0, 0.0), v3(1.0, 2.0, 3.0));
    let state = J2000::new(v3(1.0, 1.0, 1.0), v3(0.1, 0.2, 0.3));
    let lvlh = LVLH::new(v3(1.0, 0.0, 0.0), v3(0.0, 1.0, 0.0));
    assert_eq!(
        LVLH::try_from_j2000(state, &degenerate).unwrap_err(),
        MatrixError::NormalizeZero
    );
    assert_eq!(
        VVLH::try_from_j2000(state, &degenerate).unwrap_err(),
        MatrixError::NormalizeZero
    );
    assert_eq!(
        J2000::try_from_lvlh(lvlh, &degenerate).unwrap_err(),
        MatrixError::NormalizeZero
    );
}

#[test]
fn colinear_reference_fails_conversions() {
    // Position and velocity exactly colinear: zero orbital angular momentum.
    let radial = J2000::new(v3(1.0e6, 2.0e6, -3.0e6), v3(2.0e3, 4.0e3, -6.0e3));
    let state = J2000::new(v3(1.0, 1.0, 1.0), v3(0.1, 0.2, 0.3));
    assert_eq!(
        LVLH::try_from_j2000(state, &radial).unwrap_err(),
        MatrixError::NormalizeZero
    );
}

#[test]
fn round_trip_lvlh_j2000() {
    let ref_state = reference_state();
    let lvlh = LVLH::new(v3(-100000.0, 200000.0, -300000.0), v3(0.0, -5.0, 10.0));
    let j2000 = J2000::try_from_lvlh(lvlh, &ref_state).unwrap();
    let back = LVLH::try_from_j2000(j2000, &ref_state).unwrap();
    assert_vec_close(back.0.pos, [-100000.0, 200000.0, -300000.0]);
    assert_vec_close(back.0.vel, [0.0, -5.0, 10.0]);
}

#[test]
fn round_trip_vvlh_j2000() {
    let ref_state = reference_state();
    let vvlh = VVLH::new(v3(250.0, -125.0, 4000.0), v3(1.5, -0.25, 2.0));
    let j2000 = J2000::try_from_vvlh(vvlh, &ref_state).unwrap();
    let back = VVLH::try_from_j2000(j2000, &ref_state).unwrap();
    assert_vec_close(back.0.pos, [250.0, -125.0, 4000.0]);
    assert_vec_close(back.0.vel, [1.5, -0.25, 2.0]);
}

#[test]
fn orbit_circular_equatorial() {
    // Circular (e = 0) equatorial (i = 0) orbit at true anomaly 0: the
    // position has magnitude `a` along the direction set by `omega + w`,
    // and the velocity is perpendicular with magnitude sqrt(MU / a).
    let a = 4.2166e7;
    let orbit = OrbitCoefficients {
        a: F(a),
        e: F(0.0),
        i: F(0.0),
        omega: F(0.3),
        w: F(0.4),
        theta: F(0.0),
    };
    let state = J2000::from(orbit).0;
    let angle = 0.7_f64;
    assert_vec_close(state.pos, [a * angle.cos(), a * angle.sin(), 0.0]);
    let speed = (3.986004418e14_f64 / a).sqrt();
    assert_vec_close(state.vel, [-speed * angle.sin(), speed * angle.cos(), 0.0]);
    // Perpendicularity, relative to the magnitudes involved.
    let dot = state.pos.dot(state.vel).0.abs();
    assert!(dot <= 1e-9 * a * speed);
}

/// A deliberately broken scalar whose multiplication collapses to zero but
/// whose square root never does: it drives the conversion past the
/// normalization guards into the defensive singular-inverse branch.
#[derive(Debug, Clone, Copy, PartialEq)]
struct Collapse(f64);

impl RealField for Collapse {
    fn add(self, rhs: Self) -> Self {
        Collapse(self.0 + rhs.0)
    }

    fn sub(self, rhs: Self) -> Self {
        Collapse(self.0 - rhs.0)
    }

    fn mul(self, _rhs: Self) -> Self {
        Collapse(0.0)
    }

    fn div(self, rhs: Self) -> Self {
        Collapse(self.0 / rhs.0)
    }

    fn neg(self) -> Self {
        Collapse(-self.0)
    }

    fn sqrt(self) -> Self {
        Collapse(1.0)
    }

    fn sin(self) -> Self {
        Collapse(self.0.sin())
    }

    fn cos(self) -> Self {
        Collapse(self.0.cos())
    }

    fn zero() -> Self {
        Collapse(0.0)
    }

    fn one() -> Self {
        Collapse(1.0)
    }

    fn is_zero(self) -> bool {
        self.0 == 0.0
    }

    // Ghost items of the trait: the verifier erases them, and nothing ever
    // calls them at runtime; the bodies only satisfy the compiler.
    fn add_spec(self, _rhs: Self) -> Self {
        self
    }

    fn sub_spec(self, _rhs: Self) -> Self {
        self
    }

    fn mul_spec(self, _rhs: Self) -> Self {
        self
    }

    fn div_spec(self, _rhs: Self) -> Self {
        self
    }

    fn neg_spec(self) -> Self {
        self
    }

    fn sqrt_spec(self) -> Self {
        self
    }

    fn sin_spec(self) -> Self {
        self
    }

    fn cos_spec(self) -> Self {
        self
    }

    fn zero_spec() -> Self {
        Self::zero()
    }

    fn one_spec() -> Self {
        Self::one()
    }

    fn is_zero_spec(self) -> bool {
        false
    }

    fn law_neg_neg(self) {}

    fn law_zero_add_zero() {}

    fn law_zero_mul_zero() {}

    fn law_sqrt_zero() {}

    fn law_zero_is_zero() {}
}

#[test]
fn inverse_singular_is_reported() {
    let c = Collapse(1.0);
    let ref_state = J2000::new(
        Vector3::new(c, c, c),
        Vector3::new(Collapse(2.0), Collapse(3.0), Collapse(4.0)),
    );
    let lvlh = LVLH::new(Vector3::new(c, c, c), Vector3::new(c, c, c));
    assert_eq!(
        J2000::try_from_lvlh(lvlh, &ref_state).unwrap_err(),
        MatrixError::InverseSingular
    );
    assert_eq!(
        vector3::try_j2000_vel_from_lvlh(&Vector3::new(c, c, c), &ref_state).unwrap_err(),
        MatrixError::InverseSingular
    );
}
