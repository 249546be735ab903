use vstd::prelude::*;

use crate::matrix3::Matrix3;
use crate::pos_vel::{J2000, PosVel};
use crate::scalar::RealField;
use crate::vector3::Vector3;

verus! {

/// Classical Keplerian orbital elements.
#[derive(Debug, Clone, Copy, PartialEq)]
pub struct OrbitCoefficients<T> {
    /// Semi-major axis in `m`
    pub a: T,
    /// Eccentricity
    pub e: T,
    /// Inclination in `rad`
    pub i: T,
    /// Longitude of ascending node in `rad`
    pub omega: T,
    /// Argument of perigee in `rad`
    pub w: T,
    /// True anomaly in `rad`
    pub theta: T,
}

/// A scalar that can carry orbital elements: it supplies the gravitational
/// parameter of the central body for its own precision.
pub trait CanBeOrbitCoefficient: RealField {
    /// Spec-level gravitational parameter in `m^3/s^2`.
    spec fn mu_spec() -> Self;

    /// Gravitational parameter in `m^3/s^2`.
    fn mu() -> (r: Self)
        ensures
            r == Self::mu_spec(),
    ;
}

impl<T: RealField> OrbitCoefficients<T> {
    /// The elements spelled out as the 6-element sequence
    /// `[a, e, i, omega, w, theta]`.
    pub open spec fn to_seq_spec(self) -> Seq<T> {
        seq![self.a, self.e, self.i, self.omega, self.w, self.theta]
    }

    /// The elements read back from such a 6-element sequence.
    pub open spec fn from_seq_spec(s: Seq<T>) -> Self {
        OrbitCoefficients { a: s[0], e: s[1], i: s[2], omega: s[3], w: s[4], theta: s[5] }
    }

    /// Spells the elements out as the array `[a, e, i, omega, w, theta]`.
    pub fn to_array(self) -> (r: [T; 6])
        ensures
            r@ == self.to_seq_spec(),
    {
        let r = [self.a, self.e, self.i, self.omega, self.w, self.theta];
        proof {
            assert(r@ =~= self.to_seq_spec());
        }
        r
    }

    /// Builds the elements back from their 6-element array form.
    pub fn from_array(arr: &[T; 6]) -> (r: Self)
        ensures
            r == Self::from_seq_spec(arr@),
    {
        OrbitCoefficients {
            a: arr[0],
            e: arr[1],
            i: arr[2],
            omega: arr[3],
            w: arr[4],
            theta: arr[5],
        }
    }
}

/// Reading elements back from their own 6-element form reproduces them
/// exactly, and the converse holds of every 6-element sequence.
pub proof fn lemma_orbit_array_round_trip<T: RealField>(orbit: OrbitCoefficients<T>, s: Seq<T>)
    ensures
        OrbitCoefficients::from_seq_spec(orbit.to_seq_spec()) == orbit,
        s.len() == 6 ==> OrbitCoefficients::from_seq_spec(s).to_seq_spec() == s,
{
    if s.len() == 6 {
        assert(OrbitCoefficients::from_seq_spec(s).to_seq_spec() =~= s);
    }
}

/// The standard two-body closed form that synthesizes a J2000 state from
/// Keplerian elements: the specific angular momentum from `mu`, `a` and
/// `e`; the 3-1-3 Euler rotation from perifocal to J2000 axes built from
/// `omega`, `i` and `w`; the orbit radius at the true anomaly; and the
/// perifocal position and velocity rotated out. Inputs are taken as a
/// bound elliptical orbit; no range of elements is rejected.
pub open spec fn j2000_state_from_orbit_spec<T: CanBeOrbitCoefficient>(
    orbit: OrbitCoefficients<T>,
) -> PosVel<T> {
    let e = orbit.e;
    let h = T::mu_spec().mul_spec(orbit.a).mul_spec(
        T::one_spec().sub_spec(e.mul_spec(e)),
    ).sqrt_spec();
    let cos_i = orbit.i.cos_spec();
    let sin_i = orbit.i.sin_spec();
    let cos_omega = orbit.omega.cos_spec();
    let sin_omega = orbit.omega.sin_spec();
    let cos_w = orbit.w.cos_spec();
    let sin_w = orbit.w.sin_spec();
    let cos_theta = orbit.theta.cos_spec();
    let sin_theta = orbit.theta.sin_spec();
    let r_factor = h.mul_spec(h).div_spec(T::mu_spec()).div_spec(
        T::one_spec().add_spec(e.mul_spec(cos_theta)),
    );
    let a_mat = Matrix3 {
        row0: Vector3 {
            x: cos_omega.mul_spec(cos_w).sub_spec(sin_omega.mul_spec(sin_w).mul_spec(cos_i)),
            y: cos_omega.neg_spec().mul_spec(sin_w).sub_spec(
                sin_omega.mul_spec(cos_w).mul_spec(cos_i),
            ),
            z: sin_omega.mul_spec(sin_i),
        },
        row1: Vector3 {
            x: sin_omega.mul_spec(cos_w).add_spec(cos_omega.mul_spec(sin_w).mul_spec(cos_i)),
            y: sin_omega.neg_spec().mul_spec(sin_w).add_spec(
                cos_omega.mul_spec(cos_w).mul_spec(cos_i),
            ),
            z: cos_omega.neg_spec().mul_spec(sin_i),
        },
        row2: Vector3 { x: sin_w.mul_spec(sin_i), y: cos_w.mul_spec(sin_i), z: cos_i },
    };
    let v_factor = T::mu_spec().div_spec(h);
    PosVel {
        pos: a_mat.mul_vec_spec(
            Vector3 {
                x: r_factor.mul_spec(cos_theta),
                y: r_factor.mul_spec(sin_theta),
                z: T::zero_spec(),
            },
        ),
        vel: a_mat.mul_vec_spec(
            Vector3 {
                x: v_factor.mul_spec(sin_theta.neg_spec()),
                y: v_factor.mul_spec(e.add_spec(cos_theta)),
                z: T::zero_spec(),
            },
        ),
    }
}

impl<T: CanBeOrbitCoefficient> vstd::std_specs::convert::FromSpecImpl<OrbitCoefficients<T>> for J2000<T> {
    open spec fn obeys_from_spec() -> bool {
        true
    }

    open spec fn from_spec(orbit: OrbitCoefficients<T>) -> Self {
        J2000(j2000_state_from_orbit_spec(orbit))
    }
}

impl<T: CanBeOrbitCoefficient> From<OrbitCoefficients<T>> for J2000<T> {
    fn from(orbit: OrbitCoefficients<T>) -> (r: Self) {
        let e = orbit.e;
        let one = T::one();
        let h = T::mu().mul(orbit.a).mul(one.sub(e.mul(e))).sqrt();
        let cos_i = orbit.i.cos();
        let sin_i = orbit.i.sin();
        let cos_omega = orbit.omega.cos();
        let sin_omega = orbit.omega.sin();
        let cos_w = orbit.w.cos();
        let sin_w = orbit.w.sin();
        let cos_theta = orbit.theta.cos();
        let sin_theta = orbit.theta.sin();
        let r_factor = h.mul(h).div(T::mu()).div(one.add(e.mul(cos_theta)));
        let a_mat = Matrix3 {
            row0: Vector3 {
                x: cos_omega.mul(cos_w).sub(sin_omega.mul(sin_w).mul(cos_i)),
                y: cos_omega.neg().mul(sin_w).sub(sin_omega.mul(cos_w).mul(cos_i)),
                z: sin_omega.mul(sin_i),
            },
            row1: Vector3 {
                x: sin_omega.mul(cos_w).add(cos_omega.mul(sin_w).mul(cos_i)),
                y: sin_omega.neg().mul(sin_w).add(cos_omega.mul(cos_w).mul(cos_i)),
                z: cos_omega.neg().mul(sin_i),
            },
            row2: Vector3 { x: sin_w.mul(sin_i), y: cos_w.mul(sin_i), z: cos_i },
        };
        let v_factor = T::mu().div(h);
        let zero = T::zero();
        let pos = a_mat.mul_vec(
            Vector3 { x: r_factor.mul(cos_theta), y: r_factor.mul(sin_theta), z: zero },
        );
        let vel = a_mat.mul_vec(
            Vector3 {
                x: v_factor.mul(sin_theta.neg()),
                y: v_factor.mul(e.add(cos_theta)),
                z: zero,
            },
        );
        J2000(PosVel { pos, vel })
    }
}

} // verus!
