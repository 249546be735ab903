//! Conversions of spacecraft state vectors between orbital reference
//! frames — J2000 (inertial), LVLH (Local-Vertical-Local-Horizontal) and
//! VVLH (a fixed axis re-labelling of LVLH) — and from Keplerian orbital
//! elements to a Cartesian J2000 state.
//!
//! Every engine is generic over the scalar field through the
//! [`RealField`] trait, and every conversion carries a contract that
//! states the exact closed-form expression it computes, together with
//! the precise condition under which it fails.

use vstd::prelude::*;

mod scalar;
pub use scalar::RealField;

pub mod vector3;
pub use vector3::Vector3;

pub mod matrix3;
pub use matrix3::Matrix3;

mod orbit_coefficient;
pub use orbit_coefficient::j2000_state_from_orbit_spec;
pub use orbit_coefficient::lemma_orbit_array_round_trip;
pub use orbit_coefficient::CanBeOrbitCoefficient;
pub use orbit_coefficient::OrbitCoefficients;

mod pos_vel;
pub use pos_vel::angular_momentum_spec;
pub use pos_vel::basis_spec;
pub use pos_vel::j2000_state_from_lvlh_spec;
pub use pos_vel::lemma_state_array_round_trip;
pub use pos_vel::lemma_vvlh_lvlh_state_involution;
pub use pos_vel::lemma_zero_ref_position_degenerate;
pub use pos_vel::lvlh_state_from_j2000_spec;
pub use pos_vel::lvlh_state_from_vvlh_spec;
pub use pos_vel::omega_matrix_spec;
pub use pos_vel::reference_degenerate;
pub use pos_vel::vvlh_state_from_lvlh_spec;
pub use pos_vel::J2000;
pub use pos_vel::LVLH;
pub use pos_vel::PosVel;
pub use pos_vel::VVLH;

verus! {

/// Recoverable failures of the frame-transform engine: every conversion
/// returns one of these as a value, never aborts.
#[derive(Debug, Clone, Copy, PartialEq, Eq, Structural)]
pub enum MatrixError {
    /// The rotation basis could not be inverted.
    InverseSingular,
    /// A normalization step received a vector of zero magnitude.
    NormalizeZero,
}

} // verus!
