use vstd::prelude::*;

use crate::matrix3::Matrix3;
use crate::scalar::RealField;
use crate::vector3;
use crate::vector3::Vector3;
use crate::MatrixError;

verus! {

/// Satellite state with position in `m` and velocity in `m/s`, with no
/// frame attached. The three tagged wrappers below pin a frame to it at
/// the type level.
#[derive(Debug, Clone, Copy, PartialEq)]
pub struct PosVel<T> {
    /// Position in `m`
    pub pos: Vector3<T>,
    /// Velocity in `m/s`
    pub vel: Vector3<T>,
}

impl<T: RealField> PosVel<T> {
    pub fn new(pos: Vector3<T>, vel: Vector3<T>) -> (r: Self)
        ensures
            r == (PosVel { pos, vel }),
    {
        PosVel { pos, vel }
    }

    /// The state spelled out as the 6-element sequence
    /// `[pos.x, pos.y, pos.z, vel.x, vel.y, vel.z]`.
    pub open spec fn to_seq_spec(self) -> Seq<T> {
        seq![self.pos.x, self.pos.y, self.pos.z, self.vel.x, self.vel.y, self.vel.z]
    }

    /// The state read back from such a 6-element sequence.
    pub open spec fn from_seq_spec(s: Seq<T>) -> Self {
        PosVel {
            pos: Vector3 { x: s[0], y: s[1], z: s[2] },
            vel: Vector3 { x: s[3], y: s[4], z: s[5] },
        }
    }

    /// Spells the state out as the array `[pos.x, pos.y, pos.z, vel.x,
    /// vel.y, vel.z]`.
    pub fn to_array(self) -> (r: [T; 6])
        ensures
            r@ == self.to_seq_spec(),
    {
        let r = [self.pos.x, self.pos.y, self.pos.z, self.vel.x, self.vel.y, self.vel.z];
        proof {
            assert(r@ =~= self.to_seq_spec());
        }
        r
    }

    /// Builds the state back from its 6-element array form.
    pub fn from_array(arr: &[T; 6]) -> (r: Self)
        ensures
            r == Self::from_seq_spec(arr@),
    {
        PosVel {
            pos: Vector3 { x: arr[0], y: arr[1], z: arr[2] },
            vel: Vector3 { x: arr[3], y: arr[4], z: arr[5] },
        }
    }
}

impl<T: RealField> Default for PosVel<T> {
    /// The state at rest at the origin.
    fn default() -> (r: Self)
        ensures
            r == (PosVel { pos: Vector3::<T>::zero_spec(), vel: Vector3::<T>::zero_spec() }),
    {
        PosVel { pos: Vector3::default(), vel: Vector3::default() }
    }
}

/// Reading a state back from its own 6-element form reproduces it exactly:
/// no component is lost or reordered. The converse holds of every
/// 6-element sequence.
pub proof fn lemma_state_array_round_trip<T: RealField>(state: PosVel<T>, s: Seq<T>)
    ensures
        PosVel::from_seq_spec(state.to_seq_spec()) == state,
        s.len() == 6 ==> PosVel::from_seq_spec(s).to_seq_spec() == s,
{
    if s.len() == 6 {
        assert(PosVel::from_seq_spec(s).to_seq_spec() =~= s);
    }
}

/// A `PosVel` expressed in the J2000 Earth-centered inertial frame.
#[derive(Debug, Clone, Copy, PartialEq)]
pub struct J2000<T>(pub PosVel<T>);

/// A `PosVel` expressed in the Local-Vertical-Local-Horizontal frame of a
/// reference orbit.
#[derive(Debug, Clone, Copy, PartialEq)]
pub struct LVLH<T>(pub PosVel<T>);

/// A `PosVel` expressed in the VVLH frame, a fixed axis re-labelling of
/// LVLH.
#[derive(Debug, Clone, Copy, PartialEq)]
pub struct VVLH<T>(pub PosVel<T>);

impl<T: RealField> J2000<T> {
    pub fn new(pos: Vector3<T>, vel: Vector3<T>) -> (r: Self)
        ensures
            r == (J2000(PosVel { pos, vel })),
    {
        J2000(PosVel { pos, vel })
    }
}

impl<T: RealField> LVLH<T> {
    pub fn new(pos: Vector3<T>, vel: Vector3<T>) -> (r: Self)
        ensures
            r == (LVLH(PosVel { pos, vel })),
    {
        LVLH(PosVel { pos, vel })
    }
}

impl<T: RealField> VVLH<T> {
    pub fn new(pos: Vector3<T>, vel: Vector3<T>) -> (r: Self)
        ensures
            r == (VVLH(PosVel { pos, vel })),
    {
        VVLH(PosVel { pos, vel })
    }
}

impl<T: RealField> Default for J2000<T> {
    /// The state at rest at the origin.
    fn default() -> (r: Self)
        ensures
            r == (J2000(
                PosVel { pos: Vector3::<T>::zero_spec(), vel: Vector3::<T>::zero_spec() },
            )),
    {
        J2000(PosVel::default())
    }
}

impl<T: RealField> Default for LVLH<T> {
    /// The state at rest at the origin.
    fn default() -> (r: Self)
        ensures
            r == (LVLH(
                PosVel { pos: Vector3::<T>::zero_spec(), vel: Vector3::<T>::zero_spec() },
            )),
    {
        LVLH(PosVel::default())
    }
}

impl<T: RealField> Default for VVLH<T> {
    /// The state at rest at the origin.
    fn default() -> (r: Self)
        ensures
            r == (VVLH(
                PosVel { pos: Vector3::<T>::zero_spec(), vel: Vector3::<T>::zero_spec() },
            )),
    {
        VVLH(PosVel::default())
    }
}

/// The orbital angular-momentum vector of a reference state:
/// `h = pos x vel`.
pub open spec fn angular_momentum_spec<T: RealField>(ref_state: PosVel<T>) -> Vector3<T> {
    ref_state.pos.cross_spec(ref_state.vel)
}

/// A reference state is degenerate when its position, or its orbital
/// angular momentum, has zero norm: no LVLH basis exists for it, and every
/// conversion through it fails with `NormalizeZero`.
pub open spec fn reference_degenerate<T: RealField>(ref_state: PosVel<T>) -> bool {
    ||| ref_state.pos.norm_spec().is_zero_spec()
    ||| angular_momentum_spec(ref_state).norm_spec().is_zero_spec()
}

/// The rotation that takes J2000 coordinates into LVLH coordinates of the
/// reference orbit. Its rows are the radial unit vector, the along-track
/// unit vector, and the orbit-normal unit vector of the reference state,
/// each expressed in J2000 coordinates.
pub open spec fn basis_spec<T: RealField>(ref_state: PosVel<T>) -> Matrix3<T> {
    let rho_hat = ref_state.pos.unscale_spec(ref_state.pos.norm_spec());
    let h = angular_momentum_spec(ref_state);
    let h_hat = h.unscale_spec(h.norm_spec());
    Matrix3 { row0: rho_hat, row1: h_hat.cross_spec(rho_hat), row2: h_hat }
}

/// The skew-symmetric cross-product matrix of the rotating frame's angular
/// velocity `omega = h / |pos|^2`.
pub open spec fn omega_matrix_spec<T: RealField>(ref_state: PosVel<T>) -> Matrix3<T> {
    let rho_norm = ref_state.pos.norm_spec();
    Matrix3::skew_spec(
        angular_momentum_spec(ref_state).unscale_spec(rho_norm.mul_spec(rho_norm)),
    )
}

/// The LVLH state of `target` relative to `ref_state`: the position is the
/// rotated relative position, and the velocity carries the transport
/// correction `omega x rho_rel` for the rotating frame.
pub open spec fn lvlh_state_from_j2000_spec<T: RealField>(
    target: PosVel<T>,
    ref_state: PosVel<T>,
) -> PosVel<T> {
    let a = basis_spec(ref_state);
    let omega_w = omega_matrix_spec(ref_state);
    let rho_rel = target.pos.sub_spec(ref_state.pos);
    PosVel {
        pos: a.mul_vec_spec(rho_rel),
        vel: a.mul_vec_spec(
            target.vel.sub_spec(ref_state.vel).sub_spec(omega_w.mul_vec_spec(rho_rel)),
        ),
    }
}

/// The J2000 state of an LVLH `target` relative to `ref_state`: the
/// forward map algebraically rearranged around the explicit inverse of the
/// basis.
pub open spec fn j2000_state_from_lvlh_spec<T: RealField>(
    target: PosVel<T>,
    ref_state: PosVel<T>,
) -> PosVel<T> {
    let a = basis_spec(ref_state);
    let inv_a = a.inverse_spec();
    let omega_w = omega_matrix_spec(ref_state);
    let pos_rel = inv_a.mul_vec_spec(target.pos);
    PosVel {
        pos: ref_state.pos.add_spec(pos_rel),
        vel: ref_state.vel.add_spec(
            inv_a.mul_vec_spec(
                target.vel.add_spec(a.mul_mat_spec(omega_w).mul_vec_spec(pos_rel)),
            ),
        ),
    }
}

/// A state re-labelled from LVLH axes to VVLH axes, position and velocity
/// independently.
pub open spec fn vvlh_state_from_lvlh_spec<T: RealField>(s: PosVel<T>) -> PosVel<T> {
    PosVel {
        pos: vector3::vvlh_from_lvlh_spec(s.pos),
        vel: vector3::vvlh_from_lvlh_spec(s.vel),
    }
}

/// A state re-labelled from VVLH axes to LVLH axes, position and velocity
/// independently.
pub open spec fn lvlh_state_from_vvlh_spec<T: RealField>(s: PosVel<T>) -> PosVel<T> {
    PosVel {
        pos: vector3::lvlh_from_vvlh_spec(s.pos),
        vel: vector3::lvlh_from_vvlh_spec(s.vel),
    }
}

impl<T: RealField> J2000<T> {
    /// Converts an LVLH state back into J2000 coordinates around the given
    /// J2000 reference state.
    pub fn try_from_lvlh(lvlh: LVLH<T>, ref_state: &Self) -> (r: Result<Self, MatrixError>)
        ensures
            match r {
                Ok(j2000) => !reference_degenerate(ref_state.0) && !basis_spec(
                    ref_state.0,
                ).det_spec().is_zero_spec() && j2000.0 == j2000_state_from_lvlh_spec(
                    lvlh.0,
                    ref_state.0,
                ),
                Err(MatrixError::NormalizeZero) => reference_degenerate(ref_state.0),
                Err(MatrixError::InverseSingular) => !reference_degenerate(ref_state.0)
                    && basis_spec(ref_state.0).det_spec().is_zero_spec(),
            },
    {
        let rho_norm = vector3::norm_not_zero(&ref_state.0.pos)?;
        let rho_hat = ref_state.0.pos.unscale(rho_norm);
        let h = ref_state.0.pos.cross(ref_state.0.vel);
        let h_hat = vector3::normalize(&h)?;
        let a = Matrix3::from_rows(rho_hat, h_hat.cross(rho_hat), h_hat);
        let inv_a = match a.try_inverse() {
            Some(inv) => inv,
            None => {
                return Err(MatrixError::InverseSingular);
            },
        };
        let lvlh_pos_j2000 = inv_a.mul_vec(lvlh.0.pos);
        let omega = h.unscale(rho_norm.mul(rho_norm));
        let omega_w = Matrix3::skew(omega);
        let vel_j2000 = ref_state.0.vel.add(
            inv_a.mul_vec(lvlh.0.vel.add(a.mul_mat(&omega_w).mul_vec(lvlh_pos_j2000))),
        );
        Ok(J2000(PosVel { pos: ref_state.0.pos.add(lvlh_pos_j2000), vel: vel_j2000 }))
    }

    /// Converts a VVLH state back into J2000 coordinates: always the
    /// composition of the VVLH -> LVLH re-labelling with the LVLH -> J2000
    /// transform.
    pub fn try_from_vvlh(vvlh: VVLH<T>, ref_state: &Self) -> (r: Result<Self, MatrixError>)
        ensures
            match r {
                Ok(j2000) => !reference_degenerate(ref_state.0) && !basis_spec(
                    ref_state.0,
                ).det_spec().is_zero_spec() && j2000.0 == j2000_state_from_lvlh_spec(
                    lvlh_state_from_vvlh_spec(vvlh.0),
                    ref_state.0,
                ),
                Err(MatrixError::NormalizeZero) => reference_degenerate(ref_state.0),
                Err(MatrixError::InverseSingular) => !reference_degenerate(ref_state.0)
                    && basis_spec(ref_state.0).det_spec().is_zero_spec(),
            },
    {
        J2000::try_from_lvlh(LVLH::from(vvlh), ref_state)
    }
}

impl<T: RealField> LVLH<T> {
    /// Converts a J2000 state into LVLH coordinates around the given J2000
    /// reference state.
    pub fn try_from_j2000(j2000: J2000<T>, ref_state: &J2000<T>) -> (r: Result<
        Self,
        MatrixError,
    >)
        ensures
            match r {
                Ok(lvlh) => !reference_degenerate(ref_state.0) && lvlh.0
                    == lvlh_state_from_j2000_spec(j2000.0, ref_state.0),
                Err(e) => reference_degenerate(ref_state.0) && e == MatrixError::NormalizeZero,
            },
    {
        let rho_norm = vector3::norm_not_zero(&ref_state.0.pos)?;
        let rho_hat = ref_state.0.pos.unscale(rho_norm);
        let h = ref_state.0.pos.cross(ref_state.0.vel);
        let h_hat = vector3::normalize(&h)?;
        let a = Matrix3::from_rows(rho_hat, h_hat.cross(rho_hat), h_hat);
        let omega = h.unscale(rho_norm.mul(rho_norm));
        let omega_w = Matrix3::skew(omega);
        let rho_rel = j2000.0.pos.sub(ref_state.0.pos);
        let lvlh_vel = a.mul_vec(j2000.0.vel.sub(ref_state.0.vel).sub(omega_w.mul_vec(rho_rel)));
        Ok(LVLH(PosVel { pos: a.mul_vec(rho_rel), vel: lvlh_vel }))
    }
}

impl<T: RealField> VVLH<T> {
    /// Converts a J2000 state into VVLH coordinates: always the composition
    /// of the J2000 -> LVLH transform with the LVLH -> VVLH re-labelling.
    pub fn try_from_j2000(j2000: J2000<T>, ref_state: &J2000<T>) -> (r: Result<
        Self,
        MatrixError,
    >)
        ensures
            match r {
                Ok(vvlh) => !reference_degenerate(ref_state.0) && vvlh.0
                    == vvlh_state_from_lvlh_spec(lvlh_state_from_j2000_spec(j2000.0, ref_state.0)),
                Err(e) => reference_degenerate(ref_state.0) && e == MatrixError::NormalizeZero,
            },
    {
        Ok(VVLH::from(LVLH::try_from_j2000(j2000, ref_state)?))
    }
}

impl<T: RealField> vstd::std_specs::convert::FromSpecImpl<LVLH<T>> for VVLH<T> {
    open spec fn obeys_from_spec() -> bool {
        true
    }

    open spec fn from_spec(lvlh: LVLH<T>) -> Self {
        VVLH(vvlh_state_from_lvlh_spec(lvlh.0))
    }
}

impl<T: RealField> From<LVLH<T>> for VVLH<T> {
    fn from(lvlh: LVLH<T>) -> (r: Self) {
        VVLH(
            PosVel {
                pos: vector3::vvlh_from_lvlh(&lvlh.0.pos),
                vel: vector3::vvlh_from_lvlh(&lvlh.0.vel),
            },
        )
    }
}

impl<T: RealField> vstd::std_specs::convert::FromSpecImpl<VVLH<T>> for LVLH<T> {
    open spec fn obeys_from_spec() -> bool {
        true
    }

    open spec fn from_spec(vvlh: VVLH<T>) -> Self {
        LVLH(lvlh_state_from_vvlh_spec(vvlh.0))
    }
}

impl<T: RealField> From<VVLH<T>> for LVLH<T> {
    fn from(vvlh: VVLH<T>) -> (r: Self) {
        LVLH(
            PosVel {
                pos: vector3::lvlh_from_vvlh(&vvlh.0.pos),
                vel: vector3::lvlh_from_vvlh(&vvlh.0.vel),
            },
        )
    }
}

/// The two state re-labellings are exact inverses of each other, for every
/// state over every scalar field: they act on position and velocity
/// independently through the vector-level maps, which are involutions.
pub proof fn lemma_vvlh_lvlh_state_involution<T: RealField>(s: PosVel<T>)
    ensures
        vvlh_state_from_lvlh_spec(lvlh_state_from_vvlh_spec(s)) == s,
        lvlh_state_from_vvlh_spec(vvlh_state_from_lvlh_spec(s)) == s,
{
    vector3::lemma_vvlh_lvlh_involution(s.pos);
    vector3::lemma_vvlh_lvlh_involution(s.vel);
}

/// A reference state whose position is the zero vector is degenerate, so
/// by the conversion contracts every LVLH/J2000 conversion through it
/// fails with `NormalizeZero`.
pub proof fn lemma_zero_ref_position_degenerate<T: RealField>(ref_state: PosVel<T>)
    requires
        ref_state.pos == Vector3::<T>::zero_spec(),
    ensures
        reference_degenerate(ref_state),
{
    vector3::lemma_zero_vector_norm_is_zero::<T>();
}

} // verus!
