use vstd::prelude::*;

use crate::matrix3::Matrix3;
use crate::pos_vel::basis_spec;
use crate::pos_vel::reference_degenerate;
use crate::pos_vel::J2000;
use crate::scalar::RealField;
use crate::MatrixError;

verus! {

/// A 3-vector over an arbitrary scalar field. Components carry whatever
/// unit the context gives them (length, velocity, angular rate).
#[derive(Debug, Clone, Copy, PartialEq)]
pub struct Vector3<T> {
    pub x: T,
    pub y: T,
    pub z: T,
}

impl<T: RealField> Vector3<T> {
    /// Componentwise sum.
    pub open spec fn add_spec(self, rhs: Self) -> Self {
        Vector3 {
            x: self.x.add_spec(rhs.x),
            y: self.y.add_spec(rhs.y),
            z: self.z.add_spec(rhs.z),
        }
    }

    /// Componentwise difference.
    pub open spec fn sub_spec(self, rhs: Self) -> Self {
        Vector3 {
            x: self.x.sub_spec(rhs.x),
            y: self.y.sub_spec(rhs.y),
            z: self.z.sub_spec(rhs.z),
        }
    }

    /// Cross product.
    pub open spec fn cross_spec(self, rhs: Self) -> Self {
        Vector3 {
            x: self.y.mul_spec(rhs.z).sub_spec(self.z.mul_spec(rhs.y)),
            y: self.z.mul_spec(rhs.x).sub_spec(self.x.mul_spec(rhs.z)),
            z: self.x.mul_spec(rhs.y).sub_spec(self.y.mul_spec(rhs.x)),
        }
    }

    /// Dot product, summed left to right.
    pub open spec fn dot_spec(self, rhs: Self) -> T {
        self.x.mul_spec(rhs.x).add_spec(self.y.mul_spec(rhs.y)).add_spec(self.z.mul_spec(rhs.z))
    }

    /// Euclidean norm: the square root of the dot product with itself.
    pub open spec fn norm_spec(self) -> T {
        self.dot_spec(self).sqrt_spec()
    }

    /// Componentwise division by a scalar.
    pub open spec fn unscale_spec(self, divisor: T) -> Self {
        Vector3 {
            x: self.x.div_spec(divisor),
            y: self.y.div_spec(divisor),
            z: self.z.div_spec(divisor),
        }
    }

    /// The all-zero vector.
    pub open spec fn zero_spec() -> Self {
        Vector3 { x: T::zero_spec(), y: T::zero_spec(), z: T::zero_spec() }
    }

    pub fn new(x: T, y: T, z: T) -> (r: Self)
        ensures
            r == (Vector3 { x, y, z }),
    {
        Vector3 { x, y, z }
    }

    pub fn add(self, rhs: Self) -> (r: Self)
        ensures
            r == self.add_spec(rhs),
    {
        Vector3 { x: self.x.add(rhs.x), y: self.y.add(rhs.y), z: self.z.add(rhs.z) }
    }

    pub fn sub(self, rhs: Self) -> (r: Self)
        ensures
            r == self.sub_spec(rhs),
    {
        Vector3 { x: self.x.sub(rhs.x), y: self.y.sub(rhs.y), z: self.z.sub(rhs.z) }
    }

    pub fn cross(self, rhs: Self) -> (r: Self)
        ensures
            r == self.cross_spec(rhs),
    {
        Vector3 {
            x: self.y.mul(rhs.z).sub(self.z.mul(rhs.y)),
            y: self.z.mul(rhs.x).sub(self.x.mul(rhs.z)),
            z: self.x.mul(rhs.y).sub(self.y.mul(rhs.x)),
        }
    }

    pub fn dot(self, rhs: Self) -> (r: T)
        ensures
            r == self.dot_spec(rhs),
    {
        self.x.mul(rhs.x).add(self.y.mul(rhs.y)).add(self.z.mul(rhs.z))
    }

    pub fn norm(self) -> (r: T)
        ensures
            r == self.norm_spec(),
    {
        self.dot(self).sqrt()
    }

    pub fn unscale(self, divisor: T) -> (r: Self)
        ensures
            r == self.unscale_spec(divisor),
    {
        Vector3 { x: self.x.div(divisor), y: self.y.div(divisor), z: self.z.div(divisor) }
    }
}

impl<T: RealField> Default for Vector3<T> {
    /// The all-zero vector.
    fn default() -> (r: Self)
        ensures
            r == Self::zero_spec(),
    {
        Vector3 { x: T::zero(), y: T::zero(), z: T::zero() }
    }
}

/// Returns the Euclidean norm of `vec`, or `NormalizeZero` when that norm
/// is exactly zero.
pub fn norm_not_zero<T: RealField>(vec: &Vector3<T>) -> (r: Result<T, MatrixError>)
    ensures
        match r {
            Ok(n) => !vec.norm_spec().is_zero_spec() && n == vec.norm_spec(),
            Err(e) => vec.norm_spec().is_zero_spec() && e == MatrixError::NormalizeZero,
        },
{
    let norm = vec.norm();
    if norm.is_zero() {
        Err(MatrixError::NormalizeZero)
    } else {
        Ok(norm)
    }
}

/// Returns `vec` divided by its norm, or `NormalizeZero` when the norm is
/// exactly zero.
pub fn normalize<T: RealField>(vec: &Vector3<T>) -> (r: Result<Vector3<T>, MatrixError>)
    ensures
        match r {
            Ok(unit) => !vec.norm_spec().is_zero_spec() && unit == vec.unscale_spec(
                vec.norm_spec(),
            ),
            Err(e) => vec.norm_spec().is_zero_spec() && e == MatrixError::NormalizeZero,
        },
{
    Ok(vec.unscale(norm_not_zero(vec)?))
}

/// The fixed axis re-labelling that takes VVLH coordinates to LVLH
/// coordinates: `[x, y, z] -> [-z, x, -y]`.
pub open spec fn lvlh_from_vvlh_spec<T: RealField>(vvlh: Vector3<T>) -> Vector3<T> {
    Vector3 { x: vvlh.z.neg_spec(), y: vvlh.x, z: vvlh.y.neg_spec() }
}

/// The fixed axis re-labelling that takes LVLH coordinates to VVLH
/// coordinates: `[x, y, z] -> [y, -z, -x]`.
pub open spec fn vvlh_from_lvlh_spec<T: RealField>(lvlh: Vector3<T>) -> Vector3<T> {
    Vector3 { x: lvlh.y, y: lvlh.z.neg_spec(), z: lvlh.x.neg_spec() }
}

pub fn lvlh_from_vvlh<T: RealField>(vvlh: &Vector3<T>) -> (r: Vector3<T>)
    ensures
        r == lvlh_from_vvlh_spec(*vvlh),
{
    Vector3 { x: vvlh.z.neg(), y: vvlh.x, z: vvlh.y.neg() }
}

pub fn vvlh_from_lvlh<T: RealField>(lvlh: &Vector3<T>) -> (r: Vector3<T>)
    ensures
        r == vvlh_from_lvlh_spec(*lvlh),
{
    Vector3 { x: lvlh.y, y: lvlh.z.neg(), z: lvlh.x.neg() }
}

/// The two axis re-labellings are exact inverses of each other, for every
/// vector over every scalar field: going VVLH -> LVLH -> VVLH, or
/// LVLH -> VVLH -> LVLH, reproduces the argument.
pub proof fn lemma_vvlh_lvlh_involution<T: RealField>(v: Vector3<T>)
    ensures
        vvlh_from_lvlh_spec(lvlh_from_vvlh_spec(v)) == v,
        lvlh_from_vvlh_spec(vvlh_from_lvlh_spec(v)) == v,
{
    v.x.law_neg_neg();
    v.y.law_neg_neg();
    v.z.law_neg_neg();
}

/// Rotates a single LVLH velocity vector into J2000 axes through the
/// inverse of the reference basis, with no transport correction: this is
/// the bare change of axes for a free-standing vector.
pub fn try_j2000_vel_from_lvlh<T: RealField>(lvlh_vel: &Vector3<T>, ref_state: &J2000<T>) -> (r:
    Result<Vector3<T>, MatrixError>)
    ensures
        match r {
            Ok(v) => !reference_degenerate(ref_state.0) && !basis_spec(
                ref_state.0,
            ).det_spec().is_zero_spec() && v == basis_spec(ref_state.0).inverse_spec().mul_vec_spec(
                *lvlh_vel,
            ),
            Err(MatrixError::NormalizeZero) => reference_degenerate(ref_state.0),
            Err(MatrixError::InverseSingular) => !reference_degenerate(ref_state.0) && basis_spec(
                ref_state.0,
            ).det_spec().is_zero_spec(),
        },
{
    let rho_hat = normalize(&ref_state.0.pos)?;
    let h_hat = normalize(&ref_state.0.pos.cross(ref_state.0.vel))?;
    let theta_hat = h_hat.cross(rho_hat);
    let a = Matrix3::from_rows(rho_hat, theta_hat, h_hat);
    let inv_a = match a.try_inverse() {
        Some(inv) => inv,
        None => {
            return Err(MatrixError::InverseSingular);
        },
    };
    Ok(inv_a.mul_vec(*lvlh_vel))
}

/// Rotates a single VVLH velocity vector into J2000 axes: always the
/// composition of the VVLH -> LVLH re-labelling with the LVLH rotation.
pub fn try_j2000_vel_from_vvlh<T: RealField>(vvlh_vel: &Vector3<T>, ref_state: &J2000<T>) -> (r:
    Result<Vector3<T>, MatrixError>)
    ensures
        match r {
            Ok(v) => !reference_degenerate(ref_state.0) && !basis_spec(
                ref_state.0,
            ).det_spec().is_zero_spec() && v == basis_spec(ref_state.0).inverse_spec().mul_vec_spec(
                lvlh_from_vvlh_spec(*vvlh_vel),
            ),
            Err(MatrixError::NormalizeZero) => reference_degenerate(ref_state.0),
            Err(MatrixError::InverseSingular) => !reference_degenerate(ref_state.0) && basis_spec(
                ref_state.0,
            ).det_spec().is_zero_spec(),
        },
{
    try_j2000_vel_from_lvlh(&lvlh_from_vvlh(vvlh_vel), ref_state)
}

/// Rotates a single J2000 position into LVLH axes of the reference orbit:
/// the basis applied to the position relative to the reference.
pub fn try_lvlh_pos_from_j2000<T: RealField>(j2000_pos: &Vector3<T>, ref_state: &J2000<T>) -> (r:
    Result<Vector3<T>, MatrixError>)
    ensures
        match r {
            Ok(v) => !reference_degenerate(ref_state.0) && v == basis_spec(
                ref_state.0,
            ).mul_vec_spec(j2000_pos.sub_spec(ref_state.0.pos)),
            Err(e) => reference_degenerate(ref_state.0) && e == MatrixError::NormalizeZero,
        },
{
    let rho_hat = normalize(&ref_state.0.pos)?;
    let h_hat = normalize(&ref_state.0.pos.cross(ref_state.0.vel))?;
    let theta_hat = h_hat.cross(rho_hat);
    let a = Matrix3::from_rows(rho_hat, theta_hat, h_hat);
    Ok(a.mul_vec(j2000_pos.sub(ref_state.0.pos)))
}

/// Rotates a single J2000 position into VVLH axes: always the composition
/// of the LVLH rotation with the LVLH -> VVLH re-labelling.
pub fn try_vvlh_pos_from_j2000<T: RealField>(j2000_pos: &Vector3<T>, ref_state: &J2000<T>) -> (r:
    Result<Vector3<T>, MatrixError>)
    ensures
        match r {
            Ok(v) => !reference_degenerate(ref_state.0) && v == vvlh_from_lvlh_spec(
                basis_spec(ref_state.0).mul_vec_spec(j2000_pos.sub_spec(ref_state.0.pos)),
            ),
            Err(e) => reference_degenerate(ref_state.0) && e == MatrixError::NormalizeZero,
        },
{
    let lvlh_pos = try_lvlh_pos_from_j2000(j2000_pos, ref_state)?;
    Ok(vvlh_from_lvlh(&lvlh_pos))
}

/// The norm of the all-zero vector is the zero scalar, and the zero test
/// recognizes it: normalizing the zero vector always fails.
pub proof fn lemma_zero_vector_norm_is_zero<T: RealField>()
    ensures
        Vector3::<T>::zero_spec().norm_spec().is_zero_spec(),
{
    T::law_zero_mul_zero();
    T::law_zero_add_zero();
    T::law_sqrt_zero();
    T::law_zero_is_zero();
}

/// Builds a vector from the 3-element array that shares its layout.
pub fn from_array<T: RealField>(arr: &[T; 3]) -> (r: Vector3<T>)
    ensures
        r == (Vector3 { x: arr@[0], y: arr@[1], z: arr@[2] }),
{
    Vector3 { x: arr[0], y: arr[1], z: arr[2] }
}

/// Spells a vector out as the 3-element array `[x, y, z]`.
pub fn to_array<T: RealField>(vec: Vector3<T>) -> (r: [T; 3])
    ensures
        r@ == seq![vec.x, vec.y, vec.z],
{
    let r = [vec.x, vec.y, vec.z];
    proof {
        assert(r@ =~= seq![vec.x, vec.y, vec.z]);
    }
    r
}

} // verus!
