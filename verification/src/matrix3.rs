use vstd::prelude::*;

use crate::scalar::RealField;
use crate::vector3::Vector3;

verus! {

/// A 3x3 matrix over an arbitrary scalar field, stored as its three rows.
#[derive(Debug, Clone, Copy, PartialEq)]
pub struct Matrix3<T> {
    pub row0: Vector3<T>,
    pub row1: Vector3<T>,
    pub row2: Vector3<T>,
}

impl<T: RealField> Matrix3<T> {
    /// Left-multiplication of a column vector: each result component is the
    /// dot product of the matching row with `v`.
    pub open spec fn mul_vec_spec(self, v: Vector3<T>) -> Vector3<T> {
        Vector3 {
            x: self.row0.dot_spec(v),
            y: self.row1.dot_spec(v),
            z: self.row2.dot_spec(v),
        }
    }

    /// The matrix with rows and columns exchanged.
    pub open spec fn transpose_spec(self) -> Self {
        Matrix3 {
            row0: Vector3 { x: self.row0.x, y: self.row1.x, z: self.row2.x },
            row1: Vector3 { x: self.row0.y, y: self.row1.y, z: self.row2.y },
            row2: Vector3 { x: self.row0.z, y: self.row1.z, z: self.row2.z },
        }
    }

    /// Matrix product: row `i` of the result holds the dot products of row
    /// `i` of `self` with the columns of `rhs`.
    pub open spec fn mul_mat_spec(self, rhs: Self) -> Self {
        let cols = rhs.transpose_spec();
        Matrix3 {
            row0: Vector3 {
                x: self.row0.dot_spec(cols.row0),
                y: self.row0.dot_spec(cols.row1),
                z: self.row0.dot_spec(cols.row2),
            },
            row1: Vector3 {
                x: self.row1.dot_spec(cols.row0),
                y: self.row1.dot_spec(cols.row1),
                z: self.row1.dot_spec(cols.row2),
            },
            row2: Vector3 {
                x: self.row2.dot_spec(cols.row0),
                y: self.row2.dot_spec(cols.row1),
                z: self.row2.dot_spec(cols.row2),
            },
        }
    }

    /// Determinant as the scalar triple product of the rows.
    pub open spec fn det_spec(self) -> T {
        self.row0.dot_spec(self.row1.cross_spec(self.row2))
    }

    /// Closed-form inverse by the adjugate: the columns of the inverse are
    /// the pairwise cross products of the rows, each divided by the
    /// determinant. Meaningful only where the determinant is not zero.
    pub open spec fn inverse_spec(self) -> Self {
        let det = self.det_spec();
        let c0 = self.row1.cross_spec(self.row2).unscale_spec(det);
        let c1 = self.row2.cross_spec(self.row0).unscale_spec(det);
        let c2 = self.row0.cross_spec(self.row1).unscale_spec(det);
        Matrix3 {
            row0: Vector3 { x: c0.x, y: c1.x, z: c2.x },
            row1: Vector3 { x: c0.y, y: c1.y, z: c2.y },
            row2: Vector3 { x: c0.z, y: c1.z, z: c2.z },
        }
    }

    /// The skew-symmetric cross-product matrix of `v`: for every `u`,
    /// multiplying it by `u` computes `v x u`.
    pub open spec fn skew_spec(v: Vector3<T>) -> Self {
        Matrix3 {
            row0: Vector3 { x: T::zero_spec(), y: v.z.neg_spec(), z: v.y },
            row1: Vector3 { x: v.z, y: T::zero_spec(), z: v.x.neg_spec() },
            row2: Vector3 { x: v.y.neg_spec(), y: v.x, z: T::zero_spec() },
        }
    }

    pub fn from_rows(row0: Vector3<T>, row1: Vector3<T>, row2: Vector3<T>) -> (r: Self)
        ensures
            r == (Matrix3 { row0, row1, row2 }),
    {
        Matrix3 { row0, row1, row2 }
    }

    pub fn mul_vec(&self, v: Vector3<T>) -> (r: Vector3<T>)
        ensures
            r == self.mul_vec_spec(v),
    {
        Vector3 { x: self.row0.dot(v), y: self.row1.dot(v), z: self.row2.dot(v) }
    }

    pub fn transpose(&self) -> (r: Self)
        ensures
            r == self.transpose_spec(),
    {
        Matrix3 {
            row0: Vector3 { x: self.row0.x, y: self.row1.x, z: self.row2.x },
            row1: Vector3 { x: self.row0.y, y: self.row1.y, z: self.row2.y },
            row2: Vector3 { x: self.row0.z, y: self.row1.z, z: self.row2.z },
        }
    }

    pub fn mul_mat(&self, rhs: &Self) -> (r: Self)
        ensures
            r == self.mul_mat_spec(*rhs),
    {
        let cols = rhs.transpose();
        Matrix3 {
            row0: Vector3 {
                x: self.row0.dot(cols.row0),
                y: self.row0.dot(cols.row1),
                z: self.row0.dot(cols.row2),
            },
            row1: Vector3 {
                x: self.row1.dot(cols.row0),
                y: self.row1.dot(cols.row1),
                z: self.row1.dot(cols.row2),
            },
            row2: Vector3 {
                x: self.row2.dot(cols.row0),
                y: self.row2.dot(cols.row1),
                z: self.row2.dot(cols.row2),
            },
        }
    }

    pub fn det(&self) -> (r: T)
        ensures
            r == self.det_spec(),
    {
        self.row0.dot(self.row1.cross(self.row2))
    }

    /// The inverse, or `None` exactly when the determinant is zero.
    pub fn try_inverse(&self) -> (r: Option<Self>)
        ensures
            match r {
                Some(inv) => !self.det_spec().is_zero_spec() && inv == self.inverse_spec(),
                None => self.det_spec().is_zero_spec(),
            },
    {
        let det = self.det();
        if det.is_zero() {
            None
        } else {
            let c0 = self.row1.cross(self.row2).unscale(det);
            let c1 = self.row2.cross(self.row0).unscale(det);
            let c2 = self.row0.cross(self.row1).unscale(det);
            Some(
                Matrix3 {
                    row0: Vector3 { x: c0.x, y: c1.x, z: c2.x },
                    row1: Vector3 { x: c0.y, y: c1.y, z: c2.y },
                    row2: Vector3 { x: c0.z, y: c1.z, z: c2.z },
                },
            )
        }
    }

    pub fn skew(v: Vector3<T>) -> (r: Self)
        ensures
            r == Self::skew_spec(v),
    {
        let zero = T::zero();
        Matrix3 {
            row0: Vector3 { x: zero, y: v.z.neg(), z: v.y },
            row1: Vector3 { x: v.z, y: zero, z: v.x.neg() },
            row2: Vector3 { x: v.y.neg(), y: v.x, z: zero },
        }
    }
}

} // verus!
