//! Column-major square matrices, stored as named basis-column vectors.

use vstd::prelude::*;
use crate::vectors::Vec3;

verus! {

/// A 3x3 column-major matrix: column `i` of the mathematical matrix is the
/// corresponding axis field, in construction order.
#[derive(Debug, Clone, Copy)]
pub struct Mat3 {
    pub x_axis: Vec3,
    pub y_axis: Vec3,
    pub z_axis: Vec3,
}

impl Mat3 {
    /// Whether no entry is a NaN.
    pub open spec fn nan_free(self) -> bool {
        self.x_axis.nan_free() && self.y_axis.nan_free() && self.z_axis.nan_free()
    }

    /// Whether every entry is a zero of either sign.
    pub open spec fn all_zero(self) -> bool {
        self.x_axis.all_zero() && self.y_axis.all_zero() && self.z_axis.all_zero()
    }

    /// Whether the two matrices are equal entry by entry, as floats.
    pub open spec fn float_equal(self, rhs: Mat3) -> bool {
        &&& self.x_axis.float_equal(rhs.x_axis)
        &&& self.y_axis.float_equal(rhs.y_axis)
        &&& self.z_axis.float_equal(rhs.z_axis)
    }

    /// The matrix-vector product: the linear combination of the columns,
    /// accumulated in column order.
    pub open spec fn mul_spec(self, rhs: Vec3) -> Vec3 {
        self.x_axis.scale_spec(rhs.x).add_spec(self.y_axis.scale_spec(rhs.y)).add_spec(
            self.z_axis.scale_spec(rhs.z),
        )
    }

    /// The columnwise sum.
    pub open spec fn add_spec(self, rhs: Mat3) -> Mat3 {
        Mat3 {
            x_axis: self.x_axis.add_spec(rhs.x_axis),
            y_axis: self.y_axis.add_spec(rhs.y_axis),
            z_axis: self.z_axis.add_spec(rhs.z_axis),
        }
    }

    /// Builds the matrix directly from its columns, in column order, with no
    /// validation and no reordering.
    pub fn from_cols(x_axis: Vec3, y_axis: Vec3, z_axis: Vec3) -> (r: Mat3)
        ensures
            r == (Mat3 { x_axis, y_axis, z_axis }),
    {
        Mat3 { x_axis, y_axis, z_axis }
    }

    /// The matrix-vector product `x_axis * rhs.x + y_axis * rhs.y
    /// + z_axis * rhs.z`, the x-column term accumulated first.
    pub fn mul(self, rhs: Vec3) -> (r: Vec3)
        ensures
            r == self.mul_spec(rhs),
    {
        let mut res = self.x_axis.mul(rhs.x);
        res.add_assign(self.y_axis.mul(rhs.y));
        res.add_assign(self.z_axis.mul(rhs.z));
        res
    }

    /// The columnwise sum; adding a matrix of all-zero columns to a NaN-free
    /// matrix returns it unchanged, as floats.
    pub fn add_mat3(&self, rhs: &Mat3) -> (r: Mat3)
        ensures
            r == self.add_spec(*rhs),
            rhs.all_zero() && self.nan_free() ==> r.float_equal(*self),
    {
        Mat3::from_cols(
            self.x_axis.add(rhs.x_axis),
            self.y_axis.add(rhs.y_axis),
            self.z_axis.add(rhs.z_axis),
        )
    }

    /// The matrix-matrix product, computed through the matrix-vector
    /// primitive: column `i` of the result is `self * rhs`'s column `i`.
    pub fn mul_mat3(&self, rhs: &Mat3) -> (r: Mat3)
        ensures
            r.x_axis == self.mul_spec(rhs.x_axis),
            r.y_axis == self.mul_spec(rhs.y_axis),
            r.z_axis == self.mul_spec(rhs.z_axis),
    {
        Mat3::from_cols(self.mul(rhs.x_axis), self.mul(rhs.y_axis), self.mul(rhs.z_axis))
    }
}

impl PartialEq for Mat3 {
    /// Exact columnwise, then entrywise, floating-point equality.
    fn eq(&self, other: &Mat3) -> (r: bool) {
        self.x_axis == other.x_axis && self.y_axis == other.y_axis
            && self.z_axis == other.z_axis
    }
}

impl vstd::std_specs::cmp::PartialEqSpecImpl for Mat3 {
    open spec fn obeys_eq_spec() -> bool {
        true
    }

    open spec fn eq_spec(&self, other: &Mat3) -> bool {
        self.float_equal(*other)
    }
}

/// A four-column matrix whose columns, the fourth included, have three
/// components each: not a true 4x4 homogeneous transform, and kept so
/// deliberately.
#[derive(Debug, Clone, Copy)]
pub struct Mat4 {
    pub x_axis: Vec3,
    pub y_axis: Vec3,
    pub z_axis: Vec3,
    pub w_axis: Vec3,
}

impl Mat4 {
    /// Whether no entry is a NaN.
    pub open spec fn nan_free(self) -> bool {
        &&& self.x_axis.nan_free()
        &&& self.y_axis.nan_free()
        &&& self.z_axis.nan_free()
        &&& self.w_axis.nan_free()
    }

    /// Whether every entry is a zero of either sign.
    pub open spec fn all_zero(self) -> bool {
        &&& self.x_axis.all_zero()
        &&& self.y_axis.all_zero()
        &&& self.z_axis.all_zero()
        &&& self.w_axis.all_zero()
    }

    /// Whether the two matrices are equal entry by entry, as floats.
    pub open spec fn float_equal(self, rhs: Mat4) -> bool {
        &&& self.x_axis.float_equal(rhs.x_axis)
        &&& self.y_axis.float_equal(rhs.y_axis)
        &&& self.z_axis.float_equal(rhs.z_axis)
        &&& self.w_axis.float_equal(rhs.w_axis)
    }

    /// The matrix-vector product over the first three columns; the fourth
    /// column takes no part in it, since the vector has no fourth component.
    pub open spec fn mul_spec(self, rhs: Vec3) -> Vec3 {
        self.x_axis.scale_spec(rhs.x).add_spec(self.y_axis.scale_spec(rhs.y)).add_spec(
            self.z_axis.scale_spec(rhs.z),
        )
    }

    /// The columnwise sum.
    pub open spec fn add_spec(self, rhs: Mat4) -> Mat4 {
        Mat4 {
            x_axis: self.x_axis.add_spec(rhs.x_axis),
            y_axis: self.y_axis.add_spec(rhs.y_axis),
            z_axis: self.z_axis.add_spec(rhs.z_axis),
            w_axis: self.w_axis.add_spec(rhs.w_axis),
        }
    }

    /// Builds the matrix directly from its columns, in column order, with no
    /// validation and no reordering.
    pub fn from_cols(x_axis: Vec3, y_axis: Vec3, z_axis: Vec3, w_axis: Vec3) -> (r: Mat4)
        ensures
            r == (Mat4 { x_axis, y_axis, z_axis, w_axis }),
    {
        Mat4 { x_axis, y_axis, z_axis, w_axis }
    }

    /// The matrix-vector product `x_axis * rhs.x + y_axis * rhs.y
    /// + z_axis * rhs.z`; the fourth column takes no part in it.
    pub fn mul(self, rhs: Vec3) -> (r: Vec3)
        ensures
            r == self.mul_spec(rhs),
    {
        let mut res = self.x_axis.mul(rhs.x);
        res.add_assign(self.y_axis.mul(rhs.y));
        res.add_assign(self.z_axis.mul(rhs.z));
        res
    }

    /// The columnwise sum; adding a matrix of all-zero columns to a NaN-free
    /// matrix returns it unchanged, as floats.
    pub fn add_mat4(&self, rhs: &Mat4) -> (r: Mat4)
        ensures
            r == self.add_spec(*rhs),
            rhs.all_zero() && self.nan_free() ==> r.float_equal(*self),
    {
        Mat4::from_cols(
            self.x_axis.add(rhs.x_axis),
            self.y_axis.add(rhs.y_axis),
            self.z_axis.add(rhs.z_axis),
            self.w_axis.add(rhs.w_axis),
        )
    }

    /// The matrix-matrix product, computed through the matrix-vector
    /// primitive: column `i` of the result is `self * rhs`'s column `i`.
    pub fn mul_mat4(&self, rhs: &Mat4) -> (r: Mat4)
        ensures
            r.x_axis == self.mul_spec(rhs.x_axis),
            r.y_axis == self.mul_spec(rhs.y_axis),
            r.z_axis == self.mul_spec(rhs.z_axis),
            r.w_axis == self.mul_spec(rhs.w_axis),
    {
        Mat4::from_cols(
            self.mul(rhs.x_axis),
            self.mul(rhs.y_axis),
            self.mul(rhs.z_axis),
            self.mul(rhs.w_axis),
        )
    }
}

impl PartialEq for Mat4 {
    /// Exact columnwise, then entrywise, floating-point equality.
    fn eq(&self, other: &Mat4) -> (r: bool) {
        self.x_axis == other.x_axis && self.y_axis == other.y_axis
            && self.z_axis == other.z_axis && self.w_axis == other.w_axis
    }
}

impl vstd::std_specs::cmp::PartialEqSpecImpl for Mat4 {
    open spec fn obeys_eq_spec() -> bool {
        true
    }

    open spec fn eq_spec(&self, other: &Mat4) -> bool {
        self.float_equal(*other)
    }
}

} // verus!
