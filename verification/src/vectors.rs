//! Fixed-size vectors of two, three and four binary64 components, each
//! component carried as its `u64` bit pattern.

use vstd::prelude::*;
use crate::scalar::{
    add_bits, mul_bits, sqrt_bits, sub_bits, float_eq, is_nan, is_zero, negate,
    raw_add, raw_mul, raw_sqrt, mul_mul_sub, eq_val,
};

verus! {

/// A two-component vector.
#[derive(Debug)]
pub struct Vec2 {
    pub x: u64,
    pub y: u64,
}

impl Vec2 {
    /// Whether no component is a NaN.
    pub open spec fn nan_free(self) -> bool {
        !is_nan(self.x) && !is_nan(self.y)
    }

    /// Whether every component is a zero of either sign.
    pub open spec fn all_zero(self) -> bool {
        is_zero(self.x) && is_zero(self.y)
    }

    /// Whether the two vectors are equal component by component, as floats.
    pub open spec fn float_equal(self, rhs: Vec2) -> bool {
        float_eq(self.x, rhs.x) && float_eq(self.y, rhs.y)
    }

    /// The componentwise sum.
    pub open spec fn add_spec(self, rhs: Vec2) -> Vec2 {
        Vec2 { x: add_bits(self.x, rhs.x), y: add_bits(self.y, rhs.y) }
    }

    /// The componentwise product.
    pub open spec fn element_product_spec(self, rhs: Vec2) -> Vec2 {
        Vec2 { x: mul_bits(self.x, rhs.x), y: mul_bits(self.y, rhs.y) }
    }

    /// The dot product: the products summed left to right.
    pub open spec fn dot_spec(self, rhs: Vec2) -> u64 {
        add_bits(mul_bits(self.x, rhs.x), mul_bits(self.y, rhs.y))
    }

    /// The perpendicular dot product `x * rhs.y - y * rhs.x`.
    pub open spec fn perp_dot_spec(self, rhs: Vec2) -> u64 {
        sub_bits(mul_bits(self.x, rhs.y), mul_bits(self.y, rhs.x))
    }

    /// The Euclidean norm `sqrt(x * x + y * y)`.
    pub open spec fn length_spec(self) -> u64 {
        sqrt_bits(add_bits(mul_bits(self.x, self.x), mul_bits(self.y, self.y)))
    }

    pub fn new(x: u64, y: u64) -> (r: Vec2)
        ensures
            r == (Vec2 { x, y }),
    {
        Vec2 { x, y }
    }

    /// The componentwise sum; on NaN-free operands it does not depend on the
    /// operand order.
    pub fn add(self, rhs: Vec2) -> (r: Vec2)
        ensures
            r == self.add_spec(rhs),
            self.nan_free() && rhs.nan_free() ==> r == rhs.add_spec(self),
            self.nan_free() && rhs.all_zero() ==> r.float_equal(self),
    {
        Vec2 { x: raw_add(self.x, rhs.x), y: raw_add(self.y, rhs.y) }
    }

    /// The dot product, a scalar.
    pub fn dot(&self, rhs: &Vec2) -> (r: u64)
        ensures
            r == self.dot_spec(*rhs),
    {
        let xp = raw_mul(self.x, rhs.x);
        let yp = raw_mul(self.y, rhs.y);
        raw_add(xp, yp)
    }

    /// The componentwise product, a vector; on NaN-free operands it does not
    /// depend on the operand order.
    pub fn element_product(&self, rhs: &Vec2) -> (r: Vec2)
        ensures
            r == self.element_product_spec(*rhs),
            self.nan_free() && rhs.nan_free() ==> r == rhs.element_product_spec(*self),
    {
        Vec2 { x: raw_mul(self.x, rhs.x), y: raw_mul(self.y, rhs.y) }
    }

    /// The perpendicular dot product of self and rhs.  Also known as the
    /// wedge product, the 2D cross product, and the determinant.  On NaN-free
    /// operands, wherever the result is not a NaN, swapping the operands
    /// negates it.
    pub fn perp_dot(&self, rhs: &Vec2) -> (r: u64)
        ensures
            r == self.perp_dot_spec(*rhs),
            self.nan_free() && rhs.nan_free() && !is_nan(r) ==> float_eq(
                r,
                negate(rhs.perp_dot_spec(*self)),
            ),
    {
        mul_mul_sub(self.x, rhs.y, self.y, rhs.x)
    }

    /// The Euclidean norm.
    pub fn length(&self) -> (r: u64)
        ensures
            r == self.length_spec(),
    {
        let xx = raw_mul(self.x, self.x);
        let yy = raw_mul(self.y, self.y);
        raw_sqrt(raw_add(xx, yy))
    }
}

impl PartialEq for Vec2 {
    /// Exact componentwise floating-point equality, no tolerance.
    fn eq(&self, other: &Vec2) -> (r: bool) {
        eq_val(self.x, other.x) && eq_val(self.y, other.y)
    }
}

impl vstd::std_specs::cmp::PartialEqSpecImpl for Vec2 {
    open spec fn obeys_eq_spec() -> bool {
        true
    }

    open spec fn eq_spec(&self, other: &Vec2) -> bool {
        self.float_equal(*other)
    }
}

/// A three-component vector.
#[derive(Clone, Copy, Debug)]
pub struct Vec3 {
    pub x: u64,
    pub y: u64,
    pub z: u64,
}

impl Vec3 {
    /// Whether no component is a NaN.
    pub open spec fn nan_free(self) -> bool {
        !is_nan(self.x) && !is_nan(self.y) && !is_nan(self.z)
    }

    /// Whether every component is a zero of either sign.
    pub open spec fn all_zero(self) -> bool {
        is_zero(self.x) && is_zero(self.y) && is_zero(self.z)
    }

    /// Whether the two vectors are equal component by component, as floats.
    pub open spec fn float_equal(self, rhs: Vec3) -> bool {
        float_eq(self.x, rhs.x) && float_eq(self.y, rhs.y) && float_eq(self.z, rhs.z)
    }

    /// The componentwise sum.
    pub open spec fn add_spec(self, rhs: Vec3) -> Vec3 {
        Vec3 {
            x: add_bits(self.x, rhs.x),
            y: add_bits(self.y, rhs.y),
            z: add_bits(self.z, rhs.z),
        }
    }

    /// Every component scaled by `s`.
    pub open spec fn scale_spec(self, s: u64) -> Vec3 {
        Vec3 { x: mul_bits(self.x, s), y: mul_bits(self.y, s), z: mul_bits(self.z, s) }
    }

    /// The componentwise product.
    pub open spec fn element_product_spec(self, rhs: Vec3) -> Vec3 {
        Vec3 {
            x: mul_bits(self.x, rhs.x),
            y: mul_bits(self.y, rhs.y),
            z: mul_bits(self.z, rhs.z),
        }
    }

    /// The dot product: the products summed left to right.
    pub open spec fn dot_spec(self, rhs: Vec3) -> u64 {
        add_bits(
            add_bits(mul_bits(self.x, rhs.x), mul_bits(self.y, rhs.y)),
            mul_bits(self.z, rhs.z),
        )
    }

    /// The right-handed cross product.
    pub open spec fn cross_spec(self, rhs: Vec3) -> Vec3 {
        Vec3 {
            x: sub_bits(mul_bits(self.y, rhs.z), mul_bits(self.z, rhs.y)),
            y: sub_bits(mul_bits(self.z, rhs.x), mul_bits(self.x, rhs.z)),
            z: sub_bits(mul_bits(self.x, rhs.y), mul_bits(self.y, rhs.x)),
        }
    }

    /// The Euclidean norm `sqrt((x * x + y * y) + z * z)`.
    pub open spec fn length_spec(self) -> u64 {
        sqrt_bits(
            add_bits(
                add_bits(mul_bits(self.x, self.x), mul_bits(self.y, self.y)),
                mul_bits(self.z, self.z),
            ),
        )
    }

    pub fn new(x: u64, y: u64, z: u64) -> (r: Vec3)
        ensures
            r == (Vec3 { x, y, z }),
    {
        Vec3 { x, y, z }
    }

    /// The componentwise sum; on NaN-free operands it does not depend on the
    /// operand order.
    pub fn add(self, rhs: Vec3) -> (r: Vec3)
        ensures
            r == self.add_spec(rhs),
            self.nan_free() && rhs.nan_free() ==> r == rhs.add_spec(self),
            self.nan_free() && rhs.all_zero() ==> r.float_equal(self),
    {
        Vec3 {
            x: raw_add(self.x, rhs.x),
            y: raw_add(self.y, rhs.y),
            z: raw_add(self.z, rhs.z),
        }
    }

    /// Replaces `self` with the sum of `self` and `rhs`: the mutating form
    /// of `add`, for callers accumulating into a single binding.
    pub fn add_assign(&mut self, rhs: Vec3)
        ensures
            *final(self) == (*old(self)).add_spec(rhs),
    {
        let v = *self;
        *self = v.add(rhs);
    }

    /// Every component scaled by `rhs`.
    pub fn mul(self, rhs: u64) -> (r: Vec3)
        ensures
            r == self.scale_spec(rhs),
    {
        Vec3 {
            x: raw_mul(self.x, rhs),
            y: raw_mul(self.y, rhs),
            z: raw_mul(self.z, rhs),
        }
    }

    /// The dot product, a scalar.
    pub fn dot(&self, rhs: &Vec3) -> (r: u64)
        ensures
            r == self.dot_spec(*rhs),
    {
        let xp = raw_mul(self.x, rhs.x);
        let yp = raw_mul(self.y, rhs.y);
        let zp = raw_mul(self.z, rhs.z);
        raw_add(raw_add(xp, yp), zp)
    }

    /// The componentwise product, a vector; on NaN-free operands it does not
    /// depend on the operand order.
    pub fn element_product(&self, rhs: &Vec3) -> (r: Vec3)
        ensures
            r == self.element_product_spec(*rhs),
            self.nan_free() && rhs.nan_free() ==> r == rhs.element_product_spec(*self),
    {
        Vec3 {
            x: raw_mul(self.x, rhs.x),
            y: raw_mul(self.y, rhs.y),
            z: raw_mul(self.z, rhs.z),
        }
    }

    /// The right-handed cross product: `cross(X, Y) == Z` on the unit basis
    /// vectors.  On NaN-free operands, each component whose value is not a
    /// NaN is the negation of the same component with the operands swapped.
    pub fn cross(&self, rhs: &Vec3) -> (r: Vec3)
        ensures
            r == self.cross_spec(*rhs),
            self.nan_free() && rhs.nan_free() && !is_nan(r.x) ==> float_eq(
                r.x,
                negate(rhs.cross_spec(*self).x),
            ),
            self.nan_free() && rhs.nan_free() && !is_nan(r.y) ==> float_eq(
                r.y,
                negate(rhs.cross_spec(*self).y),
            ),
            self.nan_free() && rhs.nan_free() && !is_nan(r.z) ==> float_eq(
                r.z,
                negate(rhs.cross_spec(*self).z),
            ),
    {
        Vec3 {
            x: mul_mul_sub(self.y, rhs.z, self.z, rhs.y),
            y: mul_mul_sub(self.z, rhs.x, self.x, rhs.z),
            z: mul_mul_sub(self.x, rhs.y, self.y, rhs.x),
        }
    }

    /// The Euclidean norm.
    pub fn length(&self) -> (r: u64)
        ensures
            r == self.length_spec(),
    {
        let xx = raw_mul(self.x, self.x);
        let yy = raw_mul(self.y, self.y);
        let zz = raw_mul(self.z, self.z);
        raw_sqrt(raw_add(raw_add(xx, yy), zz))
    }
}

impl PartialEq for Vec3 {
    /// Exact componentwise floating-point equality, no tolerance.
    fn eq(&self, other: &Vec3) -> (r: bool) {
        eq_val(self.x, other.x) && eq_val(self.y, other.y) && eq_val(self.z, other.z)
    }
}

impl vstd::std_specs::cmp::PartialEqSpecImpl for Vec3 {
    open spec fn obeys_eq_spec() -> bool {
        true
    }

    open spec fn eq_spec(&self, other: &Vec3) -> bool {
        self.float_equal(*other)
    }
}

/// A four-component vector.
#[derive(Debug)]
pub struct Vec4 {
    pub x: u64,
    pub y: u64,
    pub z: u64,
    pub w: u64,
}

impl Vec4 {
    /// Whether no component is a NaN.
    pub open spec fn nan_free(self) -> bool {
        !is_nan(self.x) && !is_nan(self.y) && !is_nan(self.z) && !is_nan(self.w)
    }

    /// Whether every component is a zero of either sign.
    pub open spec fn all_zero(self) -> bool {
        is_zero(self.x) && is_zero(self.y) && is_zero(self.z) && is_zero(self.w)
    }

    /// Whether the two vectors are equal component by component, as floats.
    pub open spec fn float_equal(self, rhs: Vec4) -> bool {
        &&& float_eq(self.x, rhs.x)
        &&& float_eq(self.y, rhs.y)
        &&& float_eq(self.z, rhs.z)
        &&& float_eq(self.w, rhs.w)
    }

    /// The componentwise sum.
    pub open spec fn add_spec(self, rhs: Vec4) -> Vec4 {
        Vec4 {
            x: add_bits(self.x, rhs.x),
            y: add_bits(self.y, rhs.y),
            z: add_bits(self.z, rhs.z),
            w: add_bits(self.w, rhs.w),
        }
    }

    /// The componentwise product.
    pub open spec fn element_product_spec(self, rhs: Vec4) -> Vec4 {
        Vec4 {
            x: mul_bits(self.x, rhs.x),
            y: mul_bits(self.y, rhs.y),
            z: mul_bits(self.z, rhs.z),
            w: mul_bits(self.w, rhs.w),
        }
    }

    /// The dot product: the products summed left to right.
    pub open spec fn dot_spec(self, rhs: Vec4) -> u64 {
        add_bits(
            add_bits(
                add_bits(mul_bits(self.x, rhs.x), mul_bits(self.y, rhs.y)),
                mul_bits(self.z, rhs.z),
            ),
            mul_bits(self.w, rhs.w),
        )
    }

    pub fn new(x: u64, y: u64, z: u64, w: u64) -> (r: Vec4)
        ensures
            r == (Vec4 { x, y, z, w }),
    {
        Vec4 { x, y, z, w }
    }

    /// The componentwise sum; on NaN-free operands it does not depend on the
    /// operand order.
    pub fn add(self, rhs: Vec4) -> (r: Vec4)
        ensures
            r == self.add_spec(rhs),
            self.nan_free() && rhs.nan_free() ==> r == rhs.add_spec(self),
            self.nan_free() && rhs.all_zero() ==> r.float_equal(self),
    {
        Vec4 {
            x: raw_add(self.x, rhs.x),
            y: raw_add(self.y, rhs.y),
            z: raw_add(self.z, rhs.z),
            w: raw_add(self.w, rhs.w),
        }
    }

    /// The dot product, a scalar.
    pub fn dot(&self, rhs: &Vec4) -> (r: u64)
        ensures
            r == self.dot_spec(*rhs),
    {
        let xp = raw_mul(self.x, rhs.x);
        let yp = raw_mul(self.y, rhs.y);
        let zp = raw_mul(self.z, rhs.z);
        let wp = raw_mul(self.w, rhs.w);
        raw_add(raw_add(raw_add(xp, yp), zp), wp)
    }

    /// The componentwise product, a vector; on NaN-free operands it does not
    /// depend on the operand order.
    pub fn element_product(&self, rhs: &Vec4) -> (r: Vec4)
        ensures
            r == self.element_product_spec(*rhs),
            self.nan_free() && rhs.nan_free() ==> r == rhs.element_product_spec(*self),
    {
        Vec4 {
            x: raw_mul(self.x, rhs.x),
            y: raw_mul(self.y, rhs.y),
            z: raw_mul(self.z, rhs.z),
            w: raw_mul(self.w, rhs.w),
        }
    }
}

impl PartialEq for Vec4 {
    /// Exact componentwise floating-point equality, no tolerance.
    fn eq(&self, other: &Vec4) -> (r: bool) {
        eq_val(self.x, other.x) && eq_val(self.y, other.y) && eq_val(self.z, other.z)
            && eq_val(self.w, other.w)
    }
}

impl vstd::std_specs::cmp::PartialEqSpecImpl for Vec4 {
    open spec fn obeys_eq_spec() -> bool {
        true
    }

    open spec fn eq_spec(&self, other: &Vec4) -> bool {
        self.float_equal(*other)
    }
}

} // verus!
