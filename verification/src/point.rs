//! An absolute position in space, distinct in type from a `Vec3`
//! displacement though structurally alike.

use vstd::prelude::*;
use crate::scalar::{add_bits, sub_bits, float_eq, is_nan, raw_add, negate_val, eq_val};
use crate::vectors::Vec3;

verus! {

/// A 3D position.  Its coordinates are binary64 bit patterns; they stay
/// private and are read in contracts through the `*_bits` views.
#[derive(Debug)]
pub struct Point {
    x: u64,
    y: u64,
    z: u64,
}

impl Point {
    /// The first coordinate's bit pattern.
    pub closed spec fn x_bits(self) -> u64 {
        self.x
    }

    /// The second coordinate's bit pattern.
    pub closed spec fn y_bits(self) -> u64 {
        self.y
    }

    /// The third coordinate's bit pattern.
    pub closed spec fn z_bits(self) -> u64 {
        self.z
    }

    /// Whether no coordinate is a NaN.
    pub open spec fn nan_free(self) -> bool {
        !is_nan(self.x_bits()) && !is_nan(self.y_bits()) && !is_nan(self.z_bits())
    }

    /// Whether the two points are equal coordinate by coordinate, as floats.
    pub open spec fn float_equal(self, rhs: Point) -> bool {
        &&& float_eq(self.x_bits(), rhs.x_bits())
        &&& float_eq(self.y_bits(), rhs.y_bits())
        &&& float_eq(self.z_bits(), rhs.z_bits())
    }

    pub fn new(x: u64, y: u64, z: u64) -> (r: Point)
        ensures
            r.x_bits() == x,
            r.y_bits() == y,
            r.z_bits() == z,
    {
        Point { x, y, z }
    }

    /// Translates the point by a displacement.
    pub fn add(self, rhs: Vec3) -> (r: Point)
        ensures
            r.x_bits() == add_bits(self.x_bits(), rhs.x),
            r.y_bits() == add_bits(self.y_bits(), rhs.y),
            r.z_bits() == add_bits(self.z_bits(), rhs.z),
    {
        Point::new(raw_add(self.x, rhs.x), raw_add(self.y, rhs.y), raw_add(self.z, rhs.z))
    }

    /// The coordinatewise sum of two points, itself a point; geometrically
    /// unconventional, and kept deliberately.  On NaN-free operands it does
    /// not depend on the operand order.
    pub fn add_point(self, rhs: Point) -> (r: Point)
        ensures
            r.x_bits() == add_bits(self.x_bits(), rhs.x_bits()),
            r.y_bits() == add_bits(self.y_bits(), rhs.y_bits()),
            r.z_bits() == add_bits(self.z_bits(), rhs.z_bits()),
            self.nan_free() && rhs.nan_free() ==> {
                &&& r.x_bits() == add_bits(rhs.x_bits(), self.x_bits())
                &&& r.y_bits() == add_bits(rhs.y_bits(), self.y_bits())
                &&& r.z_bits() == add_bits(rhs.z_bits(), self.z_bits())
            },
    {
        Point::new(raw_add(self.x, rhs.x), raw_add(self.y, rhs.y), raw_add(self.z, rhs.z))
    }

    /// The coordinatewise difference of two points, typed as a point rather
    /// than a displacement; kept deliberately.
    pub fn sub(self, rhs: Point) -> (r: Point)
        ensures
            r.x_bits() == sub_bits(self.x_bits(), rhs.x_bits()),
            r.y_bits() == sub_bits(self.y_bits(), rhs.y_bits()),
            r.z_bits() == sub_bits(self.z_bits(), rhs.z_bits()),
    {
        Point::new(
            raw_add(self.x, negate_val(rhs.x)),
            raw_add(self.y, negate_val(rhs.y)),
            raw_add(self.z, negate_val(rhs.z)),
        )
    }
}

impl PartialEq for Point {
    /// Exact coordinatewise floating-point equality, no tolerance.
    fn eq(&self, other: &Point) -> (r: bool) {
        eq_val(self.x, other.x) && eq_val(self.y, other.y) && eq_val(self.z, other.z)
    }
}

impl vstd::std_specs::cmp::PartialEqSpecImpl for Point {
    open spec fn obeys_eq_spec() -> bool {
        true
    }

    open spec fn eq_spec(&self, other: &Point) -> bool {
        self.float_equal(*other)
    }
}

} // verus!
