//! A vector of motion with an x and a y component. Vectors can be added to
//! [`crate::directions::coordinate::Coordinate`] values.
//!
//! The arithmetic operators are exact: each requires that every component of
//! the result fits in an `i32`, and verified callers must show that it does.

use vstd::prelude::*;

verus! {

/// Whether a mathematical integer is representable as an `i32`.
pub open spec fn fits_i32(v: int) -> bool {
    i32::MIN <= v <= i32::MAX
}

/// A vector of motion.
#[derive(Debug, Clone, Copy, PartialEq, Eq, Structural)]
pub struct Vector {
    /// x direction
    pub x: i32,
    /// y direction
    pub y: i32,
}

/// The four cardinal directions.
#[derive(Debug, Clone, Copy, PartialEq, Eq, Structural)]
pub enum CardinalDirection {
    North,
    East,
    South,
    West,
}

impl Vector {
    /// The square of the Euclidean length, `x² + y²`, as a mathematical integer.
    pub open spec fn spec_squared_magnitude(self) -> int {
        self.x * self.x + self.y * self.y
    }

    /// Creates a new vector.
    pub fn new(x: i32, y: i32) -> (r: Vector)
        ensures
            r.x == x,
            r.y == y,
    {
        Vector { x, y }
    }

    /// The square of the Euclidean length, `x² + y²`, computed exactly.
    /// The length itself is the square root of this value.
    pub fn squared_magnitude(&self) -> (r: u64)
        ensures
            r == self.spec_squared_magnitude(),
    {
        let x = self.x as i64;
        let y = self.y as i64;
        assert(x * x <= 0x4000_0000_0000_0000) by (nonlinear_arith)
            requires
                i32::MIN <= x <= i32::MAX,
        ;
        assert(y * y <= 0x4000_0000_0000_0000) by (nonlinear_arith)
            requires
                i32::MIN <= y <= i32::MAX,
        ;
        assert(0 <= x * x && 0 <= y * y) by (nonlinear_arith);
        let xx = (x * x) as u64;
        let yy = (y * y) as u64;
        xx + yy
    }
}

impl std::ops::Add for Vector {
    type Output = Vector;

    /// Adds component-wise.
    fn add(self, rhs: Vector) -> (r: Vector)
        ensures
            r.x == self.x + rhs.x,
            r.y == self.y + rhs.y,
    {
        Vector { x: self.x + rhs.x, y: self.y + rhs.y }
    }
}

impl vstd::std_specs::ops::AddSpecImpl for Vector {
    open spec fn obeys_add_spec() -> bool {
        true
    }

    open spec fn add_req(self, rhs: Vector) -> bool {
        fits_i32(self.x + rhs.x) && fits_i32(self.y + rhs.y)
    }

    open spec fn add_spec(self, rhs: Vector) -> Vector {
        Vector { x: (self.x + rhs.x) as i32, y: (self.y + rhs.y) as i32 }
    }
}

impl<'a> std::ops::Add for &'a Vector {
    type Output = Vector;

    /// Adds component-wise.
    fn add(self, rhs: &'a Vector) -> (r: Vector)
        ensures
            r.x == self.x + rhs.x,
            r.y == self.y + rhs.y,
    {
        Vector { x: self.x + rhs.x, y: self.y + rhs.y }
    }
}

impl<'a> vstd::std_specs::ops::AddSpecImpl for &'a Vector {
    open spec fn obeys_add_spec() -> bool {
        true
    }

    open spec fn add_req(self, rhs: &'a Vector) -> bool {
        fits_i32(self.x + rhs.x) && fits_i32(self.y + rhs.y)
    }

    open spec fn add_spec(self, rhs: &'a Vector) -> Vector {
        Vector { x: (self.x + rhs.x) as i32, y: (self.y + rhs.y) as i32 }
    }
}

impl std::ops::AddAssign for Vector {
    /// Adds `rhs` to this vector in place.
    fn add_assign(&mut self, rhs: Vector)
        requires
            fits_i32(old(self).x + rhs.x),
            fits_i32(old(self).y + rhs.y),
        ensures
            final(self).x == old(self).x + rhs.x,
            final(self).y == old(self).y + rhs.y,
    {
        *self = Vector { x: self.x + rhs.x, y: self.y + rhs.y };
    }
}

impl std::ops::Sub for Vector {
    type Output = Vector;

    /// Subtracts component-wise.
    fn sub(self, rhs: Vector) -> (r: Vector)
        ensures
            r.x == self.x - rhs.x,
            r.y == self.y - rhs.y,
    {
        Vector { x: self.x - rhs.x, y: self.y - rhs.y }
    }
}

impl vstd::std_specs::ops::SubSpecImpl for Vector {
    open spec fn obeys_sub_spec() -> bool {
        true
    }

    open spec fn sub_req(self, rhs: Vector) -> bool {
        fits_i32(self.x - rhs.x) && fits_i32(self.y - rhs.y)
    }

    open spec fn sub_spec(self, rhs: Vector) -> Vector {
        Vector { x: (self.x - rhs.x) as i32, y: (self.y - rhs.y) as i32 }
    }
}

impl<'a> std::ops::Sub for &'a Vector {
    type Output = Vector;

    /// Subtracts component-wise.
    fn sub(self, rhs: &'a Vector) -> (r: Vector)
        ensures
            r.x == self.x - rhs.x,
            r.y == self.y - rhs.y,
    {
        Vector { x: self.x - rhs.x, y: self.y - rhs.y }
    }
}

impl<'a> vstd::std_specs::ops::SubSpecImpl for &'a Vector {
    open spec fn obeys_sub_spec() -> bool {
        true
    }

    open spec fn sub_req(self, rhs: &'a Vector) -> bool {
        fits_i32(self.x - rhs.x) && fits_i32(self.y - rhs.y)
    }

    open spec fn sub_spec(self, rhs: &'a Vector) -> Vector {
        Vector { x: (self.x - rhs.x) as i32, y: (self.y - rhs.y) as i32 }
    }
}

impl std::ops::SubAssign for Vector {
    /// Subtracts `rhs` from this vector in place.
    fn sub_assign(&mut self, rhs: Vector)
        requires
            fits_i32(old(self).x - rhs.x),
            fits_i32(old(self).y - rhs.y),
        ensures
            final(self).x == old(self).x - rhs.x,
            final(self).y == old(self).y - rhs.y,
    {
        *self = Vector { x: self.x - rhs.x, y: self.y - rhs.y };
    }
}

impl std::ops::Mul<i32> for Vector {
    type Output = Vector;

    /// Scales both components by `rhs`.
    fn mul(self, rhs: i32) -> (r: Vector)
        ensures
            r.x == self.x * rhs,
            r.y == self.y * rhs,
    {
        Vector { x: self.x * rhs, y: self.y * rhs }
    }
}

impl vstd::std_specs::ops::MulSpecImpl<i32> for Vector {
    open spec fn obeys_mul_spec() -> bool {
        true
    }

    open spec fn mul_req(self, rhs: i32) -> bool {
        fits_i32(self.x * rhs) && fits_i32(self.y * rhs)
    }

    open spec fn mul_spec(self, rhs: i32) -> Vector {
        Vector { x: (self.x * rhs) as i32, y: (self.y * rhs) as i32 }
    }
}

impl std::ops::MulAssign<i32> for Vector {
    /// Scales this vector by `rhs` in place.
    fn mul_assign(&mut self, rhs: i32)
        requires
            fits_i32(old(self).x * rhs),
            fits_i32(old(self).y * rhs),
        ensures
            final(self).x == old(self).x * rhs,
            final(self).y == old(self).y * rhs,
    {
        *self = Vector { x: self.x * rhs, y: self.y * rhs };
    }
}

} // verus!
