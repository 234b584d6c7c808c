//! A point in the plane with an x and a y coordinate, with helpers to move
//! it by a [`Vector`] and to compare it with other points.
//!
//! As with vectors, the arithmetic is exact: each operator requires that the
//! components of its result fit in an `i32`.

use crate::directions::direction::{fits_i32, Vector};
use vstd::prelude::*;

verus! {

/// A 2D coordinate.
#[derive(Debug, Clone, Copy, PartialEq, Eq, Structural)]
pub struct Coordinate {
    /// x coordinate
    pub x: i32,
    /// y coordinate
    pub y: i32,
}

/// Whether `v` lies between `a` and `b`, inclusive, in either order.
pub open spec fn between(v: int, a: int, b: int) -> bool {
    (a <= v && v <= b) || (b <= v && v <= a)
}

/// Whether `p` lies in the axis-aligned box with diagonal corners `a` and `b`,
/// edges included.
pub open spec fn in_box(p: Coordinate, a: Coordinate, b: Coordinate) -> bool {
    between(p.x as int, a.x as int, b.x as int) && between(p.y as int, a.y as int, b.y as int)
}

/// The box test does not depend on which corner comes first, and each corner
/// lies in its own box.
pub proof fn lemma_in_box_corner_swap(p: Coordinate, a: Coordinate, b: Coordinate)
    ensures
        in_box(p, a, b) == in_box(p, b, a),
        in_box(a, a, b),
        in_box(b, a, b),
{
}

/// Moving a point by the displacement from `b` to it, starting at `b`, lands
/// back on the point: `(a - b) + b == a`.
pub proof fn lemma_difference_round_trip(a: Coordinate, b: Coordinate)
    requires
        fits_i32(a.x - b.x),
        fits_i32(a.y - b.y),
    ensures
        ({
            let d = a.spec_displacement_from(b);
            b.spec_moved_by(d) == a
        }),
{
}

impl Coordinate {
    /// The displacement that leads from `other` to this point.
    pub open spec fn spec_displacement_from(self, other: Coordinate) -> Vector {
        Vector { x: (self.x - other.x) as i32, y: (self.y - other.y) as i32 }
    }

    /// This point moved by `v`.
    pub open spec fn spec_moved_by(self, v: Vector) -> Coordinate {
        Coordinate { x: (self.x + v.x) as i32, y: (self.y + v.y) as i32 }
    }

    /// Creates a new coordinate.
    ///
    /// - `x` - The x coordinate of the new position.
    /// - `y` - The y coordinate of the new position.
    pub fn new(x: i32, y: i32) -> (r: Coordinate)
        ensures
            r.x == x,
            r.y == y,
    {
        Coordinate { x, y }
    }

    /// Whether the y coordinate lies between those of `a` and `b`.
    fn y_in_range(&self, a: &Self, b: &Self) -> (r: bool)
        ensures
            r == between(self.y as int, a.y as int, b.y as int),
    {
        if a.y <= b.y {
            a.y <= self.y && self.y <= b.y
        } else {
            b.y <= self.y && self.y <= a.y
        }
    }

    /// Whether both coordinates lie between those of `a` and `b`.
    fn x_in_range(&self, a: &Self, b: &Self) -> (r: bool)
        ensures
            r == in_box(*self, *a, *b),
    {
        if a.x <= b.x {
            a.x <= self.x && self.x <= b.x && self.y_in_range(a, b)
        } else {
            b.x <= self.x && self.x <= a.x && self.y_in_range(a, b)
        }
    }

    /// Checks whether the point is within the rectangle given by two
    /// diagonally opposite corners `a` and `b`, in either order, edges
    /// included.
    pub fn in_rectangle(&self, a: &Self, b: &Self) -> (r: bool)
        ensures
            r == in_box(*self, *a, *b),
    {
        self.x_in_range(a, b)
    }
}

impl Default for Coordinate {
    /// The origin.
    fn default() -> (r: Self)
        ensures
            r.x == 0,
            r.y == 0,
    {
        Coordinate { x: 0, y: 0 }
    }
}

impl<'a> std::ops::Sub for &'a Coordinate {
    type Output = Vector;

    /// The displacement from `rhs` to this point.
    fn sub(self, rhs: &'a Coordinate) -> (r: Vector)
        ensures
            r.x == self.x - rhs.x,
            r.y == self.y - rhs.y,
    {
        Vector { x: self.x - rhs.x, y: self.y - rhs.y }
    }
}

impl<'a> vstd::std_specs::ops::SubSpecImpl for &'a Coordinate {
    open spec fn obeys_sub_spec() -> bool {
        true
    }

    open spec fn sub_req(self, rhs: &'a Coordinate) -> bool {
        fits_i32(self.x - rhs.x) && fits_i32(self.y - rhs.y)
    }

    open spec fn sub_spec(self, rhs: &'a Coordinate) -> Vector {
        self.spec_displacement_from(*rhs)
    }
}

impl std::ops::Sub for Coordinate {
    type Output = Vector;

    /// The displacement from `rhs` to this point.
    fn sub(self, rhs: Coordinate) -> (r: Vector)
        ensures
            r.x == self.x - rhs.x,
            r.y == self.y - rhs.y,
    {
        Vector { x: self.x - rhs.x, y: self.y - rhs.y }
    }
}

impl vstd::std_specs::ops::SubSpecImpl for Coordinate {
    open spec fn obeys_sub_spec() -> bool {
        true
    }

    open spec fn sub_req(self, rhs: Coordinate) -> bool {
        fits_i32(self.x - rhs.x) && fits_i32(self.y - rhs.y)
    }

    open spec fn sub_spec(self, rhs: Coordinate) -> Vector {
        self.spec_displacement_from(rhs)
    }
}

impl std::ops::Add<Vector> for Coordinate {
    type Output = Coordinate;

    /// This point moved by `rhs`.
    fn add(self, rhs: Vector) -> (r: Coordinate)
        ensures
            r.x == self.x + rhs.x,
            r.y == self.y + rhs.y,
    {
        Coordinate { x: self.x + rhs.x, y: self.y + rhs.y }
    }
}

impl vstd::std_specs::ops::AddSpecImpl<Vector> for Coordinate {
    open spec fn obeys_add_spec() -> bool {
        true
    }

    open spec fn add_req(self, rhs: Vector) -> bool {
        fits_i32(self.x + rhs.x) && fits_i32(self.y + rhs.y)
    }

    open spec fn add_spec(self, rhs: Vector) -> Coordinate {
        self.spec_moved_by(rhs)
    }
}

impl<'a> std::ops::Add<&'a Vector> for Coordinate {
    type Output = Coordinate;

    /// This point moved by `rhs`.
    fn add(self, rhs: &'a Vector) -> (r: Coordinate)
        ensures
            r.x == self.x + rhs.x,
            r.y == self.y + rhs.y,
    {
        Coordinate { x: self.x + rhs.x, y: self.y + rhs.y }
    }
}

impl<'a> vstd::std_specs::ops::AddSpecImpl<&'a Vector> for Coordinate {
    open spec fn obeys_add_spec() -> bool {
        true
    }

    open spec fn add_req(self, rhs: &'a Vector) -> bool {
        fits_i32(self.x + rhs.x) && fits_i32(self.y + rhs.y)
    }

    open spec fn add_spec(self, rhs: &'a Vector) -> Coordinate {
        self.spec_moved_by(*rhs)
    }
}

impl std::ops::AddAssign<Vector> for Coordinate {
    /// Moves this point by `rhs`.
    fn add_assign(&mut self, rhs: Vector)
        requires
            fits_i32(old(self).x + rhs.x),
            fits_i32(old(self).y + rhs.y),
        ensures
            final(self).x == old(self).x + rhs.x,
            final(self).y == old(self).y + rhs.y,
    {
        *self = Coordinate { x: self.x + rhs.x, y: self.y + rhs.y };
    }
}

impl<'a> std::ops::AddAssign<&'a Vector> for Coordinate {
    /// Moves this point by `rhs`.
    fn add_assign(&mut self, rhs: &'a Vector)
        requires
            fits_i32(old(self).x + rhs.x),
            fits_i32(old(self).y + rhs.y),
        ensures
            final(self).x == old(self).x + rhs.x,
            final(self).y == old(self).y + rhs.y,
    {
        *self = Coordinate { x: self.x + rhs.x, y: self.y + rhs.y };
    }
}

impl std::ops::Sub<Vector> for Coordinate {
    type Output = Coordinate;

    /// This point moved against `rhs`.
    fn sub(self, rhs: Vector) -> (r: Coordinate)
        ensures
            r.x == self.x - rhs.x,
            r.y == self.y - rhs.y,
    {
        Coordinate { x: self.x - rhs.x, y: self.y - rhs.y }
    }
}

impl vstd::std_specs::ops::SubSpecImpl<Vector> for Coordinate {
    open spec fn obeys_sub_spec() -> bool {
        true
    }

    open spec fn sub_req(self, rhs: Vector) -> bool {
        fits_i32(self.x - rhs.x) && fits_i32(self.y - rhs.y)
    }

    open spec fn sub_spec(self, rhs: Vector) -> Coordinate {
        Coordinate { x: (self.x - rhs.x) as i32, y: (self.y - rhs.y) as i32 }
    }
}

impl<'a> std::ops::Sub<&'a Vector> for Coordinate {
    type Output = Coordinate;

    /// This point moved against `rhs`.
    fn sub(self, rhs: &'a Vector) -> (r: Coordinate)
        ensures
            r.x == self.x - rhs.x,
            r.y == self.y - rhs.y,
    {
        Coordinate { x: self.x - rhs.x, y: self.y - rhs.y }
    }
}

impl<'a> vstd::std_specs::ops::SubSpecImpl<&'a Vector> for Coordinate {
    open spec fn obeys_sub_spec() -> bool {
        true
    }

    open spec fn sub_req(self, rhs: &'a Vector) -> bool {
        fits_i32(self.x - rhs.x) && fits_i32(self.y - rhs.y)
    }

    open spec fn sub_spec(self, rhs: &'a Vector) -> Coordinate {
        Coordinate { x: (self.x - rhs.x) as i32, y: (self.y - rhs.y) as i32 }
    }
}

impl std::ops::SubAssign<Vector> for Coordinate {
    /// Moves this point against `rhs`.
    fn sub_assign(&mut self, rhs: Vector)
        requires
            fits_i32(old(self).x - rhs.x),
            fits_i32(old(self).y - rhs.y),
        ensures
            final(self).x == old(self).x - rhs.x,
            final(self).y == old(self).y - rhs.y,
    {
        *self = Coordinate { x: self.x - rhs.x, y: self.y - rhs.y };
    }
}

impl<'a> std::ops::SubAssign<&'a Vector> for Coordinate {
    /// Moves this point against `rhs`.
    fn sub_assign(&mut self, rhs: &'a Vector)
        requires
            fits_i32(old(self).x - rhs.x),
            fits_i32(old(self).y - rhs.y),
        ensures
            final(self).x == old(self).x - rhs.x,
            final(self).y == old(self).y - rhs.y,
    {
        *self = Coordinate { x: self.x - rhs.x, y: self.y - rhs.y };
    }
}

impl From<Vector> for Coordinate {
    /// The point reached by moving the origin by `v`.
    fn from(v: Vector) -> (r: Coordinate)
        ensures
            r.x == v.x,
            r.y == v.y,
    {
        Coordinate { x: v.x, y: v.y }
    }
}

impl vstd::std_specs::convert::FromSpecImpl<Vector> for Coordinate {
    open spec fn obeys_from_spec() -> bool {
        true
    }

    open spec fn from_spec(v: Vector) -> Coordinate {
        Coordinate { x: v.x, y: v.y }
    }
}

} // verus!
