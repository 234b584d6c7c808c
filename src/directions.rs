//! Integer positions and displacements in the plane.

pub mod direction;
pub mod coordinate;
