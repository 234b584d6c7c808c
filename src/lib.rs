//! A two-dimensional gravity simulation: integer positions and velocities,
//! bodies that attract, bodies that move, and the tick that advances a world.

pub mod bodies;
pub mod directions;
pub mod physics;
pub mod world;

pub use bodies::{
    Asteroid, Circle, CircularGravitySource, CursedPlanet, Emitter, GravitySource, GravityType, IntoCircle,
    ObjectType, Planet, Position,
};
pub use physics::{apply_physics, get_distance, PhysicsFault};
pub use world::{render, tick};
