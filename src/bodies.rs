//! The bodies of the simulation and the capabilities they offer: a position,
//! a gravitational weight, and a circle to draw.

use crate::directions::coordinate::Coordinate;
use crate::directions::direction::{fits_i32, Vector};
use vstd::prelude::*;
use vstd::string::StringExecFns;

verus! {

/// The radius with which bodies other than planets are drawn.
pub const MARKER_RADIUS: i32 = 2;

/// The width of every circle's outline.
pub const STROKE_WIDTH: i32 = 3;

/// A circle to draw: centre, radius, outline and fill colours, outline width.
#[derive(Debug, Clone)]
pub struct Circle {
    pub cx: i32,
    pub cy: i32,
    pub r: i32,
    pub stroke: String,
    pub fill: String,
    pub stroke_width: i32,
}

impl Circle {
    /// Whether this is the circle drawn for a body at `center` with radius
    /// `radius`: green outline of width 3, black fill.
    pub open spec fn depicts(self, center: Coordinate, radius: i32) -> bool {
        &&& self.cx == center.x
        &&& self.cy == center.y
        &&& self.r == radius
        &&& self.stroke@ == "green"@
        &&& self.fill@ == "black"@
        &&& self.stroke_width == STROKE_WIDTH
    }

    /// The circle drawn for a body at `center` with radius `radius`.
    fn outline(center: Coordinate, radius: i32) -> (c: Circle)
        ensures
            c.depicts(center, radius),
    {
        Circle {
            cx: center.x,
            cy: center.y,
            r: radius,
            stroke: String::from_str("green"),
            fill: String::from_str("black"),
            stroke_width: STROKE_WIDTH,
        }
    }
}

/// Something with a place in the plane.
pub trait Position {
    /// Where it is.
    spec fn spec_position(&self) -> Coordinate;

    fn get_position(&self) -> (r: Coordinate)
        ensures
            r == self.spec_position(),
    ;
}

/// Something that attracts mobile bodies.
pub trait GravitySource: Position {
    /// Its gravitational weight for the current tick.
    spec fn spec_weight(&self) -> i32;

    fn get_weight(&self) -> (r: i32)
        ensures
            r == self.spec_weight(),
    ;
}

/// Something that can be drawn as a circle.
pub trait IntoCircle {
    /// The centre of its circle.
    spec fn spec_center(&self) -> Coordinate;

    /// The radius of its circle.
    spec fn spec_radius(&self) -> i32;

    fn as_circle(&self) -> (c: Circle)
        ensures
            c.depicts(self.spec_center(), self.spec_radius()),
    ;
}

/// A gravity source that can also be drawn: what the physics step accepts as
/// an attracting body.
pub trait CircularGravitySource: GravitySource + IntoCircle {

}

/// A stationary body whose weight is both its gravitational mass and the
/// radius it is drawn with.
#[derive(Debug, Clone, Copy, PartialEq, Eq, Structural)]
pub struct Planet {
    pub coordinate: Coordinate,
    pub weight: i32,
}

impl Planet {
    pub fn get_location(&self) -> (r: Coordinate)
        ensures
            r == self.coordinate,
    {
        self.coordinate
    }

    pub fn get_weight(&self) -> (r: i32)
        ensures
            r == self.weight,
    {
        self.weight
    }
}

impl Position for Planet {
    open spec fn spec_position(&self) -> Coordinate {
        self.coordinate
    }

    fn get_position(&self) -> (r: Coordinate) {
        self.get_location()
    }
}

impl GravitySource for Planet {
    open spec fn spec_weight(&self) -> i32 {
        self.weight
    }

    fn get_weight(&self) -> (r: i32) {
        self.weight
    }
}

impl IntoCircle for Planet {
    open spec fn spec_center(&self) -> Coordinate {
        self.coordinate
    }

    open spec fn spec_radius(&self) -> i32 {
        self.weight
    }

    fn as_circle(&self) -> (c: Circle) {
        Circle::outline(self.coordinate, self.weight)
    }
}

impl CircularGravitySource for Planet {

}

/// A mobile body: gravity changes its velocity, and its velocity its place.
#[derive(Debug, Clone, Copy, PartialEq, Eq, Structural)]
pub struct Asteroid {
    pub coordinate: Coordinate,
    pub velocity: Vector,
}

impl Asteroid {
    pub fn get_location(&self) -> (r: Coordinate)
        ensures
            r == self.coordinate,
    {
        self.coordinate
    }

    pub fn get_velocity(&self) -> (r: Vector)
        ensures
            r == self.velocity,
    {
        self.velocity
    }
}

impl Position for Asteroid {
    open spec fn spec_position(&self) -> Coordinate {
        self.coordinate
    }

    fn get_position(&self) -> (r: Coordinate) {
        self.get_location()
    }
}

impl IntoCircle for Asteroid {
    open spec fn spec_center(&self) -> Coordinate {
        self.coordinate
    }

    open spec fn spec_radius(&self) -> i32 {
        MARKER_RADIUS
    }

    fn as_circle(&self) -> (c: Circle) {
        Circle::outline(self.coordinate, MARKER_RADIUS)
    }
}

/// The strength of a cursed planet's gravity.
#[derive(Debug, Clone, Copy, PartialEq, Eq, Structural)]
pub enum GravityType {
    High,
    Low,
}

/// The factor by which a gravity type multiplies a weight.
pub open spec fn multiplier(g: GravityType) -> int {
    match g {
        GravityType::High => 2,
        GravityType::Low => 1,
    }
}

impl From<GravityType> for i32 {
    /// 2 for high gravity, 1 for low.
    fn from(g_type: GravityType) -> (r: i32)
        ensures
            r == multiplier(g_type),
    {
        match g_type {
            GravityType::High => 2,
            GravityType::Low => 1,
        }
    }
}

impl vstd::std_specs::convert::FromSpecImpl<GravityType> for i32 {
    open spec fn obeys_from_spec() -> bool {
        true
    }

    open spec fn from_spec(g_type: GravityType) -> i32 {
        multiplier(g_type) as i32
    }
}

/// A stationary body whose effective weight is its base weight times the
/// multiplier of its gravity state. The state is fixed when the planet is
/// made, so the effective weight is the same on every tick.
#[derive(Debug, Clone, Copy)]
pub struct CursedPlanet {
    previous_state: GravityType,
    weight: i32,
    coordinate: Coordinate,
}

impl CursedPlanet {
    /// The effective weight fits in an `i32`.
    #[verifier::type_invariant]
    spec fn inv(self) -> bool {
        fits_i32(self.weight * multiplier(self.previous_state))
    }

    /// Its gravity state.
    pub closed spec fn spec_state(self) -> GravityType {
        self.previous_state
    }

    /// Its weight before the multiplier.
    pub closed spec fn spec_base_weight(self) -> i32 {
        self.weight
    }

    /// Where it stands.
    pub closed spec fn spec_coordinate(self) -> Coordinate {
        self.coordinate
    }

    /// A cursed planet at `coordinate` with base weight `weight` in gravity
    /// state `state`; the effective weight must fit in an `i32`.
    pub fn new(state: GravityType, weight: i32, coordinate: Coordinate) -> (r: CursedPlanet)
        requires
            fits_i32(weight * multiplier(state)),
        ensures
            r.spec_state() == state,
            r.spec_base_weight() == weight,
            r.spec_coordinate() == coordinate,
    {
        CursedPlanet { previous_state: state, weight, coordinate }
    }
}

impl Position for CursedPlanet {
    open spec fn spec_position(&self) -> Coordinate {
        self.spec_coordinate()
    }

    fn get_position(&self) -> (r: Coordinate) {
        self.coordinate
    }
}

impl GravitySource for CursedPlanet {
    open spec fn spec_weight(&self) -> i32 {
        (self.spec_base_weight() * multiplier(self.spec_state())) as i32
    }

    fn get_weight(&self) -> (r: i32) {
        proof {
            use_type_invariant(self);
        }
        i32::from(self.previous_state) * self.weight
    }
}

impl IntoCircle for CursedPlanet {
    open spec fn spec_center(&self) -> Coordinate {
        self.spec_coordinate()
    }

    open spec fn spec_radius(&self) -> i32 {
        MARKER_RADIUS
    }

    fn as_circle(&self) -> (c: Circle) {
        Circle::outline(self.coordinate, MARKER_RADIUS)
    }
}

impl CircularGravitySource for CursedPlanet {

}

/// An attracting body of either kind, so that one physics step can take
/// planets and cursed planets together.
#[derive(Debug, Clone, Copy)]
pub enum Emitter {
    Planet(Planet),
    Cursed(CursedPlanet),
}

impl Position for Emitter {
    open spec fn spec_position(&self) -> Coordinate {
        match self {
            Emitter::Planet(p) => p.spec_position(),
            Emitter::Cursed(c) => c.spec_position(),
        }
    }

    fn get_position(&self) -> (r: Coordinate) {
        match self {
            Emitter::Planet(p) => p.get_position(),
            Emitter::Cursed(c) => c.get_position(),
        }
    }
}

impl GravitySource for Emitter {
    open spec fn spec_weight(&self) -> i32 {
        match self {
            Emitter::Planet(p) => p.spec_weight(),
            Emitter::Cursed(c) => c.spec_weight(),
        }
    }

    fn get_weight(&self) -> (r: i32) {
        match self {
            Emitter::Planet(p) => GravitySource::get_weight(p),
            Emitter::Cursed(c) => c.get_weight(),
        }
    }
}

impl IntoCircle for Emitter {
    open spec fn spec_center(&self) -> Coordinate {
        match self {
            Emitter::Planet(p) => p.spec_center(),
            Emitter::Cursed(c) => c.spec_center(),
        }
    }

    open spec fn spec_radius(&self) -> i32 {
        match self {
            Emitter::Planet(p) => p.spec_radius(),
            Emitter::Cursed(c) => c.spec_radius(),
        }
    }

    fn as_circle(&self) -> (c: Circle) {
        match self {
            Emitter::Planet(p) => p.as_circle(),
            Emitter::Cursed(k) => k.as_circle(),
        }
    }
}

impl CircularGravitySource for Emitter {

}

/// A body of the world: a planet or an asteroid.
#[derive(Debug, Clone, Copy, PartialEq, Eq, Structural)]
pub enum ObjectType {
    Planet(Planet),
    Asteroid(Asteroid),
}

impl ObjectType {
    /// The centre of the body's circle.
    pub open spec fn spec_center(self) -> Coordinate {
        match self {
            ObjectType::Planet(p) => p.coordinate,
            ObjectType::Asteroid(a) => a.coordinate,
        }
    }

    /// The radius of the body's circle: a planet's weight, or the marker
    /// radius for an asteroid.
    pub open spec fn spec_radius(self) -> i32 {
        match self {
            ObjectType::Planet(p) => p.weight,
            ObjectType::Asteroid(_) => MARKER_RADIUS,
        }
    }

    /// The circle that draws this body.
    pub fn get_circle(&self) -> (c: Circle)
        ensures
            c.depicts(self.spec_center(), self.spec_radius()),
    {
        match self {
            ObjectType::Planet(p) => p.as_circle(),
            ObjectType::Asteroid(a) => a.as_circle(),
        }
    }
}

} // verus!
