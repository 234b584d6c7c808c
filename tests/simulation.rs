use simulator_lib::directions::coordinate::Coordinate;
use simulator_lib::directions::direction::{CardinalDirection, Vector};
use simulator_lib::{
    apply_physics, get_distance, render, tick, Asteroid, Circle, CursedPlanet, Emitter, GravitySource,
    GravityType, IntoCircle, ObjectType, PhysicsFault, Planet, Position,
};

fn asteroid(x: i32, y: i32, vx: i32, vy: i32) -> Asteroid {
    Asteroid { coordinate: Coordinate::new(x, y), velocity: Vector::new(vx, vy) }
}

fn planet(x: i32, y: i32, weight: i32) -> Planet {
    Planet { coordinate: Coordinate::new(x, y), weight }
}

fn default_world() -> Vec<ObjectType> {
    vec![
        ObjectType::Planet(planet(500, 500, 50)),
        ObjectType::Asteroid(asteroid(250, 250, 30, -10)),
        ObjectType::Asteroid(asteroid(750, 750, -30, 10)),
    ]
}

fn assert_circle(c: &Circle, cx: i32, cy: i32, r: i32) {
    assert_eq!(c.cx, cx);
    assert_eq!(c.cy, cy);
    assert_eq!(c.r, r);
    assert_eq!(c.stroke, "green");
    assert_eq!(c.fill, "black");
    assert_eq!(c.stroke_width, 3);
}

#[test]
fn vector_new_holds_components() {
    let v = Vector::new(3, 4);
    assert_eq!(v.x, 3);
    assert_eq!(v.y, 4);
}

#[test]
fn vector_magnitude_of_three_four_is_five() {
    let v = Vector::new(3, 4);
    assert_eq!(v.squared_magnitude(), 25);
    assert_eq!((v.squared_magnitude() as f64).sqrt(), 5.0);
}

#[test]
fn vector_squared_magnitude_of_extremes() {
    let v = Vector::new(i32::MIN, i32::MIN);
    assert_eq!(v.squared_magnitude(), 2 * (1u64 << 62));
}

#[test]
fn coordinate_scalar_difference_is_five() {
    let c1 = Coordinate::new(4, 5);
    let c2 = Coordinate::new(1, 1);
    let d = &c1 - &c2;
    assert_eq!(d, Vector::new(3, 4));
    assert_eq!((d.squared_magnitude() as f64).sqrt(), 5.0);
}

#[test]
fn vector_arithmetic() {
    let a = Vector::new(1, -2);
    let b = Vector::new(10, 20);
    assert_eq!(a + b, Vector::new(11, 18));
    assert_eq!(&a + &b, Vector::new(11, 18));
    assert_eq!(a - b, Vector::new(-9, -22));
    assert_eq!(&a - &b, Vector::new(-9, -22));
    assert_eq!(b * 3, Vector::new(30, 60));
    let mut c = a;
    c += b;
    assert_eq!(c, Vector::new(11, 18));
    c -= b;
    assert_eq!(c, a);
    c *= -4;
    assert_eq!(c, Vector::new(-4, 8));
}

#[test]
fn coordinate_arithmetic() {
    let p = Coordinate::new(5, 7);
    let v = Vector::new(2, -3);
    assert_eq!(p + v, Coordinate::new(7, 4));
    assert_eq!(p + &v, Coordinate::new(7, 4));
    assert_eq!(p - v, Coordinate::new(3, 10));
    assert_eq!(p - &v, Coordinate::new(3, 10));
    assert_eq!(p - Coordinate::new(1, 1), Vector::new(4, 6));
    let mut q = p;
    q += v;
    assert_eq!(q, Coordinate::new(7, 4));
    q += &v;
    assert_eq!(q, Coordinate::new(9, 1));
    q -= v;
    assert_eq!(q, Coordinate::new(7, 4));
    q -= &v;
    assert_eq!(q, p);
}

#[test]
fn coordinate_default_and_from_vector() {
    assert_eq!(Coordinate::default(), Coordinate::new(0, 0));
    assert_eq!(Coordinate::from(Vector::new(-3, 8)), Coordinate::new(-3, 8));
}

#[test]
fn coordinate_difference_round_trips() {
    let pairs = [
        (Coordinate::new(4, 5), Coordinate::new(1, 1)),
        (Coordinate::new(-7, 3), Coordinate::new(12, -40)),
        (Coordinate::new(0, 0), Coordinate::new(0, 0)),
        (Coordinate::new(i32::MAX, i32::MIN), Coordinate::new(0, 0)),
    ];
    for (a, b) in pairs {
        assert_eq!(b + (a - b), a);
    }
}

#[test]
fn in_rectangle_top_left_bottom_right() {
    let top_left = Coordinate::new(1, 1);
    let bottom_right = Coordinate::new(5, 5);
    assert!(Coordinate::new(1, 1).in_rectangle(&top_left, &bottom_right));
    assert!(Coordinate::new(1, 5).in_rectangle(&top_left, &bottom_right));
    assert!(Coordinate::new(3, 3).in_rectangle(&top_left, &bottom_right));
    assert!(Coordinate::new(5, 5).in_rectangle(&top_left, &bottom_right));
    assert!(!Coordinate::new(0, 3).in_rectangle(&top_left, &bottom_right));
    assert!(!Coordinate::new(3, 6).in_rectangle(&top_left, &bottom_right));
}

#[test]
fn in_rectangle_bottom_left_top_right() {
    let bottom_left = Coordinate::new(1, 5);
    let top_right = Coordinate::new(5, 1);
    assert!(Coordinate::new(1, 1).in_rectangle(&bottom_left, &top_right));
    assert!(Coordinate::new(1, 5).in_rectangle(&bottom_left, &top_right));
    assert!(Coordinate::new(3, 3).in_rectangle(&bottom_left, &top_right));
    assert!(Coordinate::new(5, 5).in_rectangle(&bottom_left, &top_right));
    assert!(!Coordinate::new(6, 3).in_rectangle(&bottom_left, &top_right));
}

#[test]
fn in_rectangle_corner_swap_and_own_corner() {
    let a = Coordinate::new(-4, 9);
    let b = Coordinate::new(6, -2);
    for p in [Coordinate::new(0, 0), Coordinate::new(7, 0), Coordinate::new(-4, -2), Coordinate::new(6, 10)] {
        assert_eq!(p.in_rectangle(&a, &b), p.in_rectangle(&b, &a));
    }
    assert!(a.in_rectangle(&a, &b));
    assert!(b.in_rectangle(&a, &b));
}

#[test]
fn distance_rounds_down() {
    assert_eq!(get_distance(0, 0, 3, 4), 5);
    assert_eq!(get_distance(3, 4, 0, 0), 5);
    assert_eq!(get_distance(0, 0, 2, 3), 3);
    assert_eq!(get_distance(500, 500, 250, 250), 353);
    assert_eq!(get_distance(7, 7, 7, 7), 0);
    assert_eq!(get_distance(0, 0, 46340, 0), 46340);
}

#[test]
fn gravity_type_multipliers() {
    assert_eq!(i32::from(GravityType::High), 2);
    assert_eq!(i32::from(GravityType::Low), 1);
}

#[test]
fn planet_capabilities() {
    let p = planet(3, 4, 17);
    assert_eq!(p.get_location(), Coordinate::new(3, 4));
    assert_eq!(Planet::get_weight(&p), 17);
    assert_eq!(GravitySource::get_weight(&p), 17);
    assert_eq!(p.get_position(), Coordinate::new(3, 4));
    assert_circle(&p.as_circle(), 3, 4, 17);
}

#[test]
fn asteroid_capabilities() {
    let a = asteroid(-3, 8, 1, 2);
    assert_eq!(a.get_location(), Coordinate::new(-3, 8));
    assert_eq!(a.get_velocity(), Vector::new(1, 2));
    assert_eq!(a.get_position(), Coordinate::new(-3, 8));
    assert_circle(&a.as_circle(), -3, 8, 2);
}

#[test]
fn cursed_planet_weight_is_multiplied() {
    let high = CursedPlanet::new(GravityType::High, 10, Coordinate::new(1, 2));
    let low = CursedPlanet::new(GravityType::Low, 10, Coordinate::new(1, 2));
    assert_eq!(high.get_weight(), 20);
    assert_eq!(high.get_weight(), 20);
    assert_eq!(low.get_weight(), 10);
    assert_eq!(high.get_position(), Coordinate::new(1, 2));
    assert_circle(&high.as_circle(), 1, 2, 2);
}

#[test]
fn object_circles() {
    assert_circle(&ObjectType::Planet(planet(1, 2, 40)).get_circle(), 1, 2, 40);
    assert_circle(&ObjectType::Asteroid(asteroid(5, 6, 0, 0)).get_circle(), 5, 6, 2);
}

#[test]
fn cardinal_directions_compare() {
    assert_eq!(CardinalDirection::North, CardinalDirection::North);
    assert_ne!(CardinalDirection::East, CardinalDirection::West);
    assert_ne!(CardinalDirection::South, CardinalDirection::North);
}

#[test]
fn single_source_pulls_toward_it() {
    let (sources, moved) =
        apply_physics(vec![planet(0, 0, 50)], vec![asteroid(10, 0, 0, 0)], 1).unwrap();
    assert_eq!(sources, vec![planet(0, 0, 50)]);
    assert_eq!(moved.len(), 1);
    assert_eq!(moved[0].velocity, Vector::new(-5, 0));
    assert!(moved[0].velocity.x < 0);
    assert_eq!(moved[0].coordinate, Coordinate::new(5, 0));
}

#[test]
fn weak_source_does_not_move_distant_asteroid() {
    let (_, moved) = apply_physics(vec![planet(0, 0, 5)], vec![asteroid(10, 0, 0, 0)], 1).unwrap();
    assert_eq!(moved[0], asteroid(10, 0, 0, 0));
}

#[test]
fn mirrored_sources_cancel_vertically() {
    let (_, moved) = apply_physics(
        vec![planet(5, 3, 20), planet(5, -3, 20)],
        vec![asteroid(0, 0, 0, 0)],
        1,
    )
    .unwrap();
    assert_eq!(moved[0].velocity, Vector::new(8, 0));
    assert_eq!(moved[0].coordinate, Coordinate::new(8, 0));
}

#[test]
fn no_sources_moves_by_velocity() {
    let (_, moved) =
        apply_physics(Vec::<Planet>::new(), vec![asteroid(1, 2, 3, -4), asteroid(0, 0, 0, 0)], 9)
            .unwrap();
    assert_eq!(moved, vec![asteroid(4, -2, 3, -4), asteroid(0, 0, 0, 0)]);
}

#[test]
fn cursed_planet_pulls_with_effective_weight() {
    let cursed = CursedPlanet::new(GravityType::High, 25, Coordinate::new(0, 0));
    let (_, moved) = apply_physics(vec![cursed], vec![asteroid(10, 0, 0, 0)], 1).unwrap();
    assert_eq!(moved[0].velocity, Vector::new(-5, 0));
}

#[test]
fn asteroid_on_source_divides_by_zero() {
    let r = apply_physics(vec![planet(3, 3, 10)], vec![asteroid(3, 3, 1, 1)], 1);
    assert_eq!(r.err(), Some(PhysicsFault::DivisionByZero));
}

#[test]
fn coincidence_reported_before_overflow() {
    let r = apply_physics(
        vec![planet(0, 0, i32::MAX), planet(3, 3, 1)],
        vec![asteroid(10, 0, 0, 0), asteroid(3, 3, 0, 0)],
        1,
    );
    assert_eq!(r.err(), Some(PhysicsFault::DivisionByZero));
}

#[test]
fn heavy_source_overflows() {
    let r = apply_physics(vec![planet(0, 0, i32::MAX)], vec![asteroid(10, 0, 0, 0)], 1);
    assert_eq!(r.err(), Some(PhysicsFault::Overflow));
}

#[test]
fn velocity_overflow_is_reported() {
    let r = apply_physics(vec![planet(0, 0, 50)], vec![asteroid(10, 0, i32::MIN, 0)], 1);
    assert_eq!(r.err(), Some(PhysicsFault::Overflow));
}

#[test]
fn position_overflow_is_reported() {
    let r = apply_physics(Vec::<Planet>::new(), vec![asteroid(i32::MAX, 0, 1, 0)], 1);
    assert_eq!(r.err(), Some(PhysicsFault::Overflow));
}

#[test]
fn default_world_frame_after_one_tick() {
    let world = default_world();
    let (next, frame) = tick(&world, 70).unwrap();
    assert_eq!(frame.len(), 3);
    assert_eq!(frame[0].r, 50);
    assert_eq!(frame[1].r, 2);
    assert_eq!(frame[2].r, 2);
    assert_circle(&frame[0], 500, 500, 50);
    assert_circle(&frame[1], 250, 250, 2);
    assert_circle(&frame[2], 750, 750, 2);
    assert_eq!(
        next,
        vec![
            ObjectType::Planet(planet(500, 500, 50)),
            ObjectType::Asteroid(asteroid(287, 247, 37, -3)),
            ObjectType::Asteroid(asteroid(713, 753, -37, 3)),
        ]
    );
}

#[test]
fn tick_keeps_order_and_planets() {
    let world = vec![
        ObjectType::Asteroid(asteroid(10, 0, 0, 0)),
        ObjectType::Planet(planet(0, 0, 50)),
        ObjectType::Asteroid(asteroid(0, 0, 1, 1)),
    ];
    assert_eq!(tick(&world, 1).err(), Some(PhysicsFault::DivisionByZero));
    let world = vec![
        ObjectType::Asteroid(asteroid(10, 0, 0, 0)),
        ObjectType::Planet(planet(0, 0, 50)),
        ObjectType::Asteroid(asteroid(-10, 0, 0, 0)),
    ];
    let (next, frame) = tick(&world, 1).unwrap();
    assert_eq!(
        next,
        vec![
            ObjectType::Asteroid(asteroid(5, 0, -5, 0)),
            ObjectType::Planet(planet(0, 0, 50)),
            ObjectType::Asteroid(asteroid(-5, 0, 5, 0)),
        ]
    );
    assert_circle(&frame[0], 10, 0, 2);
    assert_circle(&frame[1], 0, 0, 50);
    assert_circle(&frame[2], -10, 0, 2);
}

#[test]
fn ticks_are_reproducible() {
    let run = |n: usize| {
        let mut world = default_world();
        for _ in 0..n {
            world = tick(&world, 70).unwrap().0;
        }
        world
    };
    let first = run(5);
    let second = run(5);
    assert_eq!(first, second);
    let three = run(3);
    let mut two_more = three.clone();
    for _ in 0..2 {
        two_more = tick(&two_more, 70).unwrap().0;
    }
    assert_eq!(two_more, first);
    assert_ne!(first, default_world());
}

#[test]
fn render_draws_every_body() {
    let frame = render(&default_world());
    assert_eq!(frame.len(), 3);
    assert_circle(&frame[0], 500, 500, 50);
    assert_circle(&frame[1], 250, 250, 2);
    assert_circle(&frame[2], 750, 750, 2);
    assert!(render(&Vec::new()).is_empty());
}

#[test]
fn empty_world_ticks_to_empty() {
    let (next, frame) = tick(&Vec::new(), 70).unwrap();
    assert!(next.is_empty());
    assert!(frame.is_empty());
}

#[test]
fn frame_draws_the_world_given_to_the_tick() {
    let world = vec![ObjectType::Asteroid(asteroid(0, 0, 1, 0))];
    let (next, frame) = tick(&world, 70).unwrap();
    assert_eq!(next, vec![ObjectType::Asteroid(asteroid(1, 0, 1, 0))]);
    assert_circle(&frame[0], 0, 0, 2);
    let (_, second) = tick(&next, 70).unwrap();
    assert_circle(&second[0], 1, 0, 2);
}

#[test]
fn mixed_emitters_pull_together() {
    let sources = vec![
        Emitter::Planet(planet(0, 0, 50)),
        Emitter::Cursed(CursedPlanet::new(GravityType::High, 25, Coordinate::new(20, 0))),
    ];
    assert_eq!(sources[0].get_weight(), 50);
    assert_eq!(sources[1].get_weight(), 50);
    assert_eq!(sources[1].get_position(), Coordinate::new(20, 0));
    assert_circle(&sources[0].as_circle(), 0, 0, 50);
    assert_circle(&sources[1].as_circle(), 20, 0, 2);
    let (back, moved) = apply_physics(sources, vec![asteroid(10, 0, 0, 0), asteroid(10, 10, 0, 0)], 1)
        .unwrap();
    assert_eq!(back.len(), 2);
    assert_eq!(moved[0], asteroid(10, 0, 0, 0));
    assert_eq!(moved[1], asteroid(10, 6, 0, -4));
}
