//! The world sequencer: one tick of a whole world, and the frame that draws
//! it.
//!
//! A world is an ordered list of bodies. A tick splits it into its planets,
//! which attract, and its asteroids, which move; runs the physics; and puts
//! each moved asteroid back in its own slot. A tick either completes or leaves
//! the world as it was.

use crate::bodies::{Asteroid, Circle, ObjectType, Planet};
use crate::directions::coordinate::Coordinate;
use crate::physics::{advance, apply_physics, physics_step, snapshot, PhysicsFault};
use vstd::prelude::*;

verus! {

/// The planets of a world, in world order.
pub open spec fn planets_of(world: Seq<ObjectType>) -> Seq<Planet>
    decreases world.len(),
{
    if world.len() == 0 {
        Seq::empty()
    } else {
        match world.last() {
            ObjectType::Planet(p) => planets_of(world.drop_last()).push(p),
            ObjectType::Asteroid(_) => planets_of(world.drop_last()),
        }
    }
}

/// The asteroids of a world, in world order.
pub open spec fn asteroids_of(world: Seq<ObjectType>) -> Seq<Asteroid>
    decreases world.len(),
{
    if world.len() == 0 {
        Seq::empty()
    } else {
        match world.last() {
            ObjectType::Planet(_) => asteroids_of(world.drop_last()),
            ObjectType::Asteroid(a) => asteroids_of(world.drop_last()).push(a),
        }
    }
}

/// The world after one tick with gravitational constant `g`, or the fault
/// that stops the tick. Planets stay as they are; each asteroid takes the
/// pull of every planet and moves, in its own slot.
pub open spec fn world_step(world: Seq<ObjectType>, g: i32) -> Result<Seq<ObjectType>, PhysicsFault> {
    let sources = snapshot(planets_of(world));
    match physics_step(asteroids_of(world), sources, g) {
        Err(e) => Err(e),
        Ok(_) => Ok(world.map_values(|o: ObjectType| step_object(o, sources, g))),
    }
}

/// One body after a tick among `sources`: a planet stays, an asteroid
/// advances.
pub open spec fn step_object(o: ObjectType, sources: Seq<(Coordinate, i32)>, g: i32) -> ObjectType {
    match o {
        ObjectType::Planet(p) => ObjectType::Planet(p),
        ObjectType::Asteroid(a) => ObjectType::Asteroid(advance(a, sources, g)->Some_0),
    }
}

/// The asteroids alone after `n` physics steps among the fixed `sources`;
/// the first fault stops the run.
pub open spec fn repeat_physics(
    mobiles: Seq<Asteroid>,
    sources: Seq<(Coordinate, i32)>,
    g: i32,
    n: nat,
) -> Result<Seq<Asteroid>, PhysicsFault>
    decreases n,
{
    if n == 0 {
        Ok(mobiles)
    } else {
        match repeat_physics(mobiles, sources, g, (n - 1) as nat) {
            Ok(m) => physics_step(m, sources, g),
            Err(e) => Err(e),
        }
    }
}

/// Stepping every body of a world keeps its planets and advances its
/// asteroids, each in order.
proof fn lemma_step_parts(world: Seq<ObjectType>, sources: Seq<(Coordinate, i32)>, g: i32)
    ensures
        planets_of(world.map_values(|o: ObjectType| step_object(o, sources, g))) == planets_of(world),
        asteroids_of(world.map_values(|o: ObjectType| step_object(o, sources, g)))
            == asteroids_of(world).map_values(|a: Asteroid| advance(a, sources, g)->Some_0),
    decreases world.len(),
{
    let stepped = world.map_values(|o: ObjectType| step_object(o, sources, g));
    if world.len() == 0 {
        assert(asteroids_of(world).map_values(|a: Asteroid| advance(a, sources, g)->Some_0)
            =~= Seq::<Asteroid>::empty());
    } else {
        lemma_step_parts(world.drop_last(), sources, g);
        assert(stepped.drop_last() =~= world.drop_last().map_values(
            |o: ObjectType| step_object(o, sources, g),
        ));
        let rest = asteroids_of(world.drop_last());
        match world.last() {
            ObjectType::Planet(_) => {},
            ObjectType::Asteroid(a) => {
                assert(rest.push(a).map_values(|b: Asteroid| advance(b, sources, g)->Some_0)
                    =~= rest.map_values(|b: Asteroid| advance(b, sources, g)->Some_0).push(
                    advance(a, sources, g)->Some_0,
                ));
            },
        }
    }
}

/// Running a world for `n` ticks runs its asteroids through `n` physics
/// steps among its planets, which never change: the run faults exactly as
/// the repeated physics step does, and otherwise every planet keeps its
/// slot, every asteroid slot still holds an asteroid, and the asteroids, in
/// world order, are the result of the repeated physics step.
pub proof fn lemma_ticks_fold_physics(world: Seq<ObjectType>, g: i32, n: nat)
    ensures
        match simulate(world, g, n) {
            Ok(w) => Ok(asteroids_of(w)),
            Err(e) => Err(e),
        } == repeat_physics(asteroids_of(world), snapshot(planets_of(world)), g, n),
        simulate(world, g, n) is Ok ==> {
            let w = simulate(world, g, n)->Ok_0;
            &&& w.len() == world.len()
            &&& planets_of(w) == planets_of(world)
            &&& forall|i: int|
                0 <= i < world.len() ==> {
                    &&& (world[i] is Planet ==> #[trigger] w[i] == world[i])
                    &&& (world[i] is Asteroid ==> w[i] is Asteroid)
                }
        },
    decreases n,
{
    if n > 0 {
        let m = (n - 1) as nat;
        lemma_ticks_fold_physics(world, g, m);
        if simulate(world, g, m) is Ok {
            let prev = simulate(world, g, m)->Ok_0;
            let sources = snapshot(planets_of(prev));
            lemma_step_parts(prev, sources, g);
            if physics_step(asteroids_of(prev), sources, g) is Ok {
                let next = prev.map_values(|o: ObjectType| step_object(o, sources, g));
                assert(simulate(world, g, n) == Ok::<Seq<ObjectType>, PhysicsFault>(next));
                assert forall|i: int| 0 <= i < world.len() implies {
                    &&& (world[i] is Planet ==> #[trigger] next[i] == world[i])
                    &&& (world[i] is Asteroid ==> next[i] is Asteroid)
                } by {
                    assert(next[i] == step_object(prev[i], sources, g));
                }
            }
        }
    }
}

/// The world after `n` ticks in a row, each on the world the one before
/// left; the first fault stops the run.
pub open spec fn simulate(world: Seq<ObjectType>, g: i32, n: nat) -> Result<Seq<ObjectType>, PhysicsFault>
    decreases n,
{
    if n == 0 {
        Ok(world)
    } else {
        match simulate(world, g, (n - 1) as nat) {
            Ok(w) => world_step(w, g),
            Err(e) => Err(e),
        }
    }
}

/// Whether `frame` draws `world`: one circle per body, in world order.
pub open spec fn draws(frame: Seq<Circle>, world: Seq<ObjectType>) -> bool {
    &&& frame.len() == world.len()
    &&& forall|i: int|
        0 <= i < world.len() ==> #[trigger] frame[i].depicts(world[i].spec_center(), world[i].spec_radius())
}

/// Running `n` ticks and then `m` more is running `n + m` ticks: the state
/// after any number of ticks is the fold of the single tick over the initial
/// state, and nothing else.
pub proof fn lemma_ticks_compose(world: Seq<ObjectType>, g: i32, n: nat, m: nat)
    ensures
        simulate(world, g, n + m) == match simulate(world, g, n) {
            Ok(w) => simulate(w, g, m),
            Err(e) => Err(e),
        },
    decreases m,
{
    if m > 0 {
        lemma_ticks_compose(world, g, n, (m - 1) as nat);
        assert((n + m - 1) as nat == n + (m - 1) as nat);
    }
}

/// The asteroids of a prefix of a world begin the asteroids of the world.
proof fn lemma_asteroids_prefix(world: Seq<ObjectType>, i: int)
    requires
        0 <= i <= world.len(),
    ensures
        asteroids_of(world.take(i)).len() <= asteroids_of(world).len(),
        forall|k: int|
            0 <= k < asteroids_of(world.take(i)).len() ==> #[trigger] asteroids_of(world.take(i))[k]
                == asteroids_of(world)[k],
    decreases world.len(),
{
    if i == world.len() {
        assert(world.take(i) =~= world);
    } else {
        assert(world.drop_last().take(i) =~= world.take(i));
        lemma_asteroids_prefix(world.drop_last(), i);
    }
}

/// The circles that draw `world`, one per body, in world order.
pub fn render(world: &Vec<ObjectType>) -> (frame: Vec<Circle>)
    ensures
        draws(frame@, world@),
{
    let mut frame: Vec<Circle> = Vec::new();
    let mut i: usize = 0;
    while i < world.len()
        invariant
            0 <= i <= world.len(),
            frame@.len() == i,
            forall|k: int|
                0 <= k < i ==> #[trigger] frame@[k].depicts(
                    world@[k].spec_center(),
                    world@[k].spec_radius(),
                ),
        decreases world.len() - i,
    {
        frame.push(world[i].get_circle());
        i = i + 1;
    }
    frame
}

/// Splits a world into its planets and its asteroids, each in world order.
fn partition(world: &Vec<ObjectType>) -> (r: (Vec<Planet>, Vec<Asteroid>))
    ensures
        r.0@ == planets_of(world@),
        r.1@ == asteroids_of(world@),
{
    let mut planets: Vec<Planet> = Vec::new();
    let mut asteroids: Vec<Asteroid> = Vec::new();
    let mut i: usize = 0;
    while i < world.len()
        invariant
            0 <= i <= world.len(),
            planets@ == planets_of(world@.take(i as int)),
            asteroids@ == asteroids_of(world@.take(i as int)),
        decreases world.len() - i,
    {
        assert(world@.take(i + 1).drop_last() =~= world@.take(i as int));
        match world[i] {
            ObjectType::Planet(p) => planets.push(p),
            ObjectType::Asteroid(a) => asteroids.push(a),
        }
        i = i + 1;
    }
    assert(world@.take(world.len() as int) =~= world@);
    (planets, asteroids)
}

/// Advances `world` by one tick with gravitational constant
/// `gravitational_constant`, and draws the world it was given.
///
/// On success, returns the new world, with the planets unchanged, each
/// asteroid moved in its own slot and the order kept, together with the
/// frame of the objects the tick was given: one circle per body, in world
/// order. On a fault, returns it, and the caller keeps the world it had.
pub fn tick(world: &Vec<ObjectType>, gravitational_constant: i32) -> (r: Result<
    (Vec<ObjectType>, Vec<Circle>),
    PhysicsFault,
>)
    ensures
        world_step(world@, gravitational_constant) == match r {
            Ok((next, _)) => Ok(next@),
            Err(e) => Err(e),
        },
        r is Ok ==> draws(r->Ok_0.1@, world@),
{
    let ghost g = gravitational_constant;
    let ghost sources = snapshot(planets_of(world@));
    let (planets, asteroids) = partition(world);
    let (_, moved) = match apply_physics(planets, asteroids, gravitational_constant) {
        Ok(pair) => pair,
        Err(e) => return Err(e),
    };
    proof {
        assert(moved@.len() == asteroids_of(world@).len());
    }
    let n_moved = moved.len();
    let mut next: Vec<ObjectType> = Vec::new();
    let mut i: usize = 0;
    let mut k: usize = 0;
    while i < world.len()
        invariant
            0 <= i <= world.len(),
            physics_step(asteroids_of(world@), sources, g) == Ok::<Seq<Asteroid>, PhysicsFault>(
                moved@,
            ),
            moved@.len() == asteroids_of(world@).len(),
            n_moved == moved@.len(),
            k == asteroids_of(world@.take(i as int)).len(),
            next@.len() == i,
            forall|j: int|
                0 <= j < i ==> #[trigger] next@[j] == step_object(world@[j], sources, g),
        decreases world.len() - i,
    {
        assert(world@.take(i + 1).drop_last() =~= world@.take(i as int));
        proof {
            lemma_asteroids_prefix(world@, i + 1);
        }
        match world[i] {
            ObjectType::Planet(p) => next.push(ObjectType::Planet(p)),
            ObjectType::Asteroid(_) => {
                assert(asteroids_of(world@.take(i + 1))[k as int] == asteroids_of(world@)[k as int]);
                next.push(ObjectType::Asteroid(moved[k]));
                assert(k < n_moved);
                k = k + 1;
            },
        }
        i = i + 1;
    }
    assert(next@ =~= world@.map_values(|o: ObjectType| step_object(o, sources, g)));
    let frame = render(world);
    Ok((next, frame))
}

} // verus!
