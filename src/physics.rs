//! One tick of the physics: every gravity source pulls on every mobile body,
//! the pulls are summed into each body's velocity, and each body then moves by
//! its new velocity.
//!
//! The law of attraction works on integers throughout. The distance between
//! two bodies is the square root of the squared distance, rounded down, and
//! squared again; each pull component is the offset times weight times the
//! gravitational constant, divided by that squared distance with the quotient
//! truncated toward zero. Every intermediate value is an `i32`: a tick in which
//! one would not fit fails as a whole, as does a tick in which a mobile body
//! sits exactly on a source.

use crate::bodies::{Asteroid, CircularGravitySource, GravitySource, Position};
use crate::directions::coordinate::Coordinate;
use crate::directions::direction::{fits_i32, Vector};
use vstd::prelude::*;

verus! {

/// Why a tick could not be completed.
#[derive(Debug, Clone, Copy, PartialEq, Eq, Structural)]
pub enum PhysicsFault {
    /// A mobile body sits exactly on a gravity source, so the squared
    /// distance it would be divided by is zero.
    DivisionByZero,
    /// An intermediate value of the tick does not fit in an `i32`.
    Overflow,
}

/// The square root of `n`, rounded down.
pub open spec fn floor_sqrt(n: nat) -> nat
    decreases n,
{
    if n == 0 {
        0
    } else {
        let r = floor_sqrt((n - 1) as nat);
        if (r + 1) * (r + 1) <= n {
            r + 1
        } else {
            r
        }
    }
}

/// `floor_sqrt(n)` is the one natural number whose square is at most `n` and
/// whose successor's square exceeds it.
pub proof fn lemma_floor_sqrt_bounds(n: nat)
    ensures
        floor_sqrt(n) * floor_sqrt(n) <= n,
        n < (floor_sqrt(n) + 1) * (floor_sqrt(n) + 1),
    decreases n,
{
    if n > 0 {
        lemma_floor_sqrt_bounds((n - 1) as nat);
        let r = floor_sqrt((n - 1) as nat);
        if (r + 1) * (r + 1) > n {
            assert(floor_sqrt(n) == r);
            assert(r * r <= n);
        } else {
            assert(floor_sqrt(n) == r + 1);
            assert((r + 1) * (r + 1) == n) by (nonlinear_arith)
                requires
                    (r + 1) * (r + 1) <= n,
                    n - 1 < (r + 1) * (r + 1),
            ;
            assert(n < (r + 2) * (r + 2)) by (nonlinear_arith)
                requires
                    (r + 1) * (r + 1) == n,
                    r >= 0,
            ;
        }
    } else {
        assert(floor_sqrt(0) == 0);
        assert(0 * 0 == 0 && 1 * 1 == 1) by (nonlinear_arith);
    }
}

/// Any natural number between the square bounds is `floor_sqrt(n)`.
pub proof fn lemma_floor_sqrt_unique(n: nat, r: nat)
    requires
        r * r <= n,
        n < (r + 1) * (r + 1),
    ensures
        floor_sqrt(n) == r,
{
    lemma_floor_sqrt_bounds(n);
    let s = floor_sqrt(n);
    if s < r {
        assert((s + 1) * (s + 1) <= r * r) by (nonlinear_arith)
            requires
                s + 1 <= r,
                s >= 0,
        ;
    } else if r < s {
        assert((r + 1) * (r + 1) <= s * s) by (nonlinear_arith)
            requires
                r + 1 <= s,
                r >= 0,
        ;
    }
}

/// `a / b` with the quotient truncated toward zero, for `b > 0`.
pub open spec fn trunc_div(a: int, b: int) -> int {
    if a >= 0 {
        a / b
    } else {
        -((-a) / b)
    }
}

/// The squared distance that the law divides by: the distance from `s` to `m`
/// rounded down to an integer, then squared.
pub open spec fn rounded_square_distance(m: Coordinate, s: Coordinate) -> int {
    let ex = s.x - m.x;
    let ey = s.y - m.y;
    let d = floor_sqrt((ex * ex + ey * ey) as nat);
    (d * d) as int
}

/// Whether every intermediate value of the pull of a source of weight `w` at
/// `s` on a body at `m` fits in an `i32`, and the two are apart.
pub open spec fn pull_defined(m: Coordinate, s: Coordinate, w: i32, g: i32) -> bool {
    let ex = s.x - m.x;
    let ey = s.y - m.y;
    let dx = m.x - s.x;
    let dy = m.y - s.y;
    &&& m != s
    &&& fits_i32(ex) && fits_i32(ey)
    &&& fits_i32(ex * ex) && fits_i32(ey * ey) && fits_i32(ex * ex + ey * ey)
    &&& fits_i32(dx) && fits_i32(dx * w) && fits_i32(dx * w * g)
    &&& fits_i32(dy) && fits_i32(dy * w) && fits_i32(dy * w * g)
}

/// The pull of a source of weight `w` at `s` on a body at `m`, under the
/// gravitational constant `g`: the amount taken off the body's velocity.
/// `None` where the pull is not defined.
pub open spec fn pull(m: Coordinate, s: Coordinate, w: i32, g: i32) -> Option<(int, int)> {
    if pull_defined(m, s, w, g) {
        let d2 = rounded_square_distance(m, s);
        Some((trunc_div((m.x - s.x) * w * g, d2), trunc_div((m.y - s.y) * w * g, d2)))
    } else {
        None
    }
}

/// The velocity of `a` after the pulls of the sources in `sources`, in order;
/// `None` where a pull or a running sum leaves the `i32` range.
pub open spec fn velocity_after(a: Asteroid, sources: Seq<(Coordinate, i32)>, g: i32) -> Option<(int, int)>
    decreases sources.len(),
{
    if sources.len() == 0 {
        Some((a.velocity.x as int, a.velocity.y as int))
    } else {
        match velocity_after(a, sources.drop_last(), g) {
            None => None,
            Some(v) => match pull(a.coordinate, sources.last().0, sources.last().1, g) {
                None => None,
                Some(f) => if fits_i32(v.0 - f.0) && fits_i32(v.1 - f.1) {
                    Some((v.0 - f.0, v.1 - f.1))
                } else {
                    None
                },
            },
        }
    }
}

/// The asteroid `a` after one tick among the sources `sources`: its velocity
/// takes every pull, then its place moves by the new velocity. `None` where a
/// value leaves the `i32` range or `a` sits on a source.
pub open spec fn advance(a: Asteroid, sources: Seq<(Coordinate, i32)>, g: i32) -> Option<Asteroid> {
    match velocity_after(a, sources, g) {
        None => None,
        Some(v) => {
            let nx = a.coordinate.x + v.0;
            let ny = a.coordinate.y + v.1;
            if fits_i32(nx) && fits_i32(ny) {
                Some(
                    Asteroid {
                        coordinate: Coordinate { x: nx as i32, y: ny as i32 },
                        velocity: Vector { x: v.0 as i32, y: v.1 as i32 },
                    },
                )
            } else {
                None
            }
        },
    }
}

/// Whether some mobile body sits exactly on some source.
pub open spec fn coincides(mobiles: Seq<Asteroid>, sources: Seq<(Coordinate, i32)>) -> bool {
    exists|i: int, j: int|
        0 <= i < mobiles.len() && 0 <= j < sources.len() && #[trigger] mobiles[i].coordinate
            == #[trigger] sources[j].0
}

/// Whether every mobile body can take its tick.
pub open spec fn all_advance(mobiles: Seq<Asteroid>, sources: Seq<(Coordinate, i32)>, g: i32) -> bool {
    forall|i: int| 0 <= i < mobiles.len() ==> (#[trigger] advance(mobiles[i], sources, g)) is Some
}

/// The place and weight of each source, as the tick reads them.
pub open spec fn snapshot<S: GravitySource>(sources: Seq<S>) -> Seq<(Coordinate, i32)> {
    sources.map_values(|s: S| (s.spec_position(), s.spec_weight()))
}

/// What one tick gives, over the sources' places and weights: the fault, or
/// the mobile bodies after the tick. A mobile body on a source comes first.
pub open spec fn physics_step(mobiles: Seq<Asteroid>, sources: Seq<(Coordinate, i32)>, g: i32) -> Result<
    Seq<Asteroid>,
    PhysicsFault,
> {
    if coincides(mobiles, sources) {
        Err(PhysicsFault::DivisionByZero)
    } else if !all_advance(mobiles, sources, g) {
        Err(PhysicsFault::Overflow)
    } else {
        Ok(mobiles.map_values(|a: Asteroid| advance(a, sources, g)->Some_0))
    }
}

/// Truncating division is odd in its dividend.
proof fn lemma_trunc_div_odd(a: int, b: int)
    requires
        b > 0,
    ensures
        trunc_div(-a, b) == -trunc_div(a, b),
{
    if a == 0 {
        assert(0int / b == 0);
    }
}

/// One source of weight `w` at the origin and one asteroid at rest at
/// `(10, 0)`, with gravitational constant 1: the tick completes, the
/// asteroid's velocity points at the source along the x axis (its x component
/// is `-(w / 10)`, negative, and its y component 0), and the asteroid moves
/// that far toward the source.
pub proof fn lemma_single_source_pulls_toward_it(w: i32)
    requires
        10 <= w <= 214748364,
    ensures
        ({
            let a = Asteroid {
                coordinate: Coordinate { x: 10, y: 0 },
                velocity: Vector { x: 0, y: 0 },
            };
            let sources = seq![(Coordinate { x: 0, y: 0 }, w)];
            &&& physics_step(seq![a], sources, 1) is Ok
            &&& physics_step(seq![a], sources, 1)->Ok_0.len() == 1
            &&& physics_step(seq![a], sources, 1)->Ok_0[0].velocity.x == -(w / 10)
            &&& physics_step(seq![a], sources, 1)->Ok_0[0].velocity.x < 0
            &&& physics_step(seq![a], sources, 1)->Ok_0[0].velocity.y == 0
            &&& physics_step(seq![a], sources, 1)->Ok_0[0].coordinate.x == 10 - w / 10
            &&& physics_step(seq![a], sources, 1)->Ok_0[0].coordinate.x < 10
            &&& physics_step(seq![a], sources, 1)->Ok_0[0].coordinate.y == 0
        }),
{
    let a = Asteroid { coordinate: Coordinate { x: 10, y: 0 }, velocity: Vector { x: 0, y: 0 } };
    let o = Coordinate { x: 0, y: 0 };
    let sources = seq![(o, w)];
    let mobiles = seq![a];
    assert(10 * 10 <= 100 && 100 < 11 * 11) by (nonlinear_arith);
    lemma_floor_sqrt_unique(100, 10);
    assert(rounded_square_distance(a.coordinate, o) == 100) by {
        assert((0 - 10) * (0 - 10) + (0 - 0) * (0 - 0) == 100) by (nonlinear_arith);
        assert(floor_sqrt(100) == 10);
        assert(10 * 10 == 100) by (nonlinear_arith);
    }
    assert(10 * w * 1 <= i32::MAX) by (nonlinear_arith)
        requires
            w <= 214748364,
    ;
    assert(pull_defined(a.coordinate, o, w, 1));
    assert(trunc_div(10 * w * 1, 100) == w / 10) by (nonlinear_arith)
        requires
            w >= 10,
    ;
    assert(0 * w * 1 == 0);
    assert(pull(a.coordinate, o, w, 1) == Some((w / 10, 0int)));
    assert(sources.drop_last() =~= Seq::<(Coordinate, i32)>::empty());
    assert(velocity_after(a, sources.drop_last(), 1) == Some((0int, 0int)));
    assert(sources.last() == (o, w));
    assert(velocity_after(a, sources, 1) == Some((-(w / 10), 0int)));
    assert(!coincides(mobiles, sources));
    assert(all_advance(mobiles, sources, 1));
}

/// Two sources of equal weight, mirrored about the horizontal line through
/// an asteroid: their vertical pulls on it are opposite, and when the tick
/// completes the asteroid's vertical velocity is what it was.
pub proof fn lemma_mirrored_sources_cancel(a: Asteroid, sx: i32, h: i32, w: i32, g: i32)
    requires
        fits_i32(a.coordinate.y + h),
        fits_i32(a.coordinate.y - h),
    ensures
        ({
            let above = Coordinate { x: sx, y: (a.coordinate.y + h) as i32 };
            let below = Coordinate { x: sx, y: (a.coordinate.y - h) as i32 };
            &&& pull(a.coordinate, above, w, g) is Some && pull(a.coordinate, below, w, g) is Some
                ==> pull(a.coordinate, above, w, g)->Some_0.1 + pull(a.coordinate, below, w, g)->Some_0.1
                == 0
            &&& physics_step(seq![a], seq![(above, w), (below, w)], g) is Ok ==> physics_step(
                seq![a],
                seq![(above, w), (below, w)],
                g,
            )->Ok_0[0].velocity.y == a.velocity.y
        }),
{
    let m = a.coordinate;
    let above = Coordinate { x: sx, y: (m.y + h) as i32 };
    let below = Coordinate { x: sx, y: (m.y - h) as i32 };
    let sources = seq![(above, w), (below, w)];
    if pull(m, above, w, g) is Some && pull(m, below, w, g) is Some {
        let ex = sx - m.x;
        assert((h * h) == (-h) * (-h)) by (nonlinear_arith);
        assert(rounded_square_distance(m, above) == rounded_square_distance(m, below));
        let d2 = rounded_square_distance(m, above);
        let ex2 = ex * ex;
        assert(ex * ex >= 0 && h * h >= 0) by (nonlinear_arith);
        assert(d2 >= 1) by {
            lemma_floor_sqrt_bounds((ex2 + h * h) as nat);
            let d = floor_sqrt((ex2 + h * h) as nat);
            if ex2 + h * h == 0 {
                assert(ex == 0 && h == 0) by (nonlinear_arith)
                    requires
                        ex * ex + h * h == 0,
                        ex2 == ex * ex,
                ;
            }
            assert(d * d >= 1) by (nonlinear_arith)
                requires
                    ex2 + h * h < (d + 1) * (d + 1),
                    ex2 + h * h >= 1,
                    d >= 0,
            ;
        }
        assert((-h) * w * g == -(h * w * g)) by (nonlinear_arith);
        lemma_trunc_div_odd(h * w * g, d2);
    }
    if physics_step(seq![a], sources, g) is Ok {
        assert(all_advance(seq![a], sources, g));
        assert(advance(seq![a][0], sources, g) is Some);
        assert(sources.drop_last() =~= seq![(above, w)]);
        assert(sources.drop_last().drop_last() =~= Seq::<(Coordinate, i32)>::empty());
        assert(sources.drop_last().last() == (above, w));
        assert(sources.last() == (below, w));
        assert(velocity_after(a, sources.drop_last().drop_last(), g) == Some(
            (a.velocity.x as int, a.velocity.y as int),
        ));
        assert(velocity_after(a, sources.drop_last(), g) is Some);
        assert(velocity_after(a, sources, g) is Some);
        assert(pull(m, above, w, g) is Some);
        assert(pull(m, below, w, g) is Some);
        let f1 = pull(m, above, w, g)->Some_0;
        let f2 = pull(m, below, w, g)->Some_0;
        assert(velocity_after(a, sources.drop_last(), g) == Some(
            (a.velocity.x - f1.0, a.velocity.y - f1.1),
        ));
        assert(velocity_after(a, sources, g) == Some(
            (a.velocity.x - f1.0 - f2.0, a.velocity.y - f1.1 - f2.1),
        ));
        let moved = physics_step(seq![a], sources, g)->Ok_0;
        assert(moved[0] == advance(a, sources, g)->Some_0);
    }
}

/// Once the running velocity has failed, adding more sources keeps it failed.
proof fn lemma_velocity_fault_persists(a: Asteroid, sources: Seq<(Coordinate, i32)>, g: i32, k: int)
    requires
        0 <= k <= sources.len(),
        velocity_after(a, sources.take(k), g) is None,
    ensures
        velocity_after(a, sources, g) is None,
    decreases sources.len(),
{
    if sources.len() == k {
        assert(sources.take(k) =~= sources);
    } else {
        assert(sources.drop_last().take(k) =~= sources.take(k));
        lemma_velocity_fault_persists(a, sources.drop_last(), g, k);
    }
}

/// The integer square root of `n`, rounded down.
fn floor_sqrt_exec(n: i32) -> (r: i32)
    requires
        n >= 0,
    ensures
        r == floor_sqrt(n as nat),
        0 <= r <= 46340,
{
    let mut lo: i64 = 0;
    let mut hi: i64 = 46341;
    assert(46341 * 46341 > i32::MAX) by (nonlinear_arith);
    while hi - lo > 1
        invariant
            0 <= lo < hi <= 46341,
            lo * lo <= n,
            n < hi * hi,
        decreases hi - lo,
    {
        let mid: i64 = lo + (hi - lo) / 2;
        assert(0 <= mid * mid <= 46341 * 46341) by (nonlinear_arith)
            requires
                0 <= mid <= 46341,
        ;
        if mid * mid <= n as i64 {
            lo = mid;
        } else {
            hi = mid;
        }
    }
    proof {
        assert(hi == lo + 1);
        lemma_floor_sqrt_unique(n as nat, lo as nat);
    }
    lo as i32
}

/// The distance between `(x1, y1)` and `(x2, y2)`, rounded down to an
/// integer. The offsets, their squares and the squared distance must fit in an
/// `i32`.
pub fn get_distance(x1: i32, y1: i32, x2: i32, y2: i32) -> (r: i32)
    requires
        fits_i32(x1 - x2),
        fits_i32(y1 - y2),
        fits_i32((x1 - x2) * (x1 - x2)),
        fits_i32((y1 - y2) * (y1 - y2)),
        fits_i32((x1 - x2) * (x1 - x2) + (y1 - y2) * (y1 - y2)),
    ensures
        r == floor_sqrt(((x1 - x2) * (x1 - x2) + (y1 - y2) * (y1 - y2)) as nat),
{
    let dx = x1 - x2;
    let dy = y1 - y2;
    assert(dx * dx >= 0 && dy * dy >= 0) by (nonlinear_arith);
    floor_sqrt_exec(dx * dx + dy * dy)
}

/// The pull of a source of weight `w` at `s` on a body at `m`; `None` exactly
/// where [`pull`] is not defined.
fn pull_on(m: Coordinate, s: Coordinate, w: i32, g: i32) -> (r: Option<(i32, i32)>)
    ensures
        match r {
            Some(f) => pull(m, s, w, g) == Some((f.0 as int, f.1 as int)),
            None => pull(m, s, w, g) is None,
        },
{
    if m.x == s.x && m.y == s.y {
        return None;
    }
    let ex = match s.x.checked_sub(m.x) {
        Some(v) => v,
        None => return None,
    };
    let ey = match s.y.checked_sub(m.y) {
        Some(v) => v,
        None => return None,
    };
    let exx = match ex.checked_mul(ex) {
        Some(v) => v,
        None => return None,
    };
    let eyy = match ey.checked_mul(ey) {
        Some(v) => v,
        None => return None,
    };
    match exx.checked_add(eyy) {
        Some(_) => {},
        None => return None,
    }
    let d = get_distance(s.x, s.y, m.x, m.y);
    let ghost sq = (ex * ex + ey * ey) as nat;
    proof {
        lemma_floor_sqrt_bounds(sq);
        assert(ex * ex >= 0 && ey * ey >= 0) by (nonlinear_arith);
        if sq == 0 {
            assert(ex == 0 && ey == 0) by (nonlinear_arith)
                requires
                    ex * ex + ey * ey == 0,
            ;
        }
        assert(d * d >= 1) by (nonlinear_arith)
            requires
                sq < (d + 1) * (d + 1),
                sq >= 1,
                d >= 0,
        ;
    }
    let d2 = d * d;
    let dx = match m.x.checked_sub(s.x) {
        Some(v) => v,
        None => return None,
    };
    let nx = match dx.checked_mul(w) {
        Some(v) => match v.checked_mul(g) {
            Some(v2) => v2,
            None => return None,
        },
        None => return None,
    };
    let dy = match m.y.checked_sub(s.y) {
        Some(v) => v,
        None => return None,
    };
    let ny = match dy.checked_mul(w) {
        Some(v) => match v.checked_mul(g) {
            Some(v2) => v2,
            None => return None,
        },
        None => return None,
    };
    proof {
        if nx < 0 {
            assert(0 <= (-nx) / (d2 as int) <= -nx) by (nonlinear_arith)
                requires
                    nx < 0,
                    d2 >= 1,
            ;
        } else {
            assert(0 <= nx / d2 <= nx) by (nonlinear_arith)
                requires
                    nx >= 0,
                    d2 >= 1,
            ;
        }
        if ny < 0 {
            assert(0 <= (-ny) / (d2 as int) <= -ny) by (nonlinear_arith)
                requires
                    ny < 0,
                    d2 >= 1,
            ;
        } else {
            assert(0 <= ny / d2 <= ny) by (nonlinear_arith)
                requires
                    ny >= 0,
                    d2 >= 1,
            ;
        }
    }
    let fx = match nx.checked_div(d2) {
        Some(v) => v,
        None => return None,
    };
    let fy = match ny.checked_div(d2) {
        Some(v) => v,
        None => return None,
    };
    Some((fx, fy))
}

/// The asteroid `a` after one tick among the sources `sources`; `None`
/// exactly where [`advance`] is.
fn advance_one(a: &Asteroid, sources: &Vec<(Coordinate, i32)>, g: i32) -> (r: Option<Asteroid>)
    ensures
        r == advance(*a, sources@, g),
{
    let mut vx: i32 = a.velocity.x;
    let mut vy: i32 = a.velocity.y;
    let mut j: usize = 0;
    assert(sources@.take(0) =~= Seq::<(Coordinate, i32)>::empty());
    while j < sources.len()
        invariant
            0 <= j <= sources.len(),
            velocity_after(*a, sources@.take(j as int), g) == Some((vx as int, vy as int)),
        decreases sources.len() - j,
    {
        let (sc, w) = sources[j];
        assert(sources@.take(j + 1).drop_last() =~= sources@.take(j as int));
        assert(sources@.take(j + 1).last() == sources@[j as int]);
        let f = pull_on(a.coordinate, sc, w, g);
        match f {
            None => {
                proof {
                    lemma_velocity_fault_persists(*a, sources@, g, j + 1);
                }
                return None;
            },
            Some((fx, fy)) => {
                let nvx = match vx.checked_sub(fx) {
                    Some(v) => v,
                    None => {
                        proof {
                            lemma_velocity_fault_persists(*a, sources@, g, j + 1);
                        }
                        return None;
                    },
                };
                let nvy = match vy.checked_sub(fy) {
                    Some(v) => v,
                    None => {
                        proof {
                            lemma_velocity_fault_persists(*a, sources@, g, j + 1);
                        }
                        return None;
                    },
                };
                vx = nvx;
                vy = nvy;
            },
        }
        j = j + 1;
    }
    assert(sources@.take(sources.len() as int) =~= sources@);
    let nx = match a.coordinate.x.checked_add(vx) {
        Some(v) => v,
        None => return None,
    };
    let ny = match a.coordinate.y.checked_add(vy) {
        Some(v) => v,
        None => return None,
    };
    Some(Asteroid { coordinate: Coordinate { x: nx, y: ny }, velocity: Vector { x: vx, y: vy } })
}

/// The place and weight of each source, read once.
fn snapshot_of<S: CircularGravitySource>(sources: &Vec<S>) -> (r: Vec<(Coordinate, i32)>)
    ensures
        r@ == snapshot(sources@),
{
    let mut r: Vec<(Coordinate, i32)> = Vec::new();
    let mut i: usize = 0;
    while i < sources.len()
        invariant
            0 <= i <= sources.len(),
            r@.len() == i,
            forall|k: int|
                0 <= k < i ==> #[trigger] r@[k] == (sources@[k].spec_position(), sources@[k].spec_weight()),
        decreases sources.len() - i,
    {
        let p = sources[i].get_position();
        let w = sources[i].get_weight();
        r.push((p, w));
        i = i + 1;
    }
    assert(r@ =~= snapshot(sources@));
    r
}

/// Whether some mobile body sits exactly on some source.
fn has_coincidence(mobiles: &Vec<Asteroid>, sources: &Vec<(Coordinate, i32)>) -> (r: bool)
    ensures
        r == coincides(mobiles@, sources@),
{
    let mut i: usize = 0;
    while i < mobiles.len()
        invariant
            0 <= i <= mobiles.len(),
            forall|a: int, b: int|
                0 <= a < i && 0 <= b < sources.len() ==> #[trigger] mobiles@[a].coordinate
                    != #[trigger] sources@[b].0,
        decreases mobiles.len() - i,
    {
        let mut j: usize = 0;
        while j < sources.len()
            invariant
                0 <= i < mobiles.len(),
                0 <= j <= sources.len(),
                forall|a: int, b: int|
                    0 <= a < i && 0 <= b < sources.len() ==> #[trigger] mobiles@[a].coordinate
                        != #[trigger] sources@[b].0,
                forall|b: int| 0 <= b < j ==> mobiles@[i as int].coordinate != #[trigger] sources@[b].0,
            decreases sources.len() - j,
        {
            if mobiles[i].coordinate == sources[j].0 {
                return true;
            }
            j = j + 1;
        }
        i = i + 1;
    }
    false
}

/// Advances every asteroid by one tick under the pull of every gravity
/// source, with gravitational constant `gravitational_constant`.
///
/// The sources are read once, before any asteroid moves, and are handed back
/// unchanged. Each asteroid's velocity takes the pull of every source, in the
/// sources' order, and the asteroid then moves by its new velocity; the
/// asteroids keep their order. The tick fails with
/// [`PhysicsFault::DivisionByZero`] when an asteroid sits exactly on a source,
/// and otherwise with [`PhysicsFault::Overflow`] when an intermediate value
/// leaves the `i32` range.
pub fn apply_physics<S: CircularGravitySource>(
    gravity_sources: Vec<S>,
    asteroids: Vec<Asteroid>,
    gravitational_constant: i32,
) -> (r: Result<(Vec<S>, Vec<Asteroid>), PhysicsFault>)
    ensures
        physics_step(asteroids@, snapshot(gravity_sources@), gravitational_constant) == match r {
            Ok((_, moved)) => Ok(moved@),
            Err(e) => Err(e),
        },
        r is Ok ==> r->Ok_0.0@ == gravity_sources@,
{
    let tuples = snapshot_of(&gravity_sources);
    if has_coincidence(&asteroids, &tuples) {
        return Err(PhysicsFault::DivisionByZero);
    }
    let mut moved: Vec<Asteroid> = Vec::new();
    let mut i: usize = 0;
    while i < asteroids.len()
        invariant
            0 <= i <= asteroids.len(),
            tuples@ == snapshot(gravity_sources@),
            !coincides(asteroids@, tuples@),
            moved@.len() == i,
            forall|k: int|
                0 <= k < i ==> advance(asteroids@[k], tuples@, gravitational_constant) == Some(
                    #[trigger] moved@[k],
                ),
        decreases asteroids.len() - i,
    {
        match advance_one(&asteroids[i], &tuples, gravitational_constant) {
            Some(a) => moved.push(a),
            None => {
                assert(!all_advance(asteroids@, tuples@, gravitational_constant));
                return Err(PhysicsFault::Overflow);
            },
        }
        i = i + 1;
    }
    assert forall|k: int| 0 <= k < asteroids@.len() implies (#[trigger] advance(
        asteroids@[k],
        tuples@,
        gravitational_constant,
    )) is Some by {
        assert(advance(asteroids@[k], tuples@, gravitational_constant) == Some(moved@[k]));
    }
    assert(moved@ =~= asteroids@.map_values(
        |a: Asteroid| advance(a, tuples@, gravitational_constant)->Some_0,
    ));
    Ok((gravity_sources, moved))
}

} // verus!
