//! The scene model — an ordered sequence of colored triangles with one
//! velocity each — its random generator, and the motion integrator that
//! advances vertices with toroidal wrap-around.

use vstd::prelude::*;
use vstd::arithmetic::div_mod::{
    lemma_mod_add_multiples_vanish, lemma_mod_sub_multiples_vanish, lemma_small_mod,
};
use crate::color::Color3;
use crate::geom::{point_ok, Point2};
use crate::grid::MAX_DIM;
use crate::rng::random_in_range;
use crate::{COORD_BOUND, SCALE};

verus! {

/// Exactly 3 vertices and one color. Vertex order is fixed at creation; the
/// containment predicate does not depend on it.
#[derive(Clone, Copy, Debug, PartialEq, Eq, Structural)]
pub struct Triangle {
    pub a: Point2,
    pub b: Point2,
    pub c: Point2,
    pub color: Color3,
}

pub open spec fn triangle_ok(t: Triangle) -> bool {
    point_ok(t.a) && point_ok(t.b) && point_ok(t.c)
}

/// An ordered sequence of triangles, one velocity per triangle. The order
/// is the compositing order: later triangles win over earlier ones for any
/// pixel both contain. Colors and velocities never change; only vertex
/// positions move, once per tick.
#[derive(Clone, Debug)]
pub struct Scene {
    pub triangles: Vec<Triangle>,
    pub velocities: Vec<Point2>,
}

impl Scene {
    pub open spec fn wf(self) -> bool {
        &&& self.triangles@.len() == self.velocities@.len()
        &&& forall|i: int|
            0 <= i < self.triangles@.len() ==> triangle_ok(#[trigger] self.triangles@[i])
        &&& forall|i: int|
            0 <= i < self.velocities@.len() ==> point_ok(#[trigger] self.velocities@[i])
    }
}

/// `v` drawn from the half-open range `[lo, hi)`, except that an empty
/// configured range `lo == hi` means the fixed value `lo`.
pub open spec fn in_range_or_fixed(v: int, lo: int, hi: int) -> bool {
    if lo < hi {
        lo <= v < hi
    } else {
        v == lo
    }
}

/// `p` lies in the closed box `[lo_x, hi_x] x [lo_y, hi_y]`.
pub open spec fn in_box(p: Point2, lo_x: int, hi_x: int, lo_y: int, hi_y: int) -> bool {
    lo_x <= p.x <= hi_x && lo_y <= p.y <= hi_y
}

/// One uniform draw from `[lo, hi)`, where the degenerate configuration
/// `lo == hi` stands for the fixed value `lo`.
fn draw_in_range_or_fixed(rng: &mut rand::rngs::StdRng, lo: i64, hi: i64) -> (r: i64)
    requires
        lo <= hi,
    ensures
        in_range_or_fixed(r as int, lo as int, hi as int),
{
    if lo < hi {
        random_in_range(rng, lo, hi)
    } else {
        lo
    }
}

impl Point2 {
    /// A point with both coordinates drawn uniformly from `[min, max)`.
    pub fn random(rng: &mut rand::rngs::StdRng, min: i64, max: i64) -> (p: Point2)
        requires
            min < max,
        ensures
            min <= p.x < max,
            min <= p.y < max,
    {
        let x = random_in_range(rng, min, max);
        let y = random_in_range(rng, min, max);
        Point2 { x, y }
    }
}

impl Color3 {
    /// A color with each channel drawn independently and uniformly from
    /// `[0, 1)` (in fixed-point: `[0, SCALE)`).
    pub fn random(rng: &mut rand::rngs::StdRng) -> (c: Color3)
        ensures
            0 <= c.r < SCALE,
            0 <= c.g < SCALE,
            0 <= c.b < SCALE,
    {
        let r = random_in_range(rng, 0, SCALE);
        let g = random_in_range(rng, 0, SCALE);
        let b = random_in_range(rng, 0, SCALE);
        Color3 { r, g, b }
    }
}

/// A random scene of `count` triangles: each gets a center drawn uniformly
/// from the spawn box, three vertices jittered around that center by
/// independent offsets in `[-jitter, jitter)`, a color with channels uniform
/// in `[0, 1)`, and one velocity drawn from the velocity box. A degenerate
/// range (`lo == hi` on an axis) stands for that fixed value, so a scene-wide
/// constant velocity is the configuration `vel_lo == vel_hi`. Vertices may
/// start outside the grid; only the motion integrator enforces the toroidal
/// domain, and only on update.
pub fn generate_scene(
    rng: &mut rand::rngs::StdRng,
    count: usize,
    spawn_lo: Point2,
    spawn_hi: Point2,
    jitter: i64,
    vel_lo: Point2,
    vel_hi: Point2,
) -> (s: Scene)
    requires
        spawn_lo.x <= spawn_hi.x,
        spawn_lo.y <= spawn_hi.y,
        0 <= jitter,
        -COORD_BOUND <= spawn_lo.x - jitter,
        -COORD_BOUND <= spawn_lo.y - jitter,
        spawn_hi.x + jitter <= COORD_BOUND,
        spawn_hi.y + jitter <= COORD_BOUND,
        vel_lo.x <= vel_hi.x,
        vel_lo.y <= vel_hi.y,
        point_ok(vel_lo),
        point_ok(vel_hi),
    ensures
        s.wf(),
        s.triangles@.len() == count,
        s.velocities@.len() == count,
        forall|i: int| 0 <= i < count ==> {
            let t = #[trigger] s.triangles@[i];
            &&& in_box(t.a, spawn_lo.x - jitter, spawn_hi.x + jitter,
                    spawn_lo.y - jitter, spawn_hi.y + jitter)
            &&& in_box(t.b, spawn_lo.x - jitter, spawn_hi.x + jitter,
                    spawn_lo.y - jitter, spawn_hi.y + jitter)
            &&& in_box(t.c, spawn_lo.x - jitter, spawn_hi.x + jitter,
                    spawn_lo.y - jitter, spawn_hi.y + jitter)
            &&& 0 <= t.color.r < SCALE
            &&& 0 <= t.color.g < SCALE
            &&& 0 <= t.color.b < SCALE
        },
        forall|i: int| 0 <= i < count ==> {
            let v = #[trigger] s.velocities@[i];
            &&& in_range_or_fixed(v.x as int, vel_lo.x as int, vel_hi.x as int)
            &&& in_range_or_fixed(v.y as int, vel_lo.y as int, vel_hi.y as int)
        },
{
    let mut triangles: Vec<Triangle> = Vec::new();
    let mut velocities: Vec<Point2> = Vec::new();
    let mut i: usize = 0;
    while i < count
        invariant
            i <= count,
            triangles@.len() == i,
            velocities@.len() == i,
            spawn_lo.x <= spawn_hi.x,
            spawn_lo.y <= spawn_hi.y,
            0 <= jitter,
            -COORD_BOUND <= spawn_lo.x - jitter,
            -COORD_BOUND <= spawn_lo.y - jitter,
            spawn_hi.x + jitter <= COORD_BOUND,
            spawn_hi.y + jitter <= COORD_BOUND,
            vel_lo.x <= vel_hi.x,
            vel_lo.y <= vel_hi.y,
            point_ok(vel_lo),
            point_ok(vel_hi),
            forall|k: int| 0 <= k < i ==> {
                let t = #[trigger] triangles@[k];
                &&& in_box(t.a, spawn_lo.x - jitter, spawn_hi.x + jitter,
                        spawn_lo.y - jitter, spawn_hi.y + jitter)
                &&& in_box(t.b, spawn_lo.x - jitter, spawn_hi.x + jitter,
                        spawn_lo.y - jitter, spawn_hi.y + jitter)
                &&& in_box(t.c, spawn_lo.x - jitter, spawn_hi.x + jitter,
                        spawn_lo.y - jitter, spawn_hi.y + jitter)
                &&& 0 <= t.color.r < SCALE
                &&& 0 <= t.color.g < SCALE
                &&& 0 <= t.color.b < SCALE
            },
            forall|k: int| 0 <= k < i ==> {
                let v = #[trigger] velocities@[k];
                &&& in_range_or_fixed(v.x as int, vel_lo.x as int, vel_hi.x as int)
                &&& in_range_or_fixed(v.y as int, vel_lo.y as int, vel_hi.y as int)
            },
            forall|k: int| 0 <= k < i ==> triangle_ok(#[trigger] triangles@[k]),
            forall|k: int| 0 <= k < i ==> point_ok(#[trigger] velocities@[k]),
        decreases count - i,
    {
        let cx = draw_in_range_or_fixed(rng, spawn_lo.x, spawn_hi.x);
        let cy = draw_in_range_or_fixed(rng, spawn_lo.y, spawn_hi.y);
        let color = Color3::random(rng);
        let vx = draw_in_range_or_fixed(rng, vel_lo.x, vel_hi.x);
        let vy = draw_in_range_or_fixed(rng, vel_lo.y, vel_hi.y);
        let a = jittered_vertex(rng, cx, cy, jitter);
        let b = jittered_vertex(rng, cx, cy, jitter);
        let c = jittered_vertex(rng, cx, cy, jitter);
        triangles.push(Triangle { a, b, c, color });
        velocities.push(Point2 { x: vx, y: vy });
        i = i + 1;
    }
    Scene { triangles, velocities }
}

/// One vertex: the center shifted on each axis by an independent offset in
/// `[-jitter, jitter)` (the center itself when `jitter` is zero).
fn jittered_vertex(rng: &mut rand::rngs::StdRng, cx: i64, cy: i64, jitter: i64) -> (p: Point2)
    requires
        0 <= jitter,
        -COORD_BOUND <= cx - jitter,
        -COORD_BOUND <= cy - jitter,
        cx + jitter <= COORD_BOUND,
        cy + jitter <= COORD_BOUND,
    ensures
        cx - jitter <= p.x <= cx + jitter,
        cy - jitter <= p.y <= cy + jitter,
{
    let ox = draw_in_range_or_fixed(rng, -jitter, jitter);
    let oy = draw_in_range_or_fixed(rng, -jitter, jitter);
    Point2 { x: cx + ox, y: cy + oy }
}

/// `x` brought into `[0, m)` by true modular arithmetic. This is toroidal
/// wrap-around for any magnitude of `x`, a behavioral superset of a
/// single-step conditional correction.
fn wrap_coord(x: i64, m: i64) -> (r: i64)
    requires
        0 < m <= COORD_BOUND,
        -2 * COORD_BOUND <= x <= 2 * COORD_BOUND,
    ensures
        r == (x as int) % (m as int),
        0 <= r < m,
{
    let mut v: i64 = x;
    while v < 0
        invariant
            0 < m <= COORD_BOUND,
            -2 * COORD_BOUND <= v <= 2 * COORD_BOUND,
            v as int % m as int == x as int % m as int,
        decreases m - v,
    {
        proof {
            lemma_mod_add_multiples_vanish(v as int, m as int);
        }
        v = v + m;
    }
    while v >= m
        invariant
            0 < m <= COORD_BOUND,
            0 <= v <= 2 * COORD_BOUND,
            v as int % m as int == x as int % m as int,
        decreases v,
    {
        proof {
            lemma_mod_sub_multiples_vanish(v as int, m as int);
        }
        v = v - m;
    }
    proof {
        lemma_small_mod(v as nat, m as nat);
    }
    v
}

/// The new coordinates are the old ones shifted by the velocity and wrapped
/// into `[0, mw) x [0, mh)`; `mw` and `mh` are the scaled grid dimensions.
pub open spec fn point_advanced(np: Point2, op: Point2, v: Point2, mw: int, mh: int) -> bool {
    &&& np.x == (op.x + v.x) % mw
    &&& np.y == (op.y + v.y) % mh
}

pub open spec fn triangle_advanced(nt: Triangle, ot: Triangle, v: Point2, mw: int, mh: int) -> bool {
    &&& point_advanced(nt.a, ot.a, v, mw, mh)
    &&& point_advanced(nt.b, ot.b, v, mw, mh)
    &&& point_advanced(nt.c, ot.c, v, mw, mh)
    &&& nt.color == ot.color
}

/// One tick of motion: every vertex of every triangle moves by its
/// triangle's velocity, then wraps toroidally into the scaled grid domain
/// `[0, width * SCALE) x [0, height * SCALE)`. Colors and velocities are
/// untouched.
pub fn update_positions(scene: &mut Scene, width: usize, height: usize)
    requires
        old(scene).wf(),
        1 <= width <= MAX_DIM,
        1 <= height <= MAX_DIM,
    ensures
        final(scene).wf(),
        final(scene).velocities@ == old(scene).velocities@,
        final(scene).triangles@.len() == old(scene).triangles@.len(),
        forall|i: int| 0 <= i < old(scene).triangles@.len()
            ==> triangle_advanced(
                #[trigger] final(scene).triangles@[i],
                old(scene).triangles@[i],
                old(scene).velocities@[i],
                width * SCALE,
                height * SCALE,
            ),
{
    let mw: i64 = (width as i64) * SCALE;
    let mh: i64 = (height as i64) * SCALE;
    let n: usize = scene.triangles.len();
    let mut i: usize = 0;
    while i < n
        invariant
            scene.triangles@.len() == n,
            scene.velocities@ == old(scene).velocities@,
            old(scene).wf(),
            n == old(scene).triangles@.len(),
            i <= n,
            1 <= width <= MAX_DIM,
            1 <= height <= MAX_DIM,
            mw == width * SCALE,
            mh == height * SCALE,
            forall|k: int| i <= k < n
                ==> #[trigger] scene.triangles@[k] == old(scene).triangles@[k],
            forall|k: int| 0 <= k < i
                ==> triangle_advanced(
                    #[trigger] scene.triangles@[k],
                    old(scene).triangles@[k],
                    old(scene).velocities@[k],
                    mw as int,
                    mh as int,
                ),
            forall|k: int| 0 <= k < i ==> triangle_ok(#[trigger] scene.triangles@[k]),
        decreases n - i,
    {
        let t = scene.triangles[i];
        let v = scene.velocities[i];
        let nt = Triangle {
            a: Point2 { x: wrap_coord(t.a.x + v.x, mw), y: wrap_coord(t.a.y + v.y, mh) },
            b: Point2 { x: wrap_coord(t.b.x + v.x, mw), y: wrap_coord(t.b.y + v.y, mh) },
            c: Point2 { x: wrap_coord(t.c.x + v.x, mw), y: wrap_coord(t.c.y + v.y, mh) },
            color: t.color,
        };
        scene.triangles.set(i, nt);
        i = i + 1;
    }
}

} // verus!
