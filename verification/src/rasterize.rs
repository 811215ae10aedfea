//! The rasterizer: every pixel center is resolved against every triangle of
//! the scene in sequence order, the last containing triangle's color winning.

use vstd::prelude::*;
use crate::color::Color3;
use crate::geom::{is_point_in_triangle, point_in_triangle, Point2};
use crate::grid::Grid;
use crate::rng::rng_from_seed;
use crate::scene::{generate_scene, in_box, in_range_or_fixed, Scene, Triangle};
use crate::SCALE;

verus! {

/// The triangle contains the point `(px, py)` (in fixed-point units),
/// boundary included.
pub open spec fn tri_contains(t: Triangle, px: int, py: int) -> bool {
    point_in_triangle(px, py, t.a, t.b, t.c)
}

/// The compositing law, as a reduction over the ordered triangle sequence:
/// the color of the last triangle in `ts` that contains the point, and the
/// background color `bg` when none does. Later triangles always win.
pub open spec fn pixel_color(ts: Seq<Triangle>, px: int, py: int, bg: Color3) -> Color3
    decreases ts.len(),
{
    if ts.len() == 0 {
        bg
    } else if tri_contains(ts.last(), px, py) {
        ts.last().color
    } else {
        pixel_color(ts.drop_last(), px, py, bg)
    }
}

/// A one-triangle sequence resolves to the triangle's color where it
/// contains the point, and to the background everywhere else.
pub proof fn lemma_pixel_color_single(t: Triangle, px: int, py: int, bg: Color3)
    ensures
        pixel_color(seq![t], px, py, bg)
            == (if tri_contains(t, px, py) { t.color } else { bg }),
{
    let s = seq![t];
    assert(s.last() == t);
    assert(s.drop_last() =~= Seq::<Triangle>::empty());
    assert(pixel_color(Seq::<Triangle>::empty(), px, py, bg) == bg);
}

/// The compositing order: in a two-triangle scene, every point inside the
/// second (later) triangle takes its color, whether or not the first one
/// contains it too; only points inside the first triangle alone take the
/// first one's color.
pub proof fn lemma_last_triangle_wins(t1: Triangle, t2: Triangle, px: int, py: int, bg: Color3)
    ensures
        pixel_color(seq![t1, t2], px, py, bg)
            == (if tri_contains(t2, px, py) {
                t2.color
            } else if tri_contains(t1, px, py) {
                t1.color
            } else {
                bg
            }),
{
    let s = seq![t1, t2];
    assert(s.last() == t2);
    assert(s.drop_last() =~= seq![t1]);
    lemma_pixel_color_single(t1, px, py, bg);
}

/// A point no triangle of the sequence contains keeps the background color.
pub proof fn lemma_no_coverage_keeps_background(
    ts: Seq<Triangle>,
    px: int,
    py: int,
    bg: Color3,
)
    requires
        forall|i: int| 0 <= i < ts.len() ==> !tri_contains(#[trigger] ts[i], px, py),
    ensures
        pixel_color(ts, px, py, bg) == bg,
    decreases ts.len(),
{
    if ts.len() > 0 {
        assert(!tri_contains(ts[ts.len() - 1], px, py));
        let head = ts.drop_last();
        assert(forall|i: int| 0 <= i < head.len() ==> #[trigger] head[i] == ts[i]);
        lemma_no_coverage_keeps_background(head, px, py, bg);
    }
}

/// Rasterize the scene into the grid, in place. For every pixel — its center
/// taken as the integer coordinate itself, in fixed-point `(x * SCALE,
/// y * SCALE)` — the triangles are resolved in sequence order and the last
/// containing one's color is written; a pixel no triangle contains keeps the
/// color the grid held on entry. The grid is never cleared here.
pub fn render(scene: &Scene, grid: &mut Grid)
    requires
        scene.wf(),
        old(grid).wf(),
    ensures
        final(grid).wf(),
        final(grid).spec_width() == old(grid).spec_width(),
        final(grid).spec_height() == old(grid).spec_height(),
        forall|px: int, py: int|
            0 <= px < old(grid).spec_width() && 0 <= py < old(grid).spec_height()
                ==> final(grid).at(px, py)
                    == pixel_color(scene.triangles@, px * SCALE, py * SCALE,
                        old(grid).at(px, py)),
{
    let w: usize = grid.width();
    let h: usize = grid.height();
    let n: usize = scene.triangles.len();
    let ghost ts = scene.triangles@;
    let mut y: usize = 0;
    while y < h
        invariant
            scene.wf(),
            ts == scene.triangles@,
            n == ts.len(),
            grid.wf(),
            grid.spec_width() == old(grid).spec_width(),
            grid.spec_height() == old(grid).spec_height(),
            w == grid.spec_width(),
            h == grid.spec_height(),
            y <= h,
            forall|px: int, py: int|
                0 <= px < w && 0 <= py < y
                    ==> grid.at(px, py)
                        == pixel_color(ts, px * SCALE, py * SCALE, old(grid).at(px, py)),
            forall|px: int, py: int|
                0 <= px < w && y <= py < h ==> grid.at(px, py) == old(grid).at(px, py),
        decreases h - y,
    {
        let mut x: usize = 0;
        while x < w
            invariant
                scene.wf(),
                ts == scene.triangles@,
                n == ts.len(),
                grid.wf(),
                grid.spec_width() == old(grid).spec_width(),
                grid.spec_height() == old(grid).spec_height(),
                w == grid.spec_width(),
                h == grid.spec_height(),
                y < h,
                x <= w,
                forall|px: int, py: int|
                    0 <= px < w && 0 <= py < y
                        ==> grid.at(px, py)
                            == pixel_color(ts, px * SCALE, py * SCALE, old(grid).at(px, py)),
                forall|px: int|
                    0 <= px < x
                        ==> grid.at(px, y as int)
                            == pixel_color(ts, px * SCALE, y * SCALE, old(grid).at(px, y as int)),
                forall|px: int, py: int|
                    0 <= px < w && y < py < h ==> grid.at(px, py) == old(grid).at(px, py),
                forall|px: int|
                    x <= px < w ==> grid.at(px, y as int) == old(grid).at(px, y as int),
            decreases w - x,
        {
            let xs: i64 = (x as i64) * SCALE;
            let ys: i64 = (y as i64) * SCALE;
            let p = Point2 { x: xs, y: ys };
            let mut col: Color3 = grid.pixel(x, y);
            let ghost entry = grid.at(x as int, y as int);
            let mut k: usize = 0;
            while k < n
                invariant
                    scene.wf(),
                    ts == scene.triangles@,
                    n == ts.len(),
                    p.x == x * SCALE,
                    p.y == y * SCALE,
                    x < 16384,
                    y < 16384,
                    k <= n,
                    col == pixel_color(ts.take(k as int), p.x as int, p.y as int, entry),
                decreases n - k,
            {
                let t = scene.triangles[k];
                proof {
                    assert(ts.take(k as int + 1).last() == ts[k as int]);
                    assert(ts.take(k as int + 1).drop_last() =~= ts.take(k as int));
                }
                if is_point_in_triangle(p, t.a, t.b, t.c) {
                    col = t.color;
                }
                k = k + 1;
            }
            proof {
                assert(ts.take(n as int) =~= ts);
            }
            grid.set_pixel(x, y, col);
            x = x + 1;
        }
        y = y + 1;
    }
}

/// The fixed demonstration triangle: vertices at fractions (0.2, 0.2),
/// (0.7, 0.4) and (0.4, 0.8) of a 256-pixel square, colored pure blue.
pub open spec fn demo_triangle() -> Triangle {
    Triangle {
        a: Point2 { x: 51200, y: 51200 },
        b: Point2 { x: 179200, y: 102400 },
        c: Point2 { x: 102400, y: 204800 },
        color: Color3 { r: 0, g: 0, b: SCALE },
    }
}

/// A 256 x 256 frame, black except for the fixed demonstration triangle,
/// drawn in blue wherever a pixel center lies inside it.
pub fn create_test_image() -> (g: Grid)
    ensures
        g.wf(),
        g.spec_width() == 256,
        g.spec_height() == 256,
        forall|px: int, py: int|
            0 <= px < 256 && 0 <= py < 256
                ==> g.at(px, py)
                    == (if tri_contains(demo_triangle(), px * SCALE, py * SCALE) {
                        (Color3 { r: 0, g: 0, b: SCALE })
                    } else {
                        (Color3 { r: 0, g: 0, b: 0 })
                    }),
{
    let black = Color3::new(0, 0, 0);
    let tri = Triangle {
        a: Point2::new(51200, 51200),
        b: Point2::new(179200, 102400),
        c: Point2::new(102400, 204800),
        color: Color3::new(0, 0, SCALE),
    };
    let scene = Scene { triangles: vec![tri], velocities: vec![Point2::new(0, 0)] };
    let mut g = Grid::new(256, 256, black);
    render(&scene, &mut g);
    proof {
        assert(scene.triangles@ =~= seq![demo_triangle()]);
        assert forall|px: int, py: int| 0 <= px < 256 && 0 <= py < 256
            implies g.at(px, py)
                == (if tri_contains(demo_triangle(), px * SCALE, py * SCALE) {
                    (Color3 { r: 0, g: 0, b: SCALE })
                } else {
                    (Color3 { r: 0, g: 0, b: 0 })
                }) by {
            lemma_pixel_color_single(demo_triangle(), px * SCALE, py * SCALE, black);
        }
    }
    g
}

/// The converged animation setup: a 256 x 256 black frame and a random scene
/// of 100 triangles — centers uniform over the square, vertices jittered by
/// up to 10 pixels, colors uniform, one velocity per triangle with each
/// component in [-2, 2) pixels per tick — rendered once into the frame.
/// The same seed yields the same scene and the same frame.
pub fn create_test_images(seed: u64) -> (r: (Scene, Grid))
    ensures
        r.0.wf(),
        r.0.triangles@.len() == 100,
        r.0.velocities@.len() == 100,
        forall|i: int| 0 <= i < 100 ==> {
            let t = #[trigger] r.0.triangles@[i];
            &&& in_box(t.a, -10 * SCALE, 266 * SCALE, -10 * SCALE, 266 * SCALE)
            &&& in_box(t.b, -10 * SCALE, 266 * SCALE, -10 * SCALE, 266 * SCALE)
            &&& in_box(t.c, -10 * SCALE, 266 * SCALE, -10 * SCALE, 266 * SCALE)
            &&& 0 <= t.color.r < SCALE
            &&& 0 <= t.color.g < SCALE
            &&& 0 <= t.color.b < SCALE
        },
        forall|i: int| 0 <= i < 100 ==> {
            let v = #[trigger] r.0.velocities@[i];
            &&& in_range_or_fixed(v.x as int, -2 * SCALE, 2 * SCALE)
            &&& in_range_or_fixed(v.y as int, -2 * SCALE, 2 * SCALE)
        },
        r.1.wf(),
        r.1.spec_width() == 256,
        r.1.spec_height() == 256,
        forall|px: int, py: int|
            0 <= px < 256 && 0 <= py < 256
                ==> r.1.at(px, py)
                    == pixel_color(r.0.triangles@, px * SCALE, py * SCALE,
                        (Color3 { r: 0, g: 0, b: 0 })),
{
    let mut rng = rng_from_seed(seed);
    let scene = generate_scene(
        &mut rng,
        100,
        Point2::new(0, 0),
        Point2::new(256 * SCALE, 256 * SCALE),
        10 * SCALE,
        Point2::new(-2 * SCALE, -2 * SCALE),
        Point2::new(2 * SCALE, 2 * SCALE),
    );
    let mut grid = Grid::new(256, 256, Color3::new(0, 0, 0));
    render(&scene, &mut grid);
    (scene, grid)
}

} // verus!
