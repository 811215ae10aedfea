//! The geometric predicate: sign-based point-in-triangle classification.

use vstd::prelude::*;
use crate::{coord_ok, COORD_BOUND};

verus! {

/// A 2D coordinate in grid-pixel units, fixed-point (see `SCALE`).
#[derive(Clone, Copy, Debug, PartialEq, Eq, Structural)]
pub struct Point2 {
    pub x: i64,
    pub y: i64,
}

pub open spec fn point_ok(p: Point2) -> bool {
    coord_ok(p.x as int) && coord_ok(p.y as int)
}

/// Twice the signed area of the triangle `(a, b, (px, py))`: the cross
/// product of the directed edge `a -> b` with `a -> p`.
pub open spec fn edge_cross(a: Point2, b: Point2, px: int, py: int) -> int {
    (b.x - a.x) * (py - a.y) - (b.y - a.y) * (px - a.x)
}

/// The point `(px, py)` is classified inside the triangle `(a, b, c)` when
/// the signed areas against the three directed edges agree in sign or are
/// zero. The test is boundary-inclusive: points on an edge or vertex count
/// as inside. A zero-area (collinear) triangle is not special-cased: every
/// point on its carrier line yields three zero signed areas and counts as
/// inside; that behavior is deliberate and kept.
pub open spec fn point_in_triangle(px: int, py: int, a: Point2, b: Point2, c: Point2) -> bool {
    let d1 = edge_cross(a, b, px, py);
    let d2 = edge_cross(b, c, px, py);
    let d3 = edge_cross(c, a, px, py);
    d1 * d2 >= 0 && d2 * d3 >= 0
}

impl Point2 {
    pub fn new(x: i64, y: i64) -> (r: Point2)
        ensures
            r.x == x,
            r.y == y,
    {
        Point2 { x, y }
    }
}

/// Cross product of the directed edge `a -> b` with `a -> p`.
fn cross_product(a: Point2, b: Point2, p: Point2) -> (r: i64)
    requires
        point_ok(a),
        point_ok(b),
        point_ok(p),
    ensures
        r == edge_cross(a, b, p.x as int, p.y as int),
{
    let dx1 = b.x - a.x;
    let dy1 = b.y - a.y;
    let dx2 = p.x - a.x;
    let dy2 = p.y - a.y;
    proof {
        assert(dx1 * dy2 <= 2 * COORD_BOUND * (2 * COORD_BOUND)
            && dx1 * dy2 >= -(2 * COORD_BOUND * (2 * COORD_BOUND))) by (nonlinear_arith)
            requires
                -2 * COORD_BOUND <= dx1 <= 2 * COORD_BOUND,
                -2 * COORD_BOUND <= dy2 <= 2 * COORD_BOUND,
        ;
        assert(dy1 * dx2 <= 2 * COORD_BOUND * (2 * COORD_BOUND)
            && dy1 * dx2 >= -(2 * COORD_BOUND * (2 * COORD_BOUND))) by (nonlinear_arith)
            requires
                -2 * COORD_BOUND <= dy1 <= 2 * COORD_BOUND,
                -2 * COORD_BOUND <= dx2 <= 2 * COORD_BOUND,
        ;
    }
    dx1 * dy2 - dy1 * dx2
}

/// Whether the product of the two signed areas is nonnegative, computed
/// without forming the product (which could overflow an `i64`).
fn product_nonneg(u: i64, w: i64) -> (r: bool)
    ensures
        r == (u * w >= 0),
{
    let r = (u >= 0 && w >= 0) || (u <= 0 && w <= 0);
    proof {
        assert(((u >= 0 && w >= 0) || (u <= 0 && w <= 0)) == (u * w >= 0))
            by (nonlinear_arith);
    }
    r
}

/// Returns true if the point is inside the triangle `(a, b, c)`, boundary
/// included.
pub fn is_point_in_triangle(p: Point2, a: Point2, b: Point2, c: Point2) -> (r: bool)
    requires
        point_ok(p),
        point_ok(a),
        point_ok(b),
        point_ok(c),
    ensures
        r == point_in_triangle(p.x as int, p.y as int, a, b, c),
{
    let d1 = cross_product(a, b, p);
    let d2 = cross_product(b, c, p);
    let d3 = cross_product(c, a, p);
    product_nonneg(d1, d2) && product_nonneg(d2, d3)
}

/// The point `(px, py)` lies strictly inside the triangle `(a, b, c)`: all
/// three signed areas are strictly of one sign. Such a point is off every
/// edge line, and the triangle is not degenerate.
pub open spec fn strictly_inside(px: int, py: int, a: Point2, b: Point2, c: Point2) -> bool {
    let d1 = edge_cross(a, b, px, py);
    let d2 = edge_cross(b, c, px, py);
    let d3 = edge_cross(c, a, px, py);
    (d1 > 0 && d2 > 0 && d3 > 0) || (d1 < 0 && d2 < 0 && d3 < 0)
}

/// Reversing a directed edge negates its signed area.
proof fn lemma_edge_cross_antisym(a: Point2, b: Point2, px: int, py: int)
    ensures
        edge_cross(a, b, px, py) == -edge_cross(b, a, px, py),
{
    assert((b.x - a.x) * (py - a.y) - (b.y - a.y) * (px - a.x)
        == -((a.x - b.x) * (py - b.y) - (a.y - b.y) * (px - b.x))) by (nonlinear_arith);
}

proof fn lemma_same_sign_product(u: int, w: int)
    by (nonlinear_arith)
    requires
        (u > 0 && w > 0) || (u < 0 && w < 0),
    ensures
        u * w > 0,
{
}

proof fn lemma_mul_zero(u: int, w: int)
    by (nonlinear_arith)
    requires
        u == 0,
    ensures
        u * w == 0,
        w * u == 0,
{
}

/// The predicate is orientation-agnostic: a point strictly inside a
/// triangle is classified inside under every order in which the triangle's
/// three vertices may be supplied.
pub proof fn lemma_strictly_inside_any_vertex_order(
    px: int,
    py: int,
    a: Point2,
    b: Point2,
    c: Point2,
)
    requires
        strictly_inside(px, py, a, b, c),
    ensures
        point_in_triangle(px, py, a, b, c),
        point_in_triangle(px, py, b, c, a),
        point_in_triangle(px, py, c, a, b),
        point_in_triangle(px, py, a, c, b),
        point_in_triangle(px, py, c, b, a),
        point_in_triangle(px, py, b, a, c),
{
    let d1 = edge_cross(a, b, px, py);
    let d2 = edge_cross(b, c, px, py);
    let d3 = edge_cross(c, a, px, py);
    lemma_edge_cross_antisym(a, b, px, py);
    lemma_edge_cross_antisym(b, c, px, py);
    lemma_edge_cross_antisym(c, a, px, py);
    lemma_same_sign_product(d1, d2);
    lemma_same_sign_product(d2, d3);
    lemma_same_sign_product(d3, d1);
    lemma_same_sign_product(-d3, -d2);
    lemma_same_sign_product(-d2, -d1);
    lemma_same_sign_product(-d1, -d3);
}

/// The predicate is boundary-inclusive: each of a triangle's own vertices is
/// classified inside that triangle, whatever the triangle.
pub proof fn lemma_vertices_inside(a: Point2, b: Point2, c: Point2)
    ensures
        point_in_triangle(a.x as int, a.y as int, a, b, c),
        point_in_triangle(b.x as int, b.y as int, a, b, c),
        point_in_triangle(c.x as int, c.y as int, a, b, c),
{
    lemma_cross_on_endpoints(a, b);
    lemma_cross_on_endpoints(b, c);
    lemma_cross_on_endpoints(c, a);
    lemma_mul_zero(edge_cross(a, b, a.x as int, a.y as int),
        edge_cross(b, c, a.x as int, a.y as int));
    lemma_mul_zero(edge_cross(c, a, a.x as int, a.y as int),
        edge_cross(b, c, a.x as int, a.y as int));
    lemma_mul_zero(edge_cross(a, b, b.x as int, b.y as int),
        edge_cross(c, a, b.x as int, b.y as int));
    lemma_mul_zero(edge_cross(b, c, b.x as int, b.y as int),
        edge_cross(c, a, b.x as int, b.y as int));
    lemma_mul_zero(edge_cross(b, c, c.x as int, c.y as int),
        edge_cross(a, b, c.x as int, c.y as int));
    lemma_mul_zero(edge_cross(c, a, c.x as int, c.y as int),
        edge_cross(a, b, c.x as int, c.y as int));
}

/// A signed area is unchanged by translating all four coordinates so that
/// the tested point becomes the origin: the cross product rewrites over the
/// vertex offsets from the point.
proof fn lemma_cross_translated(a: Point2, b: Point2, px: int, py: int)
    ensures
        edge_cross(a, b, px, py) == (a.x - px) * (b.y - py) - (b.x - px) * (a.y - py),
{
    assert((b.x - a.x) * (py - a.y) - (b.y - a.y) * (px - a.x)
        == (a.x - px) * (b.y - py) - (b.x - px) * (a.y - py)) by (nonlinear_arith);
}

/// The three signed areas weight the vertex offsets from the point so that
/// the weighted x-offsets cancel: over offsets `(e, f)` per vertex, the sum
/// `(e2 f3 - e3 f2) e1 + (e3 f1 - e1 f3) e2 + (e1 f2 - e2 f1) e3` is zero.
proof fn lemma_weighted_offsets_cancel(
    e1: int,
    f1: int,
    e2: int,
    f2: int,
    e3: int,
    f3: int,
)
    by (nonlinear_arith)
    ensures
        (e2 * f3 - e3 * f2) * e1 + (e3 * f1 - e1 * f3) * e2 + (e1 * f2 - e2 * f1) * e3 == 0,
{
}

proof fn lemma_nonzero_product_signs(u: int, w: int)
    by (nonlinear_arith)
    requires
        u * w >= 0,
        u != 0,
        w != 0,
    ensures
        (u > 0 && w > 0) || (u < 0 && w < 0),
{
}

proof fn lemma_sign_of_product(d: int, w: int)
    by (nonlinear_arith)
    requires
        w > 0,
    ensures
        d > 0 ==> d * w > 0,
        d < 0 ==> d * w < 0,
{
}

/// A point strictly to the left of all three vertices — in particular one
/// far outside the triangle's bounding box — is classified outside,
/// provided it is off the three edge carrier lines. (A point on the
/// infinite line through one edge zeroes that edge's signed area and can
/// classify inside however far away it lies; see `point_in_triangle`.)
pub proof fn lemma_left_of_all_vertices_is_outside(
    px: int,
    py: int,
    a: Point2,
    b: Point2,
    c: Point2,
)
    requires
        px < a.x,
        px < b.x,
        px < c.x,
        edge_cross(a, b, px, py) != 0,
        edge_cross(b, c, px, py) != 0,
        edge_cross(c, a, px, py) != 0,
    ensures
        !point_in_triangle(px, py, a, b, c),
{
    let d1 = edge_cross(a, b, px, py);
    let d2 = edge_cross(b, c, px, py);
    let d3 = edge_cross(c, a, px, py);
    if point_in_triangle(px, py, a, b, c) {
        lemma_nonzero_product_signs(d1, d2);
        lemma_nonzero_product_signs(d2, d3);
        let e1 = a.x - px;
        let f1 = a.y - py;
        let e2 = b.x - px;
        let f2 = b.y - py;
        let e3 = c.x - px;
        let f3 = c.y - py;
        lemma_cross_translated(a, b, px, py);
        lemma_cross_translated(b, c, px, py);
        lemma_cross_translated(c, a, px, py);
        assert(d1 == e1 * f2 - e2 * f1);
        assert(d2 == e2 * f3 - e3 * f2);
        assert(d3 == e3 * f1 - e1 * f3);
        lemma_weighted_offsets_cancel(e1, f1, e2, f2, e3, f3);
        assert(d2 * e1 + d3 * e2 + d1 * e3 == 0);
        lemma_sign_of_product(d2, e1);
        lemma_sign_of_product(d3, e2);
        lemma_sign_of_product(d1, e3);
        assert(false);
    }
}

/// A directed edge's signed area vanishes at the edge's own endpoints.
proof fn lemma_cross_on_endpoints(a: Point2, b: Point2)
    ensures
        edge_cross(a, b, a.x as int, a.y as int) == 0,
        edge_cross(a, b, b.x as int, b.y as int) == 0,
{
    assert((b.x - a.x) * (a.y - a.y) - (b.y - a.y) * (a.x - a.x) == 0) by (nonlinear_arith);
    assert((b.x - a.x) * (b.y - a.y) - (b.y - a.y) * (b.x - a.x) == 0) by (nonlinear_arith);
}

} // verus!
