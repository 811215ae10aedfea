use raster::{is_point_in_triangle, Point2};

// Vertices at (0, 0), (4, 0), (0, 4) in pixel units, fixed-point scale 1000.
fn right_triangle() -> (Point2, Point2, Point2) {
    (
        Point2::new(0, 0),
        Point2::new(4000, 0),
        Point2::new(0, 4000),
    )
}

#[test]
fn strictly_interior_point_is_inside_under_every_vertex_order() {
    let (a, b, c) = right_triangle();
    // Near the centroid (4/3, 4/3): strictly inside however the vertices
    // are ordered, clockwise or counter-clockwise.
    let p = Point2::new(1300, 1300);
    assert!(is_point_in_triangle(p, a, b, c));
    assert!(is_point_in_triangle(p, b, c, a));
    assert!(is_point_in_triangle(p, c, a, b));
    assert!(is_point_in_triangle(p, a, c, b));
    assert!(is_point_in_triangle(p, c, b, a));
    assert!(is_point_in_triangle(p, b, a, c));
}

#[test]
fn own_vertices_are_inside() {
    let a = Point2::new(51200, 51200);
    let b = Point2::new(179200, 102400);
    let c = Point2::new(102400, 204800);
    assert!(is_point_in_triangle(a, a, b, c));
    assert!(is_point_in_triangle(b, a, b, c));
    assert!(is_point_in_triangle(c, a, b, c));

    let (a, b, c) = right_triangle();
    assert!(is_point_in_triangle(a, a, b, c));
    assert!(is_point_in_triangle(b, a, b, c));
    assert!(is_point_in_triangle(c, a, b, c));
}

#[test]
fn point_far_outside_bounding_box_is_outside() {
    let a = Point2::new(51200, 51200);
    let b = Point2::new(179200, 102400);
    let c = Point2::new(102400, 204800);
    // 1000 pixels below and left of the bounding box corner.
    let p = Point2::new(51200 - 1000 * 1000, 51200 - 1000 * 1000);
    assert!(!is_point_in_triangle(p, a, b, c));
}

#[test]
fn boundary_point_on_edge_is_inside() {
    let (a, b, c) = right_triangle();
    // Midpoint of the edge from (0, 0) to (4, 0).
    let p = Point2::new(2000, 0);
    assert!(is_point_in_triangle(p, a, b, c));
}

#[test]
fn point_on_an_edge_line_extension_may_test_inside() {
    // The sign-agreement test zeroes one signed area for any point on the
    // infinite line through an edge, and two zero products count as inside.
    // So a point collinear with one edge can test inside even far outside
    // the triangle's bounding box; this is why "outside the bounding box
    // means outside" holds only away from the three edge lines.
    let a = Point2::new(15000, 5000);
    let b = Point2::new(10000, 10000);
    let c = Point2::new(20000, 20000);
    // (-5, -5) lies on the line through b and c, far below the box.
    assert!(is_point_in_triangle(Point2::new(-5000, -5000), a, b, c));
}

#[test]
fn zero_area_triangle_contains_its_carrier_line() {
    // Collinear vertices: every point on the shared line yields three zero
    // signed areas, so the boundary-inclusive predicate counts it as
    // inside — even far beyond the vertices.
    let a = Point2::new(0, 0);
    let b = Point2::new(1000, 1000);
    let c = Point2::new(2000, 2000);
    assert!(is_point_in_triangle(Point2::new(1500, 1500), a, b, c));
    assert!(is_point_in_triangle(Point2::new(500000, 500000), a, b, c));
}
