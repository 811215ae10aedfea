use raster::{update_positions, Color3, Point2, Scene, Triangle};

fn one_triangle_scene(a: Point2, velocity: Point2) -> Scene {
    let t = Triangle {
        a,
        b: Point2::new(1000, 1000),
        c: Point2::new(2000, 1000),
        color: Color3::new(500, 500, 500),
    };
    Scene {
        triangles: vec![t],
        velocities: vec![velocity],
    }
}

#[test]
fn wrap_at_upper_boundary() {
    // x = 255.5 with velocity +1.0 on a 256-wide grid becomes x = 0.5,
    // not 256.5.
    let mut scene = one_triangle_scene(Point2::new(255500, 100000), Point2::new(1000, 0));
    update_positions(&mut scene, 256, 256);
    assert_eq!(scene.triangles[0].a.x, 500);
    assert_eq!(scene.triangles[0].a.y, 100000);
}

#[test]
fn wrap_at_lower_boundary() {
    // x = 0.5 with velocity -1.0 on a 256-wide grid becomes x = 255.5.
    let mut scene = one_triangle_scene(Point2::new(500, 100000), Point2::new(-1000, 0));
    update_positions(&mut scene, 256, 256);
    assert_eq!(scene.triangles[0].a.x, 255500);
    assert_eq!(scene.triangles[0].a.y, 100000);
}

#[test]
fn wrap_handles_velocity_larger_than_the_grid() {
    // True modular wrap: a velocity of +5 pixels on a 2-pixel-wide grid
    // lands at (0.5 + 5) mod 2 = 1.5.
    let mut scene = one_triangle_scene(Point2::new(500, 500), Point2::new(5000, 0));
    update_positions(&mut scene, 2, 2);
    assert_eq!(scene.triangles[0].a.x, 1500);
}

#[test]
fn advance_moves_every_vertex_and_keeps_color_and_velocity() {
    let mut scene = one_triangle_scene(Point2::new(10000, 20000), Point2::new(3000, -2000));
    update_positions(&mut scene, 256, 256);
    let t = scene.triangles[0];
    assert_eq!(t.a, Point2::new(13000, 18000));
    assert_eq!(t.b, Point2::new(4000, 255000));
    assert_eq!(t.c, Point2::new(5000, 255000));
    assert_eq!(t.color, Color3::new(500, 500, 500));
    assert_eq!(scene.velocities[0], Point2::new(3000, -2000));
}
