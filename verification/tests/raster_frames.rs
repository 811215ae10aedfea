use rand::SeedableRng;
use raster::{
    create_test_image, create_test_images, generate_scene, render, Color3, Grid, Point2, Scene,
    Triangle, SCALE,
};

fn tri(ax: i64, ay: i64, bx: i64, by: i64, cx: i64, cy: i64, color: Color3) -> Triangle {
    Triangle {
        a: Point2::new(ax, ay),
        b: Point2::new(bx, by),
        c: Point2::new(cx, cy),
        color,
    }
}

#[test]
fn later_triangle_wins_in_the_overlap() {
    let red = Color3::new(SCALE, 0, 0);
    let blue = Color3::new(0, 0, SCALE);
    let sentinel = Color3::new(123, 456, 789);
    // T1 covers the triangle with corners (0,0), (10,0), (0,10); T2 the one
    // with corners (1,1), (10,1), (1,10). Pixel (2,2) is inside both, pixel
    // (0,0) only inside T1, pixel (11,11) inside neither.
    let t1 = tri(0, 0, 10 * SCALE, 0, 0, 10 * SCALE, red);
    let t2 = tri(SCALE, SCALE, 10 * SCALE, SCALE, SCALE, 10 * SCALE, blue);
    let scene = Scene {
        triangles: vec![t1, t2],
        velocities: vec![Point2::new(0, 0), Point2::new(0, 0)],
    };
    let mut grid = Grid::new(12, 12, sentinel);
    render(&scene, &mut grid);
    assert_eq!(grid.pixel(2, 2), blue);
    assert_eq!(grid.pixel(0, 0), red);
    assert_eq!(grid.pixel(11, 11), sentinel);
}

#[test]
fn uncovered_pixel_keeps_the_background() {
    let sentinel = Color3::new(111, 222, 333);
    // A triangle well away from pixel (0, 0).
    let t = tri(5 * SCALE, 5 * SCALE, 9 * SCALE, 5 * SCALE, 5 * SCALE, 9 * SCALE,
        Color3::new(SCALE, SCALE, 0));
    let scene = Scene {
        triangles: vec![t],
        velocities: vec![Point2::new(0, 0)],
    };
    let mut grid = Grid::new(16, 16, sentinel);
    render(&scene, &mut grid);
    assert_eq!(grid.pixel(0, 0), sentinel);
    assert_eq!(grid.pixel(6, 6), Color3::new(SCALE, SCALE, 0));
}

#[test]
fn demo_frame_has_a_blue_triangle_on_black() {
    let g = create_test_image();
    assert_eq!(g.width(), 256);
    assert_eq!(g.height(), 256);
    // A pixel near the triangle's centroid is blue; the corner is black.
    assert_eq!(g.pixel(110, 119), Color3::new(0, 0, SCALE));
    assert_eq!(g.pixel(110, 119).to_rgb(), (0, 0, 255));
    assert_eq!(g.pixel(0, 0), Color3::new(0, 0, 0));
}

#[test]
fn same_seed_gives_identical_scene_and_frame() {
    let (s1, g1) = create_test_images(42);
    let (s2, g2) = create_test_images(42);
    assert_eq!(s1.triangles, s2.triangles);
    assert_eq!(s1.velocities, s2.velocities);
    assert_eq!(g1.width(), 256);
    assert_eq!(g1.height(), 256);
    for y in 0..256 {
        for x in 0..256 {
            assert_eq!(g1.pixel(x, y), g2.pixel(x, y));
        }
    }
}

#[test]
fn generated_scene_respects_its_configuration() {
    let mut rng = rand::rngs::StdRng::seed_from_u64(7);
    let scene = generate_scene(
        &mut rng,
        5,
        Point2::new(10000, 20000),
        Point2::new(30000, 40000),
        2000,
        Point2::new(1500, -1500),
        Point2::new(1500, -1500),
    );
    assert_eq!(scene.triangles.len(), 5);
    assert_eq!(scene.velocities.len(), 5);
    for t in &scene.triangles {
        for p in [t.a, t.b, t.c] {
            assert!(8000 <= p.x && p.x <= 32000);
            assert!(18000 <= p.y && p.y <= 42000);
        }
        for ch in [t.color.r, t.color.g, t.color.b] {
            assert!(0 <= ch && ch < SCALE);
        }
    }
    // A degenerate velocity range is the fixed-velocity configuration.
    for v in &scene.velocities {
        assert_eq!(*v, Point2::new(1500, -1500));
    }
}
