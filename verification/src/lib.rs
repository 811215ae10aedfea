//! A minimal software rasterizer: fills a pixel grid by testing, for every
//! pixel center, which triangles of an ordered scene contain it, the last
//! containing triangle winning; advances triangle vertices frame by frame
//! with toroidal wrap-around.
//!
//! Coordinates and color channels are fixed-point: an `i64` counts units of
//! `1 / SCALE`, so the value `SCALE` stands for one pixel (or for a full
//! color channel).

use vstd::prelude::*;

pub mod color;
pub mod geom;
pub mod grid;
pub mod rasterize;
pub mod rng;
pub mod scene;

pub use color::Color3;
pub use geom::{is_point_in_triangle, Point2};
pub use grid::{Grid, MAX_DIM};
pub use rasterize::{create_test_image, create_test_images, render};
pub use scene::{generate_scene, update_positions, Scene, Triangle};

verus! {

/// Fixed-point scale: an `i64` coordinate or channel counts units of `1 / SCALE`.
pub const SCALE: i64 = 1000;

/// Coordinates are kept within this magnitude so that the cross products the
/// point-in-triangle predicate computes fit in an `i64`.
pub const COORD_BOUND: i64 = 0x1000_0000;

/// A coordinate (or velocity component) small enough for the geometric
/// predicates to be evaluated without overflow.
pub open spec fn coord_ok(c: int) -> bool {
    -COORD_BOUND <= c <= COORD_BOUND
}

} // verus!
