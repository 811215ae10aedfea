//! The pixel grid: a fixed-size 2D array of colors backed by one contiguous
//! row-major buffer.

use vstd::prelude::*;
use crate::color::Color3;

verus! {

/// Largest accepted grid side length. Keeps `width * height` within a 32-bit
/// `usize` and keeps scaled pixel-center coordinates within `COORD_BOUND`.
pub const MAX_DIM: usize = 16384;

/// A `width x height` frame of colors, row-major, addressed as `(x, y)` with
/// the cell for `(x, y)` at index `y * width + x`. Dimensions are fixed at
/// construction.
#[derive(Clone, Debug)]
pub struct Grid {
    pub width: usize,
    pub height: usize,
    pub cells: Vec<Color3>,
}

impl Grid {
    pub open spec fn wf(self) -> bool {
        &&& 1 <= self.width <= MAX_DIM
        &&& 1 <= self.height <= MAX_DIM
        &&& self.cells@.len() == self.width * self.height
    }

    pub open spec fn spec_width(self) -> int {
        self.width as int
    }

    pub open spec fn spec_height(self) -> int {
        self.height as int
    }

    /// The color of the cell at `(x, y)`.
    pub open spec fn at(self, x: int, y: int) -> Color3 {
        self.cells@[y * self.spec_width() + x]
    }

    /// A new grid with every cell set to `fill`.
    pub fn new(width: usize, height: usize, fill: Color3) -> (g: Grid)
        requires
            1 <= width <= MAX_DIM,
            1 <= height <= MAX_DIM,
        ensures
            g.wf(),
            g.spec_width() == width,
            g.spec_height() == height,
            forall|x: int, y: int|
                0 <= x < width && 0 <= y < height ==> g.at(x, y) == fill,
    {
        proof {
            assert(width * height <= MAX_DIM * MAX_DIM) by (nonlinear_arith)
                requires
                    width <= MAX_DIM,
                    height <= MAX_DIM,
            ;
        }
        let n: usize = width * height;
        let mut cells: Vec<Color3> = Vec::new();
        let mut i: usize = 0;
        while i < n
            invariant
                i <= n,
                cells@.len() == i,
                forall|k: int| 0 <= k < i ==> cells@[k] == fill,
            decreases n - i,
        {
            cells.push(fill);
            i = i + 1;
        }
        let g = Grid { width, height, cells };
        proof {
            assert forall|x: int, y: int|
                0 <= x < width && 0 <= y < height implies g.at(x, y) == fill by {
                lemma_index_in_range(x, y, width as int, height as int);
            }
        }
        g
    }

    pub fn width(&self) -> (w: usize)
        ensures
            w == self.spec_width(),
    {
        self.width
    }

    pub fn height(&self) -> (h: usize)
        ensures
            h == self.spec_height(),
    {
        self.height
    }

    /// Read the color of the cell at `(x, y)`.
    pub fn pixel(&self, x: usize, y: usize) -> (c: Color3)
        requires
            self.wf(),
            x < self.spec_width(),
            y < self.spec_height(),
        ensures
            c == self.at(x as int, y as int),
    {
        let _n: usize = self.cells.len();
        proof {
            lemma_index_in_range(x as int, y as int, self.spec_width(), self.spec_height());
        }
        self.cells[y * self.width + x]
    }

    /// Overwrite the cell at `(x, y)`; every other cell keeps its color.
    pub fn set_pixel(&mut self, x: usize, y: usize, c: Color3)
        requires
            old(self).wf(),
            x < old(self).spec_width(),
            y < old(self).spec_height(),
        ensures
            final(self).wf(),
            final(self).spec_width() == old(self).spec_width(),
            final(self).spec_height() == old(self).spec_height(),
            final(self).at(x as int, y as int) == c,
            forall|px: int, py: int|
                0 <= px < final(self).spec_width() && 0 <= py < final(self).spec_height()
                    && !(px == x && py == y)
                    ==> final(self).at(px, py) == old(self).at(px, py),
    {
        let _n: usize = self.cells.len();
        proof {
            lemma_index_in_range(x as int, y as int, self.spec_width(), self.spec_height());
        }
        let i: usize = y * self.width + x;
        self.cells.set(i, c);
        proof {
            assert forall|px: int, py: int|
                0 <= px < self.spec_width() && 0 <= py < self.spec_height()
                    && !(px == x && py == y)
                    implies self.at(px, py) == old(self).at(px, py) by {
                lemma_index_in_range(px, py, self.spec_width(), self.spec_height());
                lemma_index_injective(px, py, x as int, y as int, self.spec_width());
            }
        }
    }
}

/// A row-major index lies within the buffer.
proof fn lemma_index_in_range(x: int, y: int, w: int, h: int)
    by (nonlinear_arith)
    requires
        0 <= x < w,
        0 <= y < h,
    ensures
        0 <= y * w + x < w * h,
{
}

/// Distinct cells have distinct row-major indices.
proof fn lemma_index_injective(x1: int, y1: int, x2: int, y2: int, w: int)
    by (nonlinear_arith)
    requires
        0 <= x1 < w,
        0 <= x2 < w,
        0 <= y1,
        0 <= y2,
        !(x1 == x2 && y1 == y2),
    ensures
        y1 * w + x1 != y2 * w + x2,
{
}

} // verus!
