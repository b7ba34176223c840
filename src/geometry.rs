use embedded_graphics::primitives::Rectangle;
use vstd::prelude::*;

verus! {

/// Width of the display in pixels.
pub const DISPLAY_WIDTH: u32 = 320;

/// Height of the display in pixels.
pub const DISPLAY_HEIGHT: u32 = 240;

/// Side of one square grid cell in pixels.
pub const CELL_SIZE: u32 = 10;

/// Number of cells across the display.
pub const GRID_WIDTH: u32 = 32;

/// Number of cells down the display.
pub const GRID_HEIGHT: u32 = 24;

/// A cell is named by the pixel coordinate of its top-left corner.
pub type Cell = (i32, i32);

/// A cell lies on the grid: both coordinates are multiples of the cell size
/// and the whole cell is on the display.
pub open spec fn on_grid(c: Cell) -> bool {
    &&& 0 <= c.0 < DISPLAY_WIDTH as int
    &&& 0 <= c.1 < DISPLAY_HEIGHT as int
    &&& (c.0 as int) % (CELL_SIZE as int) == 0
    &&& (c.1 as int) % (CELL_SIZE as int) == 0
}

/// Two squares of side `side` at the given top-left corners share a region of
/// non-zero area.
pub open spec fn squares_overlap(a: Cell, b: Cell, side: int) -> bool {
    -side < a.0 - b.0 < side && -side < a.1 - b.1 < side
}

/// Relies on embedded_graphics' `Rectangle::intersection` and
/// `Rectangle::is_zero_sized`: two squares of side `side` overlap in a
/// rectangle of non-zero size exactly when their corners are less than `side`
/// apart on both axes.
#[verifier::external_body]
fn cells_intersect(a: Cell, b: Cell, side: u32) -> (r: bool)
    requires
        0 < side <= 1000,
        -1_000_000 <= a.0 <= 1_000_000,
        -1_000_000 <= a.1 <= 1_000_000,
        -1_000_000 <= b.0 <= 1_000_000,
        -1_000_000 <= b.1 <= 1_000_000,
    ensures
        r == squares_overlap(a, b, side as int),
{
    let size = embedded_graphics::geometry::Size::new(side, side);
    let ra = Rectangle::new(embedded_graphics::geometry::Point::new(a.0, a.1), size);
    let rb = Rectangle::new(embedded_graphics::geometry::Point::new(b.0, b.1), size);
    !ra.intersection(&rb).is_zero_sized()
}

/// Whether the cells at `a` and `b` occupy the same place on the display,
/// tested as the overlap of their squares.
pub fn same_cell(a: Cell, b: Cell) -> (r: bool)
    requires
        on_grid(a),
        on_grid(b),
    ensures
        r == (a == b),
{
    let r = cells_intersect(a, b, CELL_SIZE);
    proof {
        lemma_grid_overlap_is_equality(a, b);
    }
    r
}

/// On the grid, two cell squares overlap exactly when they are the same cell.
pub proof fn lemma_grid_overlap_is_equality(a: Cell, b: Cell)
    requires
        on_grid(a),
        on_grid(b),
    ensures
        squares_overlap(a, b, CELL_SIZE as int) == (a == b),
{
    let s = CELL_SIZE as int;
    if squares_overlap(a, b, s) {
        let (ax, ay, bx, by) = (a.0 as int, a.1 as int, b.0 as int, b.1 as int);
        assert(ax == s * (ax / s));
        assert(bx == s * (bx / s));
        assert(ay == s * (ay / s));
        assert(by == s * (by / s));
        assert(ax / s == bx / s) by (nonlinear_arith)
            requires ax == s * (ax / s), bx == s * (bx / s), -s < ax - bx < s, s == 10;
        assert(ay / s == by / s) by (nonlinear_arith)
            requires ay == s * (ay / s), by == s * (by / s), -s < ay - by < s, s == 10;
    }
}

} // verus!
