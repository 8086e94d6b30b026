//! Grid coordinate model: maps discrete logical cell coordinates to
//! continuous render-space positions. Render space is measured in integer
//! units; positions of entities that move continuously are held elsewhere in
//! thousandths of a unit, so every conversion in the crate is exact.

use vstd::prelude::*;
use vstd::arithmetic::div_mod::lemma_div_by_multiple;

verus! {

/// Side length of one grid cell, in render units.
pub const CELL_SIZE: i64 = 32;

/// Half a cell, in render units: sprites are cell-centered, not
/// corner-anchored.
pub const HALF_CELL_SIZE: i64 = 16;

/// Machine limit on the magnitude of a cell coordinate or a render-space
/// origin, far beyond any viewport; keeps every conversion free of overflow.
pub const COORD_LIMIT: i64 = 0x1000_0000_0000;

/// Thousandths of a render unit per render unit: the scale in which
/// continuously moving entities hold their positions, so that speed times
/// elapsed milliseconds accumulates exactly.
pub const MILLI: i64 = 1000;

/// The fixed cell geometry shared by every entity on the field.
pub struct Cell;

impl Cell {
    pub fn half_size() -> (r: i64)
        ensures
            r == HALF_CELL_SIZE,
    {
        HALF_CELL_SIZE
    }
}

/// Process-wide field configuration, derived once from the viewport extent.
/// Immutable after creation.
#[derive(Clone, Copy, PartialEq, Eq, Structural, Debug)]
pub struct Grid {
    pub rows: i64,
    pub columns: i64,
}

/// A discrete cell coordinate on the field. The swarm keeps its units at
/// non-negative coordinates within the grid extent; the type itself admits a
/// transient step onto a boundary cell, which the edge detector answers
/// before the next movement pass.
#[derive(Clone, Copy, PartialEq, Eq, Structural, Debug)]
pub struct GridPosition {
    pub x: i64,
    pub y: i64,
}

/// A render-space position, in integer render units. The horizontal axis
/// grows rightward, the vertical axis grows upward.
#[derive(Clone, Copy, PartialEq, Eq, Structural, Debug)]
pub struct Transform {
    pub x: i64,
    pub y: i64,
}

/// Render-space x of the center of the cell in column `x`, for a field whose
/// left border is at `start_x`.
pub open spec fn transform_x(x: int, start_x: int) -> int {
    start_x + HALF_CELL_SIZE + x * CELL_SIZE
}

/// Render-space y of the center of the cell in row `y`, for a field whose
/// top border is at `start_y`. Rows grow downward on the field.
pub open spec fn transform_y(y: int, start_y: int) -> int {
    start_y - HALF_CELL_SIZE - y * CELL_SIZE
}

impl GridPosition {
    /// Pure conversion of a cell coordinate to the render-space position of
    /// the cell's center: `(start_x + half cell + x * cell, start_y - half
    /// cell - y * cell)`. Reproduced bit-for-bit by every entity, so rows and
    /// columns align.
    pub fn get_transform(&self, start_x: i64, start_y: i64) -> (r: Transform)
        requires
            -COORD_LIMIT <= self.x <= COORD_LIMIT,
            -COORD_LIMIT <= self.y <= COORD_LIMIT,
            -COORD_LIMIT <= start_x <= COORD_LIMIT,
            -COORD_LIMIT <= start_y <= COORD_LIMIT,
        ensures
            r.x == transform_x(self.x as int, start_x as int),
            r.y == transform_y(self.y as int, start_y as int),
    {
        let x = start_x + HALF_CELL_SIZE + self.x * CELL_SIZE;
        let y = start_y - HALF_CELL_SIZE - self.y * CELL_SIZE;
        Transform { x, y }
    }

    /// Inverse of `get_transform` for positions that lie on a cell center at
    /// or beyond the field origin: recovers the integer cell from a
    /// render-space position, the known cell size and the field origin.
    pub fn from_transform(t: &Transform, start_x: i64, start_y: i64) -> (p: GridPosition)
        requires
            -COORD_LIMIT <= start_x <= COORD_LIMIT,
            -COORD_LIMIT <= start_y <= COORD_LIMIT,
            0 <= t.x - start_x - HALF_CELL_SIZE <= COORD_LIMIT,
            0 <= start_y - HALF_CELL_SIZE - t.y <= COORD_LIMIT,
        ensures
            p.x == (t.x - start_x - HALF_CELL_SIZE) / (CELL_SIZE as int),
            p.y == (start_y - HALF_CELL_SIZE - t.y) / (CELL_SIZE as int),
    {
        let dx = t.x - start_x - HALF_CELL_SIZE;
        let dy = start_y - HALF_CELL_SIZE - t.y;
        GridPosition { x: dx / CELL_SIZE, y: dy / CELL_SIZE }
    }
}

/// Converting a non-negative cell coordinate to render space and back, via
/// the known cell size and origin, recovers the original integer cell.
pub proof fn lemma_grid_render_round_trip(p: GridPosition, start_x: int, start_y: int)
    requires
        p.x >= 0,
        p.y >= 0,
    ensures
        (transform_x(p.x as int, start_x) - start_x - HALF_CELL_SIZE) / (CELL_SIZE as int)
            == p.x as int,
        (start_y - HALF_CELL_SIZE - transform_y(p.y as int, start_y)) / (CELL_SIZE as int)
            == p.y as int,
{
    assert(transform_x(p.x as int, start_x) - start_x - HALF_CELL_SIZE == p.x * CELL_SIZE);
    assert(start_y - HALF_CELL_SIZE - transform_y(p.y as int, start_y) == p.y * CELL_SIZE);
    lemma_div_by_multiple(p.x as int, CELL_SIZE as int);
    lemma_div_by_multiple(p.y as int, CELL_SIZE as int);
}

} // verus!
