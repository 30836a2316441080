//! The orientation of the image and the mapping from a logical coordinate of
//! the 8x8 grid to the cell of the transmitted buffer that shows it.
//!
//! Cells are numbered row by row: the cell of column `x` and row `y` in the
//! unrotated grid is `x + 8 * y`.

use vstd::prelude::*;

verus! {

/// How far the image is turned, clockwise from the way the board is mounted.
#[derive(Debug, Clone, Copy, PartialEq, Eq, Structural)]
pub enum Orientation {
    /// As mounted.
    Deg0,
    /// A quarter turn clockwise.
    Deg90,
    /// A half turn.
    Deg180,
    /// Three quarter turns clockwise.
    Deg270,
}

/// Whether `(x, y)` is a coordinate of the grid.
pub open spec fn on_grid(x: int, y: int) -> bool {
    0 <= x <= 7 && 0 <= y <= 7
}

/// Whether `p` numbers one of the 64 cells.
pub open spec fn is_cell(p: int) -> bool {
    0 <= p < 64
}

/// The cell of the transmitted buffer that shows the logical coordinate
/// `(x, y)` under orientation `o`.
pub open spec fn physical_index(x: int, y: int, o: Orientation) -> int {
    match o {
        Orientation::Deg0 => x + 8 * y,
        Orientation::Deg90 => (7 - y) + 8 * x,
        Orientation::Deg180 => 63 - (x + 8 * y),
        Orientation::Deg270 => y + 8 * (7 - x),
    }
}

/// The logical cell that the cell `p` of the transmitted buffer shows under
/// orientation `o`: the inverse of `physical_index`.
pub open spec fn logical_index(p: int, o: Orientation) -> int {
    match o {
        Orientation::Deg0 => p,
        Orientation::Deg90 => p / 8 + 8 * (7 - p % 8),
        Orientation::Deg180 => 63 - p,
        Orientation::Deg270 => (7 - p / 8) + 8 * (p % 8),
    }
}

/// `logical_index` undoes `physical_index`, and the other way round, and
/// both stay within the 64 cells.
pub proof fn lemma_index_inverse(o: Orientation)
    ensures
        forall|x: int, y: int|
            on_grid(x, y) ==> 0 <= #[trigger] physical_index(x, y, o) < 64 && logical_index(
                physical_index(x, y, o),
                o,
            ) == x + 8 * y,
        forall|p: int|
            0 <= p < 64 ==> 0 <= #[trigger] logical_index(p, o) < 64 && physical_index(
                logical_index(p, o) % 8,
                logical_index(p, o) / 8,
                o,
            ) == p,
{
}

/// For every orientation the mapping is a bijection from the 64 coordinates
/// of the grid onto the cells 0 to 63: it stays in range, no two coordinates
/// share a cell, and every cell is reached.
pub proof fn lemma_physical_index_bijective(o: Orientation)
    ensures
        forall|x: int, y: int| on_grid(x, y) ==> 0 <= #[trigger] physical_index(x, y, o) < 64,
        forall|x1: int, y1: int, x2: int, y2: int|
            on_grid(x1, y1) && on_grid(x2, y2) && #[trigger] physical_index(x1, y1, o)
                == #[trigger] physical_index(x2, y2, o) ==> x1 == x2 && y1 == y2,
        forall|p: int| #[trigger]
            is_cell(p) ==> exists|x: int, y: int|
                on_grid(x, y) && #[trigger] physical_index(x, y, o) == p,
{
    lemma_index_inverse(o);
    assert forall|p: int| #[trigger] is_cell(p) implies exists|x: int, y: int|
        on_grid(x, y) && #[trigger] physical_index(x, y, o) == p by {
        let c = logical_index(p, o);
        assert(on_grid(c % 8, c / 8));
        assert(physical_index(c % 8, c / 8, o) == p);
    }
}

} // verus!
