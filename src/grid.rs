use vstd::prelude::*;

verus! {

/// Number of cells along each side of the square playing field.
pub const GRID_EXTENT: i32 = 24;

/// A cell of the playing field, addressed by column `x` and row `y`.
#[derive(Clone, Copy, Debug, PartialEq, Eq, Structural)]
pub struct Cell {
    pub x: i32,
    pub y: i32,
}

/// Whether `c` lies on the playing field.
pub open spec fn in_grid(c: Cell) -> bool {
    0 <= c.x < GRID_EXTENT && 0 <= c.y < GRID_EXTENT
}

impl Cell {
    pub fn new(x: i32, y: i32) -> (r: Cell)
        ensures
            r == (Cell { x, y }),
    {
        Cell { x, y }
    }

    /// Whether the cell lies on the playing field.
    pub fn in_grid(&self) -> (r: bool)
        ensures
            r == in_grid(*self),
    {
        0 <= self.x && self.x < GRID_EXTENT && 0 <= self.y && self.y < GRID_EXTENT
    }
}

} // verus!

verus! {

/// Whether `cells` holds `c`, by a scan from the front.
pub fn contains_cell(cells: &Vec<Cell>, c: Cell) -> (r: bool)
    ensures
        r == cells@.contains(c),
{
    let mut i: usize = 0;
    while i < cells.len()
        invariant
            i <= cells@.len(),
            forall|j: int| 0 <= j < i ==> cells@[j] != c,
        decreases cells@.len() - i,
    {
        if cells[i] == c {
            return true;
        }
        i = i + 1;
    }
    false
}

} // verus!
