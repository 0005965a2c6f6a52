use vstd::prelude::*;
use crate::grid::{contains_cell, in_grid, Cell, GRID_EXTENT};

verus! {

/// How many random cells are tried before the grid is scanned in order.
pub const MAX_SAMPLES: u32 = 64;

/// Whether food may be put on `c`: it is on the grid and not occupied.
pub open spec fn is_free(occupied: Seq<Cell>, c: Cell) -> bool {
    in_grid(c) && !occupied.contains(c)
}

/// Whether some cell of the grid is not occupied.
pub open spec fn has_free(occupied: Seq<Cell>) -> bool {
    exists|c: Cell| #[trigger] is_free(occupied, c)
}

/// Position of a cell in row-major order over the grid.
pub open spec fn rank(c: Cell) -> int {
    c.y * GRID_EXTENT + c.x
}

/// Relies on rand's `thread_rng` and `Rng::gen_range(low, high)`, which draws
/// a value from `[low, high)` and panics only when `low >= high`.
#[verifier::external_body]
fn random_below(n: i32) -> (r: i32)
    requires
        n > 0,
    ensures
        0 <= r < n,
{
    rand::Rng::gen_range(&mut rand::thread_rng(), 0i32, n)
}

/// Whether food may be put on `c` while `occupied` is covered.
pub fn is_free_cell(occupied: &Vec<Cell>, c: Cell) -> (r: bool)
    ensures
        r == is_free(occupied@, c),
{
    c.in_grid() && !contains_cell(occupied, c)
}

/// The first free cell in row-major order, or `None` when every cell of the
/// grid is occupied.
pub fn first_free_cell(occupied: &Vec<Cell>) -> (r: Option<Cell>)
    ensures
        r is None <==> !has_free(occupied@),
        r matches Some(c) ==> is_free(occupied@, c) && forall|o: Cell|
            in_grid(o) && rank(o) < rank(c) ==> occupied@.contains(o),
{
    let mut y: i32 = 0;
    while y < GRID_EXTENT
        invariant
            0 <= y <= GRID_EXTENT,
            forall|o: Cell| in_grid(o) && o.y < y ==> occupied@.contains(o),
        decreases GRID_EXTENT - y,
    {
        let mut x: i32 = 0;
        while x < GRID_EXTENT
            invariant
                0 <= x <= GRID_EXTENT,
                0 <= y < GRID_EXTENT,
                forall|o: Cell| in_grid(o) && o.y < y ==> occupied@.contains(o),
                forall|o: Cell| in_grid(o) && o.y == y && o.x < x ==> occupied@.contains(o),
            decreases GRID_EXTENT - x,
        {
            let c = Cell { x, y };
            if !contains_cell(occupied, c) {
                proof {
                    assert(is_free(occupied@, c));
                    assert forall|o: Cell| in_grid(o) && rank(o) < rank(c) implies occupied@.contains(o) by {
                        if o.y >= y {
                            assert(o.y == y);
                        }
                    }
                }
                return Some(c);
            }
            x = x + 1;
        }
        y = y + 1;
    }
    proof {
        assert forall|c: Cell| !#[trigger] is_free(occupied@, c) by {
            if in_grid(c) {
                assert(occupied@.contains(c));
            }
        }
    }
    None
}

/// Picks a cell for the food that `occupied` does not cover.
///
/// A few uniformly random cells of the grid are tried first; if none of them
/// is free, the first free cell in row-major order is taken. `None` comes
/// only when the grid is completely covered.
pub fn place_food(occupied: &Vec<Cell>) -> (r: Option<Cell>)
    ensures
        r is None <==> !has_free(occupied@),
        r matches Some(c) ==> is_free(occupied@, c),
{
    let mut tries: u32 = 0;
    while tries < MAX_SAMPLES
        invariant
            tries <= MAX_SAMPLES,
        decreases MAX_SAMPLES - tries,
    {
        let c = Cell { x: random_below(GRID_EXTENT), y: random_below(GRID_EXTENT) };
        if is_free_cell(occupied, c) {
            assert(has_free(occupied@));
            return Some(c);
        }
        tries = tries + 1;
    }
    first_free_cell(occupied)
}

} // verus!
