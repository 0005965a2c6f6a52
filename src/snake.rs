use vstd::prelude::*;
use crate::grid::{contains_cell, Cell};

verus! {

/// The four headings the snake can move in.
#[derive(Clone, Copy, Debug, PartialEq, Eq, Structural)]
pub enum Direction {
    Right,
    Left,
    Up,
    Down,
}

/// The heading that points the other way.
pub open spec fn opposite(d: Direction) -> Direction {
    match d {
        Direction::Right => Direction::Left,
        Direction::Left => Direction::Right,
        Direction::Up => Direction::Down,
        Direction::Down => Direction::Up,
    }
}

/// Column change of one step; columns grow to the right.
pub open spec fn dx(d: Direction) -> int {
    match d {
        Direction::Left => -1,
        Direction::Right => 1,
        _ => 0,
    }
}

/// Row change of one step; rows grow downwards.
pub open spec fn dy(d: Direction) -> int {
    match d {
        Direction::Up => -1,
        Direction::Down => 1,
        _ => 0,
    }
}

/// Whether the cell next to `c` towards `d` still has `i32` coordinates.
pub open spec fn can_move(c: Cell, d: Direction) -> bool {
    i32::MIN <= c.x + dx(d) <= i32::MAX && i32::MIN <= c.y + dy(d) <= i32::MAX
}

/// The cell next to `c` towards `d`. Nothing keeps it on the grid.
pub open spec fn moved(c: Cell, d: Direction) -> Cell {
    Cell { x: (c.x + dx(d)) as i32, y: (c.y + dy(d)) as i32 }
}

impl Direction {
    /// The heading that points the other way.
    pub fn opposite(self) -> (r: Direction)
        ensures
            r == opposite(self),
    {
        match self {
            Direction::Right => Direction::Left,
            Direction::Left => Direction::Right,
            Direction::Up => Direction::Down,
            Direction::Down => Direction::Up,
        }
    }
}

/// The cell next to `c` towards `d`.
pub fn next_cell(c: Cell, d: Direction) -> (r: Cell)
    requires
        can_move(c, d),
    ensures
        r == moved(c, d),
{
    match d {
        Direction::Left => Cell { x: c.x - 1, y: c.y },
        Direction::Right => Cell { x: c.x + 1, y: c.y },
        Direction::Up => Cell { x: c.x, y: c.y - 1 },
        Direction::Down => Cell { x: c.x, y: c.y + 1 },
    }
}

/// What happened during one step of the snake.
#[derive(Clone, Copy, Debug, PartialEq, Eq, Structural)]
pub struct StepOutcome {
    /// The new head landed on the food.
    pub ate: bool,
    /// Where the head went.
    pub new_head: Cell,
    /// The new head landed on a segment of the body as it was before the step.
    pub collided: bool,
}

/// The body of the snake, head first, and the heading it last moved in.
pub struct Snake {
    body: Vec<Cell>,
    dir: Direction,
}

impl Snake {
    /// The segments, head first.
    pub closed spec fn spec_body(&self) -> Seq<Cell> {
        self.body@
    }

    /// The heading of the last step.
    pub closed spec fn spec_heading(&self) -> Direction {
        self.dir
    }

    /// A snake always has a head.
    pub open spec fn wf(&self) -> bool {
        self.spec_body().len() >= 1
    }

    /// A snake with the given segments, head first, and heading.
    pub fn new(body: Vec<Cell>, dir: Direction) -> (r: Snake)
        requires
            body@.len() >= 1,
        ensures
            r.wf(),
            r.spec_body() == body@,
            r.spec_heading() == dir,
    {
        Snake { body, dir }
    }

    /// The segments, head first.
    pub fn body(&self) -> (r: &Vec<Cell>)
        ensures
            r@ == self.spec_body(),
    {
        &self.body
    }

    /// The heading of the last step.
    pub fn heading(&self) -> (r: Direction)
        ensures
            r == self.spec_heading(),
    {
        self.dir
    }

    /// The head segment.
    pub fn head(&self) -> (r: Cell)
        requires
            self.wf(),
        ensures
            r == self.spec_body()[0],
    {
        self.body[0]
    }

    /// Moves the snake one cell towards `d`.
    ///
    /// When the new head lands on `food`, a copy of the tail is appended
    /// first, so that dropping the tail afterwards leaves the body one
    /// segment longer. The new head is checked against the body before it is
    /// inserted; on a hit the heading falls back to `Right`, otherwise it
    /// becomes `d`. The body moves either way.
    pub fn step(&mut self, d: Direction, food: Cell) -> (r: StepOutcome)
        requires
            old(self).wf(),
            can_move(old(self).spec_body()[0], d),
        ensures
            final(self).wf(),
            r.new_head == moved(old(self).spec_body()[0], d),
            r.ate == (r.new_head == food),
            r.collided == old(self).spec_body().contains(r.new_head),
            r.ate ==> final(self).spec_body() == seq![r.new_head] + old(self).spec_body(),
            !r.ate ==> final(self).spec_body() == seq![r.new_head] + old(self).spec_body().drop_last(),
            r.ate ==> final(self).spec_body().len() == old(self).spec_body().len() + 1,
            !r.ate ==> final(self).spec_body().len() == old(self).spec_body().len(),
            final(self).spec_heading() == (if r.collided { Direction::Right } else { d }),
    {
        let ghost before = self.body@;
        let new_head = next_cell(self.body[0], d);
        let ate = new_head == food;
        if ate {
            let tail = self.body[self.body.len() - 1];
            self.body.push(tail);
        }
        let collided = contains_cell(&self.body, new_head);
        proof {
            if ate {
                assert(self.body@ == before.push(before.last()));
                if self.body@.contains(new_head) {
                    let i = choose|i: int| 0 <= i < self.body@.len() && self.body@[i] == new_head;
                    let j = if i < before.len() { i } else { before.len() - 1 };
                    assert(before[j] == new_head);
                }
                if before.contains(new_head) {
                    let i = choose|i: int| 0 <= i < before.len() && before[i] == new_head;
                    assert(self.body@[i] == new_head);
                }
                assert(self.body@.contains(new_head) == before.contains(new_head));
            }
        }
        self.dir = if collided { Direction::Right } else { d };
        self.body.insert(0, new_head);
        self.body.pop();
        proof {
            if ate {
                assert(self.body@ =~= seq![new_head] + before);
            } else {
                assert(self.body@ =~= seq![new_head] + before.drop_last());
            }
        }
        StepOutcome { ate, new_head, collided }
    }
}

} // verus!
