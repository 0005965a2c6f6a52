use vstd::prelude::*;
use crate::food::{has_free, is_free, place_food};
use crate::grid::Cell;
use crate::snake::{can_move, moved, opposite, Direction, Snake};

verus! {

/// The whole world: the snake, the food, whether the game goes on, and the
/// heading asked for by the player, applied at the next tick.
pub struct Game {
    snake: Snake,
    food: Cell,
    alive: bool,
    pending: Direction,
}

impl Game {
    /// The segments of the snake, head first.
    pub closed spec fn spec_body(&self) -> Seq<Cell> {
        self.snake.spec_body()
    }

    /// The heading the snake last moved in.
    pub closed spec fn spec_heading(&self) -> Direction {
        self.snake.spec_heading()
    }

    /// The heading the next tick will move in.
    pub closed spec fn spec_pending(&self) -> Direction {
        self.pending
    }

    /// The cell of the food.
    pub closed spec fn spec_food(&self) -> Cell {
        self.food
    }

    /// Whether the game goes on.
    pub closed spec fn spec_alive(&self) -> bool {
        self.alive
    }

    /// The snake has a head, and the next tick never turns it right round.
    pub open spec fn wf(&self) -> bool {
        &&& self.spec_body().len() >= 1
        &&& self.spec_pending() != opposite(self.spec_heading())
    }

    /// Whether the next tick keeps the head within `i32` coordinates.
    pub open spec fn spec_can_tick(&self) -> bool {
        self.spec_alive() ==> can_move(self.spec_body()[0], self.spec_pending())
    }

    /// The opening position: a two-segment snake at the top-left corner
    /// heading right, with the food at (4, 4).
    pub fn new() -> (r: Game)
        ensures
            r.wf(),
            r.spec_body() == seq![Cell { x: 0, y: 0 }, Cell { x: 0, y: 1 }],
            r.spec_heading() == Direction::Right,
            r.spec_pending() == Direction::Right,
            r.spec_food() == (Cell { x: 4, y: 4 }),
            r.spec_alive(),
    {
        let body = vec![Cell { x: 0, y: 0 }, Cell { x: 0, y: 1 }];
        Game::from_parts(body, Direction::Right, Cell { x: 4, y: 4 })
    }

    /// A live game with the given segments, head first, heading and food.
    pub fn from_parts(body: Vec<Cell>, heading: Direction, food: Cell) -> (r: Game)
        requires
            body@.len() >= 1,
        ensures
            r.wf(),
            r.spec_body() == body@,
            r.spec_heading() == heading,
            r.spec_pending() == heading,
            r.spec_food() == food,
            r.spec_alive(),
    {
        Game { snake: Snake::new(body, heading), food, alive: true, pending: heading }
    }

    /// The segments of the snake, head first.
    pub fn body(&self) -> (r: &Vec<Cell>)
        ensures
            r@ == self.spec_body(),
    {
        self.snake.body()
    }

    /// The heading the snake last moved in.
    pub fn heading(&self) -> (r: Direction)
        ensures
            r == self.spec_heading(),
    {
        self.snake.heading()
    }

    /// The heading the next tick will move in.
    pub fn pending_heading(&self) -> (r: Direction)
        ensures
            r == self.spec_pending(),
    {
        self.pending
    }

    /// The cell of the food.
    pub fn food(&self) -> (r: Cell)
        ensures
            r == self.spec_food(),
    {
        self.food
    }

    /// Whether the game goes on.
    pub fn is_alive(&self) -> (r: bool)
        ensures
            r == self.spec_alive(),
    {
        self.alive
    }

    /// A copy of what a renderer needs: the segments, head first, the food
    /// and whether the game goes on.
    pub fn snapshot(&self) -> (r: (Vec<Cell>, Cell, bool))
        ensures
            r.0@ == self.spec_body(),
            r.1 == self.spec_food(),
            r.2 == self.spec_alive(),
    {
        let body = self.snake.body();
        let mut segments: Vec<Cell> = Vec::new();
        let mut i: usize = 0;
        while i < body.len()
            invariant
                body@ == self.spec_body(),
                i <= body@.len(),
                segments@ == body@.subrange(0, i as int),
            decreases body@.len() - i,
        {
            segments.push(body[i]);
            i = i + 1;
            assert(segments@ =~= body@.subrange(0, i as int));
        }
        assert(segments@ =~= body@);
        (segments, self.food, self.alive)
    }

    /// Whether the next tick keeps the head within `i32` coordinates.
    pub fn can_tick(&self) -> (r: bool)
        requires
            self.wf(),
        ensures
            r == self.spec_can_tick(),
    {
        if !self.alive {
            return true;
        }
        let h = self.snake.head();
        match self.pending {
            Direction::Left => h.x > i32::MIN,
            Direction::Right => h.x < i32::MAX,
            Direction::Up => h.y > i32::MIN,
            Direction::Down => h.y < i32::MAX,
        }
    }

    /// Asks for a new heading for the next tick. A request for the exact
    /// opposite of the heading the snake last moved in is dropped.
    pub fn set_direction(&mut self, requested: Direction)
        requires
            old(self).wf(),
        ensures
            final(self).wf(),
            final(self).spec_pending() == (if requested == opposite(old(self).spec_heading()) {
                old(self).spec_pending()
            } else {
                requested
            }),
            final(self).spec_pending() != opposite(final(self).spec_heading()),
            final(self).spec_body() == old(self).spec_body(),
            final(self).spec_heading() == old(self).spec_heading(),
            final(self).spec_food() == old(self).spec_food(),
            final(self).spec_alive() == old(self).spec_alive(),
    {
        if requested != self.snake.heading().opposite() {
            self.pending = requested;
        }
    }

    /// Advances the world by one step; a finished game stays as it is.
    ///
    /// The snake moves towards the pending heading. When its new head hit
    /// the body as it was before the move, the game ends and the heading
    /// falls back to `Right`. When the new head lands on the food, the snake
    /// grows by one segment and the food moves to a cell off the new body;
    /// if the body covers the whole grid there is none, and the game ends.
    pub fn tick(&mut self)
        requires
            old(self).wf(),
            old(self).spec_can_tick(),
        ensures
            final(self).wf(),
            !old(self).spec_alive() ==> *final(self) == *old(self),
            old(self).spec_alive() ==> ({
                let head = moved(old(self).spec_body()[0], old(self).spec_pending());
                let ate = head == old(self).spec_food();
                let collided = old(self).spec_body().contains(head);
                let body = final(self).spec_body();
                &&& body[0] == head
                &&& ate ==> body == seq![head] + old(self).spec_body()
                &&& ate ==> body.len() == old(self).spec_body().len() + 1
                &&& !ate ==> body == seq![head] + old(self).spec_body().drop_last()
                &&& !ate ==> body.len() == old(self).spec_body().len()
                &&& !ate ==> final(self).spec_food() == old(self).spec_food()
                &&& ate && has_free(body) ==> is_free(body, final(self).spec_food())
                &&& ate && !has_free(body) ==> final(self).spec_food() == old(self).spec_food()
                &&& final(self).spec_alive() == (!collided && (ate ==> has_free(body)))
                &&& final(self).spec_heading() == (if collided {
                    Direction::Right
                } else {
                    old(self).spec_pending()
                })
                &&& final(self).spec_pending() == final(self).spec_heading()
            }),
    {
        if !self.alive {
            return;
        }
        let heading = self.pending;
        let food = self.food;
        let out = self.snake.step(heading, food);
        if out.collided {
            self.alive = false;
        }
        self.pending = self.snake.heading();
        if out.ate {
            match place_food(self.snake.body()) {
                Some(c) => {
                    self.food = c;
                },
                None => {
                    self.alive = false;
                },
            }
        }
    }
}

} // verus!
