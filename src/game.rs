//! The game controller: one snake, one food cell, and the per-tick rules.
use vstd::prelude::*;

use crate::collision::{detect, has_self_collision};
use crate::food::{draw_pick, food_choice, free_cells_of, lemma_free_cell, place_food};
use crate::geometry::{can_step, Direction, Grid, Position};
use crate::snake::{grown, moved, turned, Snake};

verus! {

/// Whether the game goes on. `Ended` is final: no tick changes the game any more.
#[derive(Clone, Copy, Debug, PartialEq, Eq, Structural)]
pub enum GameState {
    Running,
    Ended,
}

/// The whole game state.
#[derive(Debug)]
pub struct Game {
    pub grid: Grid,
    pub snake: Snake,
    pub food: Position,
    pub state: GameState,
}

/// What the presentation layer needs to draw a frame.
#[derive(Debug)]
pub struct Snapshot {
    pub body: Vec<Position>,
    pub food: Position,
    pub state: GameState,
}

/// The body of a snake at the start of a game.
pub open spec fn initial_body() -> Seq<Position> {
    seq![Position { x: 0, y: 0 }, Position { x: 0, y: 1 }]
}

/// The food cell after a meal: the cell that `pick` selects, or the old one on a full board.
pub open spec fn food_after_meal(grid: Grid, body: Seq<Position>, pick: usize, old_food: Position) -> Position {
    match food_choice(grid, body, pick) {
        Some(p) => p,
        None => old_food,
    }
}

impl Game {
    pub open spec fn wf(&self) -> bool {
        self.snake.wf()
    }

    /// The direction that a tick with `pending` moves in.
    pub open spec fn next_dir(&self, pending: Option<Direction>) -> Direction {
        match pending {
            Some(d) => turned(self.snake.dir, self.snake.heading, d),
            None => self.snake.dir,
        }
    }

    /// Whether a tick with `pending` keeps the head's coordinates within `i32`.
    pub open spec fn tick_fits_spec(&self, pending: Option<Direction>) -> bool {
        self.state == GameState::Ended || can_step(self.snake.body@[0], self.next_dir(pending))
    }
}

/// `h` is `g` after one tick with the buffered direction `pending`, where a meal puts
/// the food on the free cell that `pick` selects.
pub open spec fn ticked(g: Game, pending: Option<Direction>, pick: usize, h: Game) -> bool {
    let d = g.next_dir(pending);
    let m = moved(g.snake.body@, d);
    if g.state == GameState::Ended {
        &&& h.state == GameState::Ended
        &&& h.grid == g.grid
        &&& h.snake.body@ == g.snake.body@
        &&& h.snake.dir == g.snake.dir
        &&& h.snake.heading == g.snake.heading
        &&& h.food == g.food
    } else {
        &&& h.grid == g.grid
        &&& h.snake.dir == d
        &&& h.snake.heading == d
        &&& if has_self_collision(m) {
            &&& h.state == GameState::Ended
            &&& h.snake.body@ == m
            &&& h.food == g.food
        } else if m.contains(g.food) {
            &&& h.state == GameState::Running
            &&& h.snake.body@ == grown(g.snake.body@, d)
            &&& h.food == food_after_meal(g.grid, grown(g.snake.body@, d), pick, g.food)
        } else {
            &&& h.state == GameState::Running
            &&& h.snake.body@ == m
            &&& h.food == g.food
        }
    }
}

impl Game {
    /// A new game on a board of `width` by `height` cells, where `pick` selects the food
    /// cell among the free ones. The board must hold the two-cell snake and one free cell.
    pub fn with_pick(width: i32, height: i32, pick: usize) -> (r: Game)
        requires
            width >= 1,
            height >= 1,
            width >= 2 || height >= 3,
        ensures
            r.wf(),
            r.grid == (Grid { width, height }),
            r.snake.body@ == initial_body(),
            r.snake.dir == Direction::Right,
            r.snake.heading == Direction::Right,
            r.state == GameState::Running,
            food_choice(r.grid, initial_body(), pick) == Some(r.food),
            r.grid.contains(r.food),
            !r.snake.body@.contains(r.food),
    {
        let grid = Grid::new(width, height);
        let snake = Snake::new();
        proof {
            let spare = if width >= 2 {
                Position { x: 1, y: 0 }
            } else {
                Position { x: 0, y: 2 }
            };
            assert(!initial_body().contains(spare)) by {
                if initial_body().contains(spare) {
                    let k = choose|k: int| 0 <= k < 2 && initial_body()[k] == spare;
                }
            }
            lemma_free_cell(grid, initial_body(), spare);
        }
        let food = match place_food(&grid, &snake.body, pick) {
            Some(p) => p,
            None => Position { x: 0, y: 0 },
        };
        Game { grid, snake, food, state: GameState::Running }
    }

    /// A new game on a board of `width` by `height` cells, with the food on a free cell
    /// drawn at random.
    pub fn new(width: i32, height: i32) -> (r: Game)
        requires
            width >= 1,
            height >= 1,
            width >= 2 || height >= 3,
        ensures
            r.wf(),
            r.grid == (Grid { width, height }),
            r.snake.body@ == initial_body(),
            r.snake.dir == Direction::Right,
            r.snake.heading == Direction::Right,
            r.state == GameState::Running,
            r.grid.contains(r.food),
            !r.snake.body@.contains(r.food),
    {
        let pick = draw_pick();
        Game::with_pick(width, height, pick)
    }

    /// Whether a tick with `pending` keeps the head's coordinates within `i32`.
    pub fn tick_fits(&self, pending: Option<Direction>) -> (r: bool)
        requires
            self.wf(),
        ensures
            r == self.tick_fits_spec(pending),
    {
        if self.state == GameState::Ended {
            return true;
        }
        let d = match pending {
            Some(req) => if req != self.snake.dir.opposite() && req
                != self.snake.heading.opposite() {
                req
            } else {
                self.snake.dir
            },
            None => self.snake.dir,
        };
        crate::geometry::step(self.snake.body[0], d).is_some()
    }

    /// One tick: take the buffered direction, move, then check. A self-collision ends the
    /// game; otherwise a meal puts the removed tail cell back and moves the food to the
    /// free cell that `pick` selects (it stays where it is on a full board).
    pub fn tick_with_pick(&mut self, pending: Option<Direction>, pick: usize)
        requires
            old(self).wf(),
            old(self).tick_fits_spec(pending),
        ensures
            final(self).wf(),
            ticked(*old(self), pending, pick, *final(self)),
    {
        if self.state == GameState::Ended {
            return;
        }
        match pending {
            Some(d) => self.snake.set_direction(d),
            None => {},
        }
        let tail = self.snake.advance();
        let outcome = detect(&self.snake.body, self.food);
        if outcome.self_collision {
            self.state = GameState::Ended;
        } else if outcome.food_eaten {
            self.snake.restore_tail(tail);
            let ghost d = old(self).next_dir(pending);
            assert(self.snake.body@ =~= grown(old(self).snake.body@, d));
            match place_food(&self.grid, &self.snake.body, pick) {
                Some(p) => self.food = p,
                None => {},
            }
        }
    }

    /// A read-only copy of what a frame shows: the body head first, the food, the state.
    pub fn snapshot(&self) -> (r: Snapshot)
        ensures
            r.body@ == self.snake.body@,
            r.food == self.food,
            r.state == self.state,
    {
        let n = self.snake.body.len();
        let mut body: Vec<Position> = Vec::new();
        let mut i: usize = 0;
        while i < n
            invariant
                n == self.snake.body@.len(),
                0 <= i <= n,
                body@ == self.snake.body@.subrange(0, i as int),
            decreases n - i,
        {
            body.push(self.snake.body[i]);
            i += 1;
            assert(body@ =~= self.snake.body@.subrange(0, i as int));
        }
        assert(body@ =~= self.snake.body@);
        Snapshot { body, food: self.food, state: self.state }
    }

    /// One tick, with the food, after a meal, on a free cell drawn at random.
    pub fn tick(&mut self, pending: Option<Direction>)
        requires
            old(self).wf(),
            old(self).tick_fits_spec(pending),
        ensures
            final(self).wf(),
            exists|pick: usize| ticked(*old(self), pending, pick, *final(self)),
    {
        let pick = draw_pick();
        self.tick_with_pick(pending, pick);
    }
}

/// A tick that meets neither food nor the snake itself moves the snake by one cell: the
/// length stays, the head moves one cell in the direction of the tick, and each other
/// segment takes the cell of the one before it, so the old tail cell is left.
pub proof fn lemma_plain_tick_translates(g: Game, pending: Option<Direction>, pick: usize, h: Game)
    requires
        g.wf(),
        g.state == GameState::Running,
        g.tick_fits_spec(pending),
        ticked(g, pending, pick, h),
        !has_self_collision(moved(g.snake.body@, g.next_dir(pending))),
        !moved(g.snake.body@, g.next_dir(pending)).contains(g.food),
    ensures
        h.state == GameState::Running,
        h.snake.body@.len() == g.snake.body@.len(),
        h.snake.body@[0].x == g.snake.body@[0].x + g.next_dir(pending).dx(),
        h.snake.body@[0].y == g.snake.body@[0].y + g.next_dir(pending).dy(),
        forall|i: int| 1 <= i < h.snake.body@.len() ==> h.snake.body@[i] == g.snake.body@[i - 1],
        h.food == g.food,
{
}

/// A tick that eats the food (and meets no segment of the snake) makes the snake one cell
/// longer and puts the food on a new cell of the board that no segment covers, provided
/// the grown snake leaves a cell of the board free.
pub proof fn lemma_meal_grows(g: Game, pending: Option<Direction>, pick: usize, h: Game)
    requires
        g.wf(),
        g.state == GameState::Running,
        g.tick_fits_spec(pending),
        ticked(g, pending, pick, h),
        !has_self_collision(moved(g.snake.body@, g.next_dir(pending))),
        moved(g.snake.body@, g.next_dir(pending)).contains(g.food),
        free_cells_of(g.grid, h.snake.body@).len() > 0,
    ensures
        h.state == GameState::Running,
        h.snake.body@.len() == g.snake.body@.len() + 1,
        h.grid.contains(h.food),
        !h.snake.body@.contains(h.food),
        h.food != g.food,
{
    let d = g.next_dir(pending);
    let m = moved(g.snake.body@, d);
    let k = choose|k: int| 0 <= k < m.len() && m[k] == g.food;
    assert(h.snake.body@[k] == g.food);
    let free = free_cells_of(g.grid, h.snake.body@);
    let i = pick as int % free.len() as int;
    assert(free.contains(free[i]));
    lemma_free_cell(g.grid, h.snake.body@, free[i]);
}

} // verus!
