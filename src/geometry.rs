//! Coordinates, headings and the board's bounds.
use vstd::prelude::*;

verus! {

/// Side of one square cell of the board, in pixels.
pub const CELL_SIZE: u32 = 20;

/// A cell of the board. The type itself puts no bound on the coordinates.
#[derive(Clone, Copy, Debug, PartialEq, Eq, Structural)]
pub struct Position {
    pub x: i32,
    pub y: i32,
}

impl Position {
    pub fn new(x: i32, y: i32) -> (r: Position)
        ensures
            r.x == x,
            r.y == y,
    {
        Position { x, y }
    }
}

/// A heading of the snake. `Up` lowers `y`, `Down` raises it.
#[derive(Clone, Copy, Debug, PartialEq, Eq, Structural)]
pub enum Direction {
    Up,
    Down,
    Left,
    Right,
}

impl Direction {
    pub open spec fn opposite_spec(self) -> Direction {
        match self {
            Direction::Up => Direction::Down,
            Direction::Down => Direction::Up,
            Direction::Left => Direction::Right,
            Direction::Right => Direction::Left,
        }
    }

    /// The heading that points the other way.
    #[verifier::when_used_as_spec(opposite_spec)]
    pub fn opposite(self) -> (r: Direction)
        ensures
            r == self.opposite_spec(),
    {
        match self {
            Direction::Up => Direction::Down,
            Direction::Down => Direction::Up,
            Direction::Left => Direction::Right,
            Direction::Right => Direction::Left,
        }
    }

    /// Change of `x` for one cell of movement.
    pub open spec fn dx(self) -> int {
        match self {
            Direction::Left => -1,
            Direction::Right => 1,
            _ => 0,
        }
    }

    /// Change of `y` for one cell of movement.
    pub open spec fn dy(self) -> int {
        match self {
            Direction::Up => -1,
            Direction::Down => 1,
            _ => 0,
        }
    }
}

/// Whether the neighbour of `p` in direction `d` has coordinates that fit in `i32`.
pub open spec fn can_step(p: Position, d: Direction) -> bool {
    i32::MIN <= p.x + d.dx() <= i32::MAX && i32::MIN <= p.y + d.dy() <= i32::MAX
}

/// The neighbour of `p` in direction `d`.
pub open spec fn stepped(p: Position, d: Direction) -> Position {
    Position { x: (p.x + d.dx()) as i32, y: (p.y + d.dy()) as i32 }
}

/// The neighbour of `p` in direction `d`, or `None` where a coordinate would leave `i32`.
pub fn step(p: Position, d: Direction) -> (r: Option<Position>)
    ensures
        r == (if can_step(p, d) { Some(stepped(p, d)) } else { None::<Position> }),
{
    match d {
        Direction::Left => if p.x > i32::MIN {
            Some(Position { x: p.x - 1, y: p.y })
        } else {
            None
        },
        Direction::Right => if p.x < i32::MAX {
            Some(Position { x: p.x + 1, y: p.y })
        } else {
            None
        },
        Direction::Up => if p.y > i32::MIN {
            Some(Position { x: p.x, y: p.y - 1 })
        } else {
            None
        },
        Direction::Down => if p.y < i32::MAX {
            Some(Position { x: p.x, y: p.y + 1 })
        } else {
            None
        },
    }
}

/// Number of whole cells along an axis of `axis_pixels` pixels (floor division).
pub fn cell_count(axis_pixels: u32, cell_size: u32) -> (r: u32)
    requires
        cell_size > 0,
    ensures
        r == axis_pixels / cell_size,
{
    axis_pixels / cell_size
}

/// The board: `width` by `height` cells, from `(0, 0)` to `(width - 1, height - 1)`.
#[derive(Clone, Copy, Debug, PartialEq, Eq, Structural)]
pub struct Grid {
    pub width: i32,
    pub height: i32,
}

impl Grid {
    pub fn new(width: i32, height: i32) -> (r: Grid)
        ensures
            r.width == width,
            r.height == height,
    {
        Grid { width, height }
    }

    /// The board that a window of the given pixel size holds, at `CELL_SIZE` pixels per cell.
    pub fn from_pixels(width_pixels: u32, height_pixels: u32) -> (r: Grid)
        ensures
            r.width == width_pixels / CELL_SIZE,
            r.height == height_pixels / CELL_SIZE,
    {
        let w = cell_count(width_pixels, CELL_SIZE);
        let h = cell_count(height_pixels, CELL_SIZE);
        Grid { width: w as i32, height: h as i32 }
    }

    pub open spec fn contains(self, p: Position) -> bool {
        0 <= p.x < self.width && 0 <= p.y < self.height
    }

    /// Whether `p` lies on the board.
    pub fn in_bounds(&self, p: Position) -> (r: bool)
        ensures
            r == self.contains(p),
    {
        0 <= p.x && p.x < self.width && 0 <= p.y && p.y < self.height
    }
}

} // verus!
