use vstd::prelude::*;

verus! {

/// One of the four directions the snake can travel in.
#[derive(Clone, Copy, Debug, PartialEq, Eq, Structural)]
pub enum Direction {
    Up,
    Down,
    Left,
    Right,
}

impl Direction {
    /// The direction pointing the other way.
    pub open spec fn spec_opposite(self) -> Direction {
        match self {
            Direction::Up => Direction::Down,
            Direction::Down => Direction::Up,
            Direction::Left => Direction::Right,
            Direction::Right => Direction::Left,
        }
    }

    /// Returns the direction pointing the other way.
    pub fn opposite(self) -> (r: Direction)
        ensures
            r == self.spec_opposite(),
    {
        match self {
            Direction::Up => Direction::Down,
            Direction::Down => Direction::Up,
            Direction::Left => Direction::Right,
            Direction::Right => Direction::Left,
        }
    }
}

/// A cell of the board: column `x`, row `y`, with `(0, 0)` at the top left.
#[derive(Clone, Copy, Debug, PartialEq, Eq, Structural)]
pub struct Point {
    pub x: u16,
    pub y: u16,
}

impl Point {
    /// The point lies on a board of the given size.
    pub open spec fn within(self, width: int, height: int) -> bool {
        self.x < width && self.y < height
    }

    /// The cell one step away in direction `d`, as integer coordinates; it may
    /// lie off the board, on either side.
    pub open spec fn neighbour(self, d: Direction) -> (int, int) {
        match d {
            Direction::Up => (self.x as int, self.y - 1),
            Direction::Down => (self.x as int, self.y + 1),
            Direction::Left => (self.x - 1, self.y as int),
            Direction::Right => (self.x + 1, self.y as int),
        }
    }
}

/// The integer coordinates `c` lie on a board of the given size.
pub open spec fn on_board(c: (int, int), width: int, height: int) -> bool {
    0 <= c.0 < width && 0 <= c.1 < height
}

} // verus!
