//! The grid, its cells and the four headings.

use vstd::prelude::*;

verus! {

/// Number of columns of the grid. Column 0 is a border.
pub const WIDTH: u16 = 20;

/// Number of rows of the grid. Row 0 is a border.
pub const HEIGHT: u16 = 20;

/// A heading of the snake.
#[derive(Clone, Copy, PartialEq, Eq, Debug, Structural)]
pub enum Direction {
    Up,
    Down,
    Left,
    Right,
}

/// A cell of the grid: `x` grows rightward, `y` grows downward, `(0, 0)` is
/// the top-left corner.
#[derive(Clone, Copy, PartialEq, Eq, Debug, Structural)]
pub struct Point {
    pub x: u16,
    pub y: u16,
}

/// Whether the coordinates lie off the playable cells: on the low border,
/// before it, or at or past the far edge.
pub open spec fn off_grid(x: int, y: int) -> bool {
    x <= 0 || x >= WIDTH || y <= 0 || y >= HEIGHT
}

/// Whether two cells are one step apart along exactly one axis.
pub open spec fn adjacent(a: Point, b: Point) -> bool {
    ||| (a.y == b.y && (a.x - b.x == 1 || b.x - a.x == 1))
    ||| (a.x == b.x && (a.y - b.y == 1 || b.y - a.y == 1))
}

impl Direction {
    /// The heading that points the other way.
    pub open spec fn opposite(self) -> Direction {
        match self {
            Direction::Up => Direction::Down,
            Direction::Down => Direction::Up,
            Direction::Left => Direction::Right,
            Direction::Right => Direction::Left,
        }
    }

    /// Horizontal part of the unit step.
    pub open spec fn dx(self) -> int {
        match self {
            Direction::Left => -1,
            Direction::Right => 1,
            _ => 0,
        }
    }

    /// Vertical part of the unit step.
    pub open spec fn dy(self) -> int {
        match self {
            Direction::Up => -1,
            Direction::Down => 1,
            _ => 0,
        }
    }
}

impl Point {
    /// Whether the cell is playable.
    pub open spec fn in_play(self) -> bool {
        !off_grid(self.x as int, self.y as int)
    }

    /// The cell one step away in heading `d`, or `None` where that step
    /// leaves the playable cells.
    pub open spec fn moved(self, d: Direction) -> Option<Point> {
        let x = self.x + d.dx();
        let y = self.y + d.dy();
        if off_grid(x, y) {
            None
        } else {
            Some(Point { x: x as u16, y: y as u16 })
        }
    }

    /// Says whether the cell is playable.
    pub fn is_in_play(self) -> (ok: bool)
        ensures
            ok == self.in_play(),
    {
        1 <= self.x && self.x < WIDTH && 1 <= self.y && self.y < HEIGHT
    }

    /// Says whether `other` is one step away along exactly one axis.
    pub fn touches(self, other: Point) -> (ok: bool)
        ensures
            ok == adjacent(self, other),
    {
        let dx: u16 = if self.x >= other.x {
            self.x - other.x
        } else {
            other.x - self.x
        };
        let dy: u16 = if self.y >= other.y {
            self.y - other.y
        } else {
            other.y - self.y
        };
        (dx == 1 && dy == 0) || (dx == 0 && dy == 1)
    }

    /// Takes one step in heading `d`. A step onto or across a border gives
    /// `None`; the coordinates never wrap.
    pub fn step(self, d: Direction) -> (r: Option<Point>)
        ensures
            r == self.moved(d),
    {
        match d {
            Direction::Up => {
                if self.y <= 1 || self.y > HEIGHT || self.x == 0 || self.x >= WIDTH {
                    None
                } else {
                    Some(Point { x: self.x, y: self.y - 1 })
                }
            },
            Direction::Down => {
                if self.y >= HEIGHT - 1 || self.x == 0 || self.x >= WIDTH {
                    None
                } else {
                    Some(Point { x: self.x, y: self.y + 1 })
                }
            },
            Direction::Left => {
                if self.x <= 1 || self.x > WIDTH || self.y == 0 || self.y >= HEIGHT {
                    None
                } else {
                    Some(Point { x: self.x - 1, y: self.y })
                }
            },
            Direction::Right => {
                if self.x >= WIDTH - 1 || self.y == 0 || self.y >= HEIGHT {
                    None
                } else {
                    Some(Point { x: self.x + 1, y: self.y })
                }
            },
        }
    }
}

} // verus!
