//! The four directions in which the snake can travel.

use vstd::prelude::*;

verus! {

/// A unit step along one axis.  Columns grow to the right and rows grow
/// downwards, so `Up` is the vector `(0, -1)`.
#[derive(Clone, Copy, Debug, PartialEq, Eq, Structural)]
pub enum Direction {
    Up,
    Down,
    Left,
    Right,
}

impl Direction {
    /// The step along the columns: -1, 0 or 1.
    pub open spec fn dx(self) -> int {
        match self {
            Direction::Left => -1,
            Direction::Right => 1,
            _ => 0,
        }
    }

    /// The step along the rows: -1, 0 or 1.
    pub open spec fn dy(self) -> int {
        match self {
            Direction::Up => -1,
            Direction::Down => 1,
            _ => 0,
        }
    }

    /// The reverse of this direction; in contracts, written `opposite()`.
    pub open spec fn spec_opposite(self) -> Direction {
        match self {
            Direction::Up => Direction::Down,
            Direction::Down => Direction::Up,
            Direction::Left => Direction::Right,
            Direction::Right => Direction::Left,
        }
    }

    /// The square one step from `pos`.
    pub open spec fn target(self, pos: (usize, usize)) -> (int, int) {
        (pos.0 + self.dx(), pos.1 + self.dy())
    }

    /// The direction whose vector is the negation of this one's.
    #[verifier::when_used_as_spec(spec_opposite)]
    pub fn opposite(self) -> (d: Direction)
        ensures
            d == self.spec_opposite(),
            d.dx() == -self.dx(),
            d.dy() == -self.dy(),
    {
        match self {
            Direction::Up => Direction::Down,
            Direction::Down => Direction::Up,
            Direction::Left => Direction::Right,
            Direction::Right => Direction::Left,
        }
    }

    /// This direction as a vector `(dx, dy)`.
    pub fn vector(self) -> (v: (i8, i8))
        ensures
            v.0 == self.dx(),
            v.1 == self.dy(),
    {
        match self {
            Direction::Up => (0, -1),
            Direction::Down => (0, 1),
            Direction::Left => (-1, 0),
            Direction::Right => (1, 0),
        }
    }

    /// The direction with vector `(dx, dy)`, if the vector is one of the
    /// four unit steps.
    pub fn from_vector(dx: i8, dy: i8) -> (d: Option<Direction>)
        ensures
            match d {
                Some(d) => d.dx() == dx && d.dy() == dy,
                None => forall|d: Direction| !(d.dx() == dx && d.dy() == dy),
            },
    {
        if dx == 0 && dy == -1 {
            Some(Direction::Up)
        } else if dx == 0 && dy == 1 {
            Some(Direction::Down)
        } else if dx == -1 && dy == 0 {
            Some(Direction::Left)
        } else if dx == 1 && dy == 0 {
            Some(Direction::Right)
        } else {
            None
        }
    }

    /// Moves `pos` one square in this direction.
    pub fn step(self, pos: (usize, usize)) -> (next: (usize, usize))
        requires
            1 <= pos.0 < usize::MAX,
            1 <= pos.1 < usize::MAX,
        ensures
            (next.0 as int, next.1 as int) == self.target(pos),
    {
        match self {
            Direction::Up => (pos.0, pos.1 - 1),
            Direction::Down => (pos.0, pos.1 + 1),
            Direction::Left => (pos.0 - 1, pos.1),
            Direction::Right => (pos.0 + 1, pos.1),
        }
    }
}

} // verus!
