//! The snake's heading and the two relative turns.

use vstd::prelude::*;

verus! {

/// A heading on the grid. `Left` and `Right` double as the two turn
/// commands: a turn is relative to the current heading.
#[derive(Clone, Copy, PartialEq, Eq, Debug, Structural)]
pub enum Direction {
    Up,
    Down,
    Left,
    Right,
}

impl Direction {
    /// The heading that points the other way.
    pub open spec fn opposite(self) -> Direction {
        match self {
            Direction::Up => Direction::Down,
            Direction::Down => Direction::Up,
            Direction::Left => Direction::Right,
            Direction::Right => Direction::Left,
        }
    }

    /// The heading after a quarter turn to the left.
    pub open spec fn left_of(self) -> Direction {
        match self {
            Direction::Left => Direction::Down,
            Direction::Right => Direction::Up,
            Direction::Up => Direction::Left,
            Direction::Down => Direction::Right,
        }
    }

    /// The heading after a quarter turn to the right.
    pub open spec fn right_of(self) -> Direction {
        match self {
            Direction::Left => Direction::Up,
            Direction::Right => Direction::Down,
            Direction::Up => Direction::Right,
            Direction::Down => Direction::Left,
        }
    }

    /// The heading after the turn `turn`: a quarter turn for `Left` and
    /// `Right`, the heading itself for anything else.
    pub open spec fn turned(self, turn: Direction) -> Direction {
        match turn {
            Direction::Left => self.left_of(),
            Direction::Right => self.right_of(),
            _ => self,
        }
    }

    /// Whether the heading runs along the x axis.
    pub open spec fn is_horizontal(self) -> bool {
        self == Direction::Left || self == Direction::Right
    }

    /// Computes the heading after the turn `turn`.
    pub fn rotate(self, turn: Direction) -> (r: Direction)
        ensures
            r == self.turned(turn),
    {
        match (turn, self) {
            (Direction::Left, Direction::Left) => Direction::Down,
            (Direction::Left, Direction::Right) => Direction::Up,
            (Direction::Left, Direction::Up) => Direction::Left,
            (Direction::Left, Direction::Down) => Direction::Right,
            (Direction::Right, Direction::Left) => Direction::Up,
            (Direction::Right, Direction::Right) => Direction::Down,
            (Direction::Right, Direction::Up) => Direction::Right,
            (Direction::Right, Direction::Down) => Direction::Left,
            (_, heading) => heading,
        }
    }
}

/// A left turn followed by a right turn, or a right turn followed by a left
/// turn, gives back the heading one started from.
pub proof fn lemma_turns_are_inverse(h: Direction)
    ensures
        h.turned(Direction::Left).turned(Direction::Right) == h,
        h.turned(Direction::Right).turned(Direction::Left) == h,
{
}

/// No turn command, whatever it is, reverses the heading.
pub proof fn lemma_turn_never_reverses(h: Direction, turn: Direction)
    ensures
        h.turned(turn) != h.opposite(),
{
}

/// A left or right turn swaps the axis along which the snake moves; any
/// other command keeps the heading.
pub proof fn lemma_turn_is_quarter(h: Direction, turn: Direction)
    ensures
        turn.is_horizontal() ==> h.turned(turn).is_horizontal() != h.is_horizontal(),
        !turn.is_horizontal() ==> h.turned(turn) == h,
{
}

/// Four turns the same way come back to the heading one started from, and
/// two turns the same way reverse it.
pub proof fn lemma_turn_cycle(h: Direction, turn: Direction)
    requires
        turn.is_horizontal(),
    ensures
        h.turned(turn).turned(turn) == h.opposite(),
        h.turned(turn).turned(turn).turned(turn).turned(turn) == h,
{
}

} // verus!
