//! The playfield: its dimensions, positions on it, and the step that moves
//! a position one cell along a heading with wrap-around at the edges.

use vstd::prelude::*;
use rand::Rng;
use crate::direction::Direction;

verus! {

/// Number of columns. Valid x coordinates are `0..WIDTH`.
pub const WIDTH: i32 = 20;

/// Number of playfield rows. Row 0 holds the status bar, so valid y
/// coordinates are `1..=HEIGHT`.
pub const HEIGHT: i32 = 11;

/// A cell of the grid, or a point of the display where one is scaled up.
#[derive(Clone, Copy, PartialEq, Eq, Debug, Structural)]
pub struct Position {
    pub x: i32,
    pub y: i32,
}

impl Position {
    /// Builds the position `(x, y)`.
    pub fn new(x: i32, y: i32) -> (p: Position)
        ensures
            p == (Position { x, y }),
    {
        Position { x, y }
    }

    /// Whether the position lies on the playfield.
    pub open spec fn in_playfield(self) -> bool {
        0 <= self.x < WIDTH && 1 <= self.y <= HEIGHT
    }

    /// Tests whether the position lies on the playfield.
    pub fn is_in_playfield(&self) -> (b: bool)
        ensures
            b == self.in_playfield(),
    {
        0 <= self.x && self.x < WIDTH && 1 <= self.y && self.y <= HEIGHT
    }

    /// The neighbouring cell along `heading`, re-entering at the opposite
    /// edge where the step leaves the playfield.
    pub open spec fn stepped(self, heading: Direction) -> Position {
        cell(wrap_x(self.x + dx(heading)), wrap_y(self.y + dy(heading)))
    }

    /// Computes the neighbouring cell along `heading`, with wrap-around.
    pub fn step(self, heading: Direction) -> (p: Position)
        ensures
            p == self.stepped(heading),
    {
        let (sx, sy): (i64, i64) = match heading {
            Direction::Up => (0, -1),
            Direction::Down => (0, 1),
            Direction::Left => (-1, 0),
            Direction::Right => (1, 0),
        };
        let mut x: i64 = self.x as i64 + sx;
        let mut y: i64 = self.y as i64 + sy;
        if x >= WIDTH as i64 {
            x = 0;
        } else if x < 0 {
            x = WIDTH as i64 - 1;
        }
        if y > HEIGHT as i64 {
            y = 1;
        } else if y < 1 {
            y = HEIGHT as i64;
        }
        Position { x: x as i32, y: y as i32 }
    }
}

/// The position with the coordinates `x` and `y`.
pub open spec fn cell(x: int, y: int) -> Position {
    Position { x: x as i32, y: y as i32 }
}

/// The number of a playfield cell, counted row by row from the top left.
pub open spec fn cell_number(p: Position) -> int {
    p.x + WIDTH * (p.y - 1)
}

/// Change of the x coordinate in one step along `heading`.
pub open spec fn dx(heading: Direction) -> int {
    match heading {
        Direction::Left => -1,
        Direction::Right => 1,
        _ => 0,
    }
}

/// Change of the y coordinate in one step along `heading`. Rows grow
/// downwards.
pub open spec fn dy(heading: Direction) -> int {
    match heading {
        Direction::Up => -1,
        Direction::Down => 1,
        _ => 0,
    }
}

/// An x coordinate brought back onto the grid: leaving on one side enters on
/// the other.
pub open spec fn wrap_x(x: int) -> int {
    if x >= WIDTH {
        0
    } else if x < 0 {
        WIDTH - 1
    } else {
        x
    }
}

/// A y coordinate brought back into the playfield rows.
pub open spec fn wrap_y(y: int) -> int {
    if y > HEIGHT {
        1
    } else if y < 1 {
        HEIGHT as int
    } else {
        y
    }
}

/// A step from a cell of the playfield ends on the playfield.
pub proof fn lemma_step_stays_in_playfield(p: Position, heading: Direction)
    requires
        p.in_playfield(),
    ensures
        p.stepped(heading).in_playfield(),
{
}

/// On the playfield the grid is a torus: a step adds the heading's offset
/// modulo the width, and modulo the height within the playfield rows.
pub proof fn lemma_step_is_toroidal(p: Position, heading: Direction)
    requires
        p.in_playfield(),
    ensures
        p.stepped(heading).x == (p.x + dx(heading)) % (WIDTH as int),
        p.stepped(heading).y == (p.y - 1 + dy(heading)) % (HEIGHT as int) + 1,
{
}

/// At each edge of the playfield a step outwards enters at the opposite
/// edge, in the same row or column.
pub proof fn lemma_step_wraps_at_edges(p: Position)
    requires
        p.in_playfield(),
    ensures
        p.x == WIDTH - 1 ==> p.stepped(Direction::Right) == cell(0, p.y as int),
        p.x == 0 ==> p.stepped(Direction::Left) == cell(WIDTH - 1, p.y as int),
        p.y == 1 ==> p.stepped(Direction::Up) == cell(p.x as int, HEIGHT as int),
        p.y == HEIGHT ==> p.stepped(Direction::Down) == cell(p.x as int, 1),
{
}

/// On the playfield a step along a heading is undone by a step along the
/// opposite heading, and no step ends where it began.
pub proof fn lemma_step_back(p: Position, heading: Direction)
    requires
        p.in_playfield(),
    ensures
        p.stepped(heading).stepped(heading.opposite()) == p,
        p.stepped(heading) != p,
{
}

/// Draws an integer from `low..high` with `rand::thread_rng().gen_range`.
/// The range must not be empty, since `gen_range` panics on an empty one.
/// All that is claimed of the outcome is that it lies in the range.
#[verifier::external_body]
fn random_in(low: i32, high: i32) -> (n: i32)
    requires
        low < high,
    ensures
        low <= n < high,
{
    rand::thread_rng().gen_range(low..high)
}

/// Picks a cell of the playfield at random. Nothing keeps it off the snake.
pub fn random_point() -> (p: Position)
    ensures
        p.in_playfield(),
{
    let x: i32 = random_in(0, WIDTH);
    let row: i32 = random_in(0, HEIGHT);
    Position { x, y: row + 1 }
}

} // verus!
