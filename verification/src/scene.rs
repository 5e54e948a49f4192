//! What a frame shows, in display pixels: the status band with its
//! separator and the score, the apple, and the snake's segments.

use vstd::prelude::*;
use crate::game::{GameView, SnakeGame};
use crate::grid::{cell, Position, HEIGHT, WIDTH};

verus! {

/// Side of a grid cell in pixels.
pub const CELL: i32 = 20;

/// Width of the display in pixels.
pub const DISPLAY_WIDTH: i32 = 400;

/// Height of the display in pixels: the status band and the playfield rows.
pub const DISPLAY_HEIGHT: i32 = 240;

/// Where the score text is anchored in the status band.
pub const SCORE_ANCHOR_X: i32 = 10;

/// Baseline of the score text in the status band.
pub const SCORE_ANCHOR_Y: i32 = 15;

impl Position {
    /// The top left pixel of the cell.
    pub open spec fn scaled(self) -> Position {
        cell(self.x * CELL, self.y * CELL)
    }

    /// Computes the top left pixel of the cell. The pixel's coordinates
    /// must fit the coordinate type.
    pub fn to_pixels(self) -> (pixel: Position)
        requires
            i32::MIN <= self.x * CELL <= i32::MAX,
            i32::MIN <= self.y * CELL <= i32::MAX,
        ensures
            pixel == self.scaled(),
    {
        Position { x: self.x * CELL, y: self.y * CELL }
    }
}

/// A frame to draw. All positions are in pixels.
#[derive(Debug)]
pub struct Scene {
    /// The score to write into the status band.
    pub score: usize,
    /// Where the score text is anchored.
    pub score_anchor: Position,
    /// First end of the line under the status band.
    pub separator_start: Position,
    /// Second end of the line under the status band.
    pub separator_end: Position,
    /// Top left pixel of the apple's image.
    pub apple: Position,
    /// Top left pixels of the squares that hold the segments' discs, from
    /// head to tail.
    pub segments: Vec<Position>,
    /// Diameter of a segment's disc.
    pub diameter: u32,
}

impl Scene {
    /// Whether this frame is the picture of the state `s`.
    pub open spec fn depicts(&self, s: GameView) -> bool {
        &&& self.score == s.score
        &&& self.score_anchor == cell(SCORE_ANCHOR_X as int, SCORE_ANCHOR_Y as int)
        &&& self.separator_start == cell(0, CELL - 1)
        &&& self.separator_end == cell(DISPLAY_WIDTH - 1, CELL - 1)
        &&& self.apple == s.apple.scaled()
        &&& self.segments@.len() == s.body.len()
        &&& forall|i: int| 0 <= i < s.body.len() ==> self.segments@[i] == (#[trigger] s.body[i]).scaled()
        &&& self.diameter == CELL
    }
}

impl SnakeGame {
    /// Lays out the frame that shows the game.
    pub fn scene(&self) -> (scene: Scene)
        requires
            self.wf(),
        ensures
            scene.depicts(self@),
    {
        let body: Vec<Position> = self.body();
        let mut segments: Vec<Position> = Vec::new();
        let n: usize = body.len();
        let mut i: usize = 0;
        while i < n
            invariant
                n == body@.len(),
                i <= n,
                body@ == self@.body,
                self@.valid(),
                segments@.len() == i,
                forall|j: int| 0 <= j < i ==> segments@[j] == (#[trigger] body@[j]).scaled(),
            decreases n - i,
        {
            assert(body@[i as int].in_playfield());
            segments.push(body[i].to_pixels());
            i += 1;
        }
        Scene {
            score: self.score(),
            score_anchor: Position { x: SCORE_ANCHOR_X, y: SCORE_ANCHOR_Y },
            separator_start: Position { x: 0, y: CELL - 1 },
            separator_end: Position { x: DISPLAY_WIDTH - 1, y: CELL - 1 },
            apple: self.apple().to_pixels(),
            segments,
            diameter: CELL as u32,
        }
    }
}

/// The square of a playfield cell lies on the display and under the status
/// band.
pub proof fn lemma_cells_fit_display(p: Position)
    requires
        p.in_playfield(),
    ensures
        0 <= p.scaled().x,
        p.scaled().x + CELL <= DISPLAY_WIDTH,
        CELL <= p.scaled().y,
        p.scaled().y + CELL <= DISPLAY_HEIGHT,
{
}

/// The squares of two different playfield cells do not overlap: they are
/// at least a cell's side apart along one axis.
pub proof fn lemma_cells_do_not_overlap(p: Position, q: Position)
    requires
        p.in_playfield(),
        q.in_playfield(),
        p != q,
    ensures
        p.scaled().x + CELL <= q.scaled().x || q.scaled().x + CELL <= p.scaled().x || p.scaled().y
            + CELL <= q.scaled().y || q.scaled().y + CELL <= p.scaled().y,
{
}

/// The grid fills the display: as many cells across as the display is wide,
/// and the playfield rows plus the status band down.
pub proof fn lemma_grid_fills_display()
    ensures
        WIDTH * CELL == DISPLAY_WIDTH,
        (HEIGHT + 1) * CELL == DISPLAY_HEIGHT,
{
}

} // verus!
