//! The game state and its transitions. Turning changes the heading; a tick
//! moves the snake one cell, lets it grow where it has reached the apple,
//! and ends the game where it runs into itself.

use vstd::prelude::*;
use vstd::set_lib::{lemma_int_range, lemma_len_subset, set_int_range};
use std::collections::VecDeque;
use crate::direction::Direction;
use crate::grid::{
    cell, cell_number, lemma_step_stays_in_playfield, random_point, Position, HEIGHT, WIDTH,
};

verus! {

/// Milliseconds between two ticks when a game starts.
pub const INITIAL_TICK: u64 = 600;

/// Milliseconds by which the tick interval shrinks per apple.
pub const TICK_DECREMENT: u64 = 25;

/// Shortest tick interval, in milliseconds.
pub const MIN_TICK: u64 = 90;

/// The tick interval after one more apple: `TICK_DECREMENT` less, but never
/// under `MIN_TICK`.
pub open spec fn faster(tick: nat) -> nat {
    if tick - TICK_DECREMENT > MIN_TICK {
        (tick - TICK_DECREMENT) as nat
    } else {
        MIN_TICK as nat
    }
}

/// The mathematical state of a game. `body[0]` is the snake's head, the
/// last element its tail.
pub struct GameView {
    pub body: Seq<Position>,
    pub direction: Direction,
    pub apple: Position,
    pub score: nat,
    pub tick: nat,
}

impl GameView {
    /// The state in which every game starts, but for where the apple lies:
    /// three segments in the middle of the grid, heading right.
    pub open spec fn initial(apple: Position) -> GameView {
        GameView {
            body: seq![
                cell(WIDTH / 2, HEIGHT / 2),
                cell(WIDTH / 2 - 1, HEIGHT / 2),
                cell(WIDTH / 2 - 2, HEIGHT / 2),
            ],
            direction: Direction::Right,
            apple,
            score: 0,
            tick: INITIAL_TICK as nat,
        }
    }

    /// What holds of every state of a running game: there is a snake, it and
    /// the apple lie on the playfield, no two segments share a cell, and the
    /// tick interval is not under its floor.
    pub open spec fn valid(self) -> bool {
        &&& self.body.len() > 0
        &&& forall|i: int| 0 <= i < self.body.len() ==> (#[trigger] self.body[i]).in_playfield()
        &&& self.body.no_duplicates()
        &&& self.apple.in_playfield()
        &&& self.tick >= MIN_TICK
    }

    /// The snake's head.
    pub open spec fn head(self) -> Position {
        self.body[0]
    }

    /// The cell that the head enters at the next tick.
    pub open spec fn next_head(self) -> Position {
        self.head().stepped(self.direction)
    }

    /// Whether the next tick runs the head into the snake. The tail counts,
    /// though it would have moved on.
    pub open spec fn collides(self) -> bool {
        self.body.contains(self.next_head())
    }

    /// Whether the snake grows at the next tick: its head lies on the apple
    /// now, having reached it with the tick before.
    pub open spec fn eats(self) -> bool {
        self.head() == self.apple
    }

    /// The state with another heading.
    pub open spec fn heading(self, direction: Direction) -> GameView {
        GameView { direction, ..self }
    }

    /// The state after the turn command `turn`.
    pub open spec fn turned(self, turn: Direction) -> GameView {
        self.heading(self.direction.turned(turn))
    }

    /// The state after one tick, where `fresh_apple` is the cell drawn for
    /// the next apple in case this one is eaten. On a collision nothing
    /// changes.
    pub open spec fn ticked(self, fresh_apple: Position) -> GameView {
        if self.collides() {
            self
        } else if self.eats() {
            GameView {
                body: seq![self.next_head()] + self.body,
                direction: self.direction,
                apple: fresh_apple,
                score: self.score + 1,
                tick: faster(self.tick),
            }
        } else {
            GameView { body: seq![self.next_head()] + self.body.drop_last(), ..self }
        }
    }
}

/// The state made of the given parts.
pub open spec fn state_of(
    body: Seq<Position>,
    direction: Direction,
    apple: Position,
    score: usize,
    tick: u64,
) -> GameView {
    GameView { body, direction, apple, score: score as nat, tick: tick as nat }
}

/// A game of snake.
pub struct SnakeGame {
    snake_buffer: VecDeque<Position>,
    direction: Direction,
    apple: Position,
    score: usize,
    tick: u64,
}

impl View for SnakeGame {
    type V = GameView;

    closed spec fn view(&self) -> GameView {
        GameView {
            body: self.snake_buffer@,
            direction: self.direction,
            apple: self.apple,
            score: self.score as nat,
            tick: self.tick as nat,
        }
    }
}

impl SnakeGame {
    /// Whether the game is in a state that a running game can be in.
    pub open spec fn wf(&self) -> bool {
        self@.valid()
    }

    /// Starts a game with the apple on a cell picked at random.
    pub fn new() -> (game: SnakeGame)
        ensures
            game.wf(),
            game@ == GameView::initial(game@.apple),
    {
        SnakeGame::with_apple(random_point())
    }

    /// Starts a game with the apple on the given cell.
    pub fn with_apple(apple: Position) -> (game: SnakeGame)
        requires
            apple.in_playfield(),
        ensures
            game.wf(),
            game@ == GameView::initial(apple),
    {
        let head_x: i32 = WIDTH / 2;
        let head_y: i32 = HEIGHT / 2;
        let mut snake_buffer: VecDeque<Position> = VecDeque::new();
        snake_buffer.push_front(Position { x: head_x - 2, y: head_y });
        snake_buffer.push_front(Position { x: head_x - 1, y: head_y });
        snake_buffer.push_front(Position { x: head_x, y: head_y });
        let game = SnakeGame {
            snake_buffer,
            direction: Direction::Right,
            apple,
            score: 0,
            tick: INITIAL_TICK,
        };
        assert(game@.body =~= GameView::initial(apple).body);
        game
    }

    /// Builds a game in a given state: `body` from head to tail, the
    /// heading, the apple, the score and the tick interval in milliseconds.
    /// Returns `None` exactly where that is no state of a running game.
    pub fn from_parts(
        body: Vec<Position>,
        direction: Direction,
        apple: Position,
        score: usize,
        tick: u64,
    ) -> (game: Option<SnakeGame>)
        ensures
            game is Some <==> state_of(body@, direction, apple, score, tick).valid(),
            game matches Some(g) ==> g@ == state_of(body@, direction, apple, score, tick) && g.wf(),
    {
        if body.len() == 0 || !apple.is_in_playfield() || tick < MIN_TICK {
            return None;
        }
        let mut game = SnakeGame { snake_buffer: VecDeque::new(), direction, apple, score, tick };
        let n: usize = body.len();
        let mut i: usize = 0;
        while i < n
            invariant
                n == body@.len(),
                i <= n,
                game.snake_buffer@ == body@.subrange(0, i as int),
                game.direction == direction,
                game.apple == apple,
                game.score == score,
                game.tick == tick,
                game.snake_buffer@.no_duplicates(),
                forall|j: int| 0 <= j < i ==> (#[trigger] body@[j]).in_playfield(),
            decreases n - i,
        {
            let segment: Position = body[i];
            if !segment.is_in_playfield() {
                return None;
            }
            if game.occupies(segment) {
                proof {
                    let j = choose|j: int| 0 <= j < i && body@.subrange(0, i as int)[j] == segment;
                    assert(body@[j] == body@[i as int]);
                }
                return None;
            }
            game.snake_buffer.push_back(segment);
            proof {
                let longer = body@.subrange(0, i + 1);
                assert(game.snake_buffer@ =~= longer);
                assert forall|j: int, k: int|
                    0 <= j < longer.len() && 0 <= k < longer.len() && j != k implies longer[j]
                    != longer[k] by {
                    let shorter = body@.subrange(0, i as int);
                    if j < i && k < i {
                        assert(shorter[j] == longer[j] && shorter[k] == longer[k]);
                    } else if j < i {
                        assert(shorter[j] == longer[j]);
                    } else if k < i {
                        assert(shorter[k] == longer[k]);
                    }
                }
            }
            i += 1;
        }
        assert(body@.subrange(0, n as int) =~= body@);
        Some(game)
    }

    /// Applies a turn command: `Left` and `Right` rotate the heading by a
    /// quarter turn, anything else leaves it as it is.
    pub fn turn(&mut self, dir: Direction)
        ensures
            final(self)@ == old(self)@.turned(dir),
            old(self).wf() ==> final(self).wf(),
    {
        self.direction = self.direction.rotate(dir);
    }

    /// Sets the heading, whatever it was.
    pub fn set_dir(&mut self, dir: Direction)
        ensures
            final(self)@ == old(self)@.heading(dir),
            old(self).wf() ==> final(self).wf(),
    {
        self.direction = dir;
    }

    /// The number of apples eaten.
    pub fn score(&self) -> (score: usize)
        ensures
            score == self@.score,
    {
        self.score
    }

    /// The time between two ticks, in milliseconds.
    pub fn tick_millis(&self) -> (millis: u64)
        ensures
            millis == self@.tick,
    {
        self.tick
    }

    /// The cell of the apple.
    pub fn apple(&self) -> (apple: Position)
        ensures
            apple == self@.apple,
    {
        self.apple
    }

    /// The heading.
    pub fn direction(&self) -> (direction: Direction)
        ensures
            direction == self@.direction,
    {
        self.direction
    }

    /// The number of segments.
    pub fn len(&self) -> (len: usize)
        ensures
            len == self@.body.len(),
    {
        self.snake_buffer.len()
    }

    /// The segment at `index`, counted from the head, if there is one.
    pub fn segment(&self, index: usize) -> (segment: Option<Position>)
        ensures
            segment == if index < self@.body.len() {
                Some(self@.body[index as int])
            } else {
                None
            },
    {
        if index < self.snake_buffer.len() {
            Some(self.snake_buffer[index])
        } else {
            None
        }
    }

    /// The segments from head to tail.
    pub fn body(&self) -> (body: Vec<Position>)
        ensures
            body@ == self@.body,
    {
        let n: usize = self.snake_buffer.len();
        let mut body: Vec<Position> = Vec::new();
        let mut i: usize = 0;
        while i < n
            invariant
                n == self.snake_buffer@.len(),
                i <= n,
                body@ == self.snake_buffer@.subrange(0, i as int),
            decreases n - i,
        {
            body.push(self.snake_buffer[i]);
            assert(body@ =~= self.snake_buffer@.subrange(0, i + 1));
            i += 1;
        }
        assert(self.snake_buffer@.subrange(0, n as int) =~= self.snake_buffer@);
        body
    }

    /// Tests whether a segment of the snake lies on `cell`.
    pub fn occupies(&self, cell: Position) -> (found: bool)
        ensures
            found == self@.body.contains(cell),
    {
        let n: usize = self.snake_buffer.len();
        let mut i: usize = 0;
        while i < n
            invariant
                n == self.snake_buffer@.len(),
                i <= n,
                forall|j: int| 0 <= j < i ==> self.snake_buffer@[j] != cell,
            decreases n - i,
        {
            let segment: Position = self.snake_buffer[i];
            if segment.x == cell.x && segment.y == cell.y {
                return true;
            }
            i += 1;
        }
        false
    }

    /// Advances the game by one tick, with `fresh_apple` as the cell of the
    /// next apple in case the snake has reached this one. Returns whether
    /// the snake is still alive; where it is not, nothing has changed.
    ///
    /// The score must have room for one more apple.
    pub fn advance(&mut self, fresh_apple: Position) -> (alive: bool)
        requires
            old(self).wf(),
            fresh_apple.in_playfield(),
            old(self)@.score < usize::MAX,
        ensures
            alive == !old(self)@.collides(),
            final(self)@ == old(self)@.ticked(fresh_apple),
            final(self).wf(),
    {
        let current_head: Position = self.snake_buffer[0];
        let new_head: Position = current_head.step(self.direction);
        if self.occupies(new_head) {
            return false;
        }
        let ghost before = self.snake_buffer@;
        if current_head.x == self.apple.x && current_head.y == self.apple.y {
            self.apple = fresh_apple;
            self.score += 1;
            self.tick = if self.tick > MIN_TICK + TICK_DECREMENT {
                self.tick - TICK_DECREMENT
            } else {
                MIN_TICK
            };
        } else {
            self.snake_buffer.pop_back();
        }
        self.snake_buffer.push_front(new_head);
        proof {
            lemma_step_stays_in_playfield(current_head, self.direction);
            lemma_prepend_keeps_body(before, new_head);
            lemma_prepend_keeps_body(before.drop_last(), new_head);
        }
        true
    }

    /// Advances the game by one tick. Returns whether the snake is still
    /// alive; where it is not, nothing has changed. Where the snake has
    /// reached the apple, the next one lies on a cell picked at random, and
    /// the state is that of `advance` with that cell.
    ///
    /// The score must have room for one more apple.
    pub fn tick(&mut self) -> (alive: bool)
        requires
            old(self).wf(),
            old(self)@.score < usize::MAX,
        ensures
            alive == !old(self)@.collides(),
            final(self)@ == old(self)@.ticked(final(self)@.apple),
            final(self).wf(),
    {
        let fresh_apple: Position = if self.head_on_apple() {
            random_point()
        } else {
            self.apple
        };
        self.advance(fresh_apple)
    }

    /// Tests whether the head lies on the apple.
    pub fn head_on_apple(&self) -> (eats: bool)
        requires
            self.wf(),
        ensures
            eats == self@.eats(),
    {
        let head: Position = self.snake_buffer[0];
        head.x == self.apple.x && head.y == self.apple.y
    }
}

/// A tick on which the snake neither dies nor eats moves it: the new head
/// goes in front, the tail leaves, every other segment takes the place of
/// the one before it, and length, score, apple and tick interval stay.
pub proof fn lemma_tick_moves(s: GameView, fresh_apple: Position)
    requires
        s.valid(),
        !s.collides(),
        !s.eats(),
    ensures
        s.ticked(fresh_apple).body == seq![s.next_head()] + s.body.drop_last(),
        s.ticked(fresh_apple).body.len() == s.body.len(),
        forall|i: int| 0 < i < s.body.len() ==> s.ticked(fresh_apple).body[i] == s.body[i - 1],
        s.ticked(fresh_apple).score == s.score,
        s.ticked(fresh_apple).tick == s.tick,
        s.ticked(fresh_apple).apple == s.apple,
        s.ticked(fresh_apple).direction == s.direction,
{
}

/// A tick that starts with the head on the apple lets the snake grow: the
/// new head goes in front and the tail stays, the score goes up by one, the
/// tick interval shrinks by the decrement down to its floor, and the apple
/// moves to the cell drawn for it.
pub proof fn lemma_tick_grows(s: GameView, fresh_apple: Position)
    requires
        s.valid(),
        !s.collides(),
        s.eats(),
    ensures
        s.ticked(fresh_apple).body == seq![s.next_head()] + s.body,
        s.ticked(fresh_apple).body.len() == s.body.len() + 1,
        s.ticked(fresh_apple).score == s.score + 1,
        s.ticked(fresh_apple).tick == if s.tick - TICK_DECREMENT >= MIN_TICK {
            s.tick - TICK_DECREMENT
        } else {
            MIN_TICK as int
        },
        s.ticked(fresh_apple).apple == fresh_apple,
        s.ticked(fresh_apple).direction == s.direction,
{
}

/// A tick that runs the head into the snake changes nothing at all.
pub proof fn lemma_collision_changes_nothing(s: GameView, fresh_apple: Position)
    requires
        s.valid(),
        s.collides(),
    ensures
        s.ticked(fresh_apple) == s,
{
}

/// Ticks and turns lead from valid states to valid states: in particular
/// the snake never overlaps itself and never leaves the playfield.
pub proof fn lemma_transitions_keep_validity(s: GameView, fresh_apple: Position, turn: Direction)
    requires
        s.valid(),
        fresh_apple.in_playfield(),
    ensures
        s.ticked(fresh_apple).valid(),
        s.turned(turn).valid(),
        s.heading(turn).valid(),
{
    if !s.collides() {
        lemma_step_stays_in_playfield(s.head(), s.direction);
        lemma_prepend_keeps_body(s.body, s.next_head());
        lemma_prepend_keeps_body(s.body.drop_last(), s.next_head());
    }
}

/// The tick interval never grows and never falls under its floor, and the
/// score never falls.
pub proof fn lemma_tick_interval_never_grows(s: GameView, fresh_apple: Position)
    requires
        s.valid(),
    ensures
        MIN_TICK <= s.ticked(fresh_apple).tick <= s.tick,
        s.ticked(fresh_apple).score >= s.score,
{
}

/// A turn changes the heading and nothing else; in particular it cannot
/// reverse the snake.
pub proof fn lemma_turn_changes_heading_only(s: GameView, turn: Direction)
    ensures
        s.turned(turn).body == s.body,
        s.turned(turn).apple == s.apple,
        s.turned(turn).score == s.score,
        s.turned(turn).tick == s.tick,
        s.turned(turn).direction != s.direction.opposite(),
{
}

/// The snake never outgrows the playfield: a valid state has at most as
/// many segments as the playfield has cells.
pub proof fn lemma_snake_fits_playfield(s: GameView)
    requires
        s.valid(),
    ensures
        s.body.len() <= WIDTH * HEIGHT,
{
    let numbers = Seq::new(s.body.len(), |i: int| cell_number(s.body[i]));
    assert forall|i: int, j: int|
        0 <= i < numbers.len() && 0 <= j < numbers.len() && i != j implies numbers[i] != numbers[j] by {
        assert(s.body[i].in_playfield() && s.body[j].in_playfield());
        assert(s.body[i] != s.body[j]);
    }
    numbers.unique_seq_to_set();
    let cells = set_int_range(0, WIDTH * HEIGHT);
    lemma_int_range(0, WIDTH * HEIGHT);
    assert forall|n: int| numbers.to_set().contains(n) implies cells.contains(n) by {
        let i = choose|i: int| 0 <= i < numbers.len() && numbers[i] == n;
        assert(s.body[i].in_playfield());
    }
    lemma_len_subset(numbers.to_set(), cells);
}

/// A body of distinct cells on the playfield stays one when a cell of the
/// playfield that is not in it is put in front.
proof fn lemma_prepend_keeps_body(body: Seq<Position>, head: Position)
    requires
        body.no_duplicates(),
        forall|i: int| 0 <= i < body.len() ==> (#[trigger] body[i]).in_playfield(),
        head.in_playfield(),
        !body.contains(head),
    ensures
        (seq![head] + body).no_duplicates(),
        forall|i: int|
            0 <= i < (seq![head] + body).len() ==> (#[trigger] (seq![head] + body)[i]).in_playfield(),
{
    let longer = seq![head] + body;
    assert forall|i: int, j: int| 0 <= i < longer.len() && 0 <= j < longer.len() && i != j implies longer[i]
        != longer[j] by {
        if i > 0 {
            assert(longer[i] == body[i - 1]);
        }
        if j > 0 {
            assert(longer[j] == body[j - 1]);
        }
    }
    assert forall|i: int| 0 <= i < longer.len() implies (#[trigger] longer[i]).in_playfield() by {
        if i > 0 {
            assert(longer[i] == body[i - 1]);
        }
    }
}

} // verus!
