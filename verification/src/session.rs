//! One round of the game loop as a function: from the game and what the
//! input channel gave to the next state and what the caller has to do.

use vstd::prelude::*;
use crate::direction::Direction;
use crate::game::{GameView, SnakeGame};
use crate::grid::{random_point, Position};

verus! {

/// Key code of Escape.
pub const KEY_ESC: u16 = 1;

/// Key code of the letter D.
pub const KEY_D: u16 = 32;

/// Key code of the letter J.
pub const KEY_J: u16 = 36;

/// Key code of the left arrow.
pub const KEY_LEFT: u16 = 105;

/// Key code of the right arrow.
pub const KEY_RIGHT: u16 = 106;

/// What a non-blocking look at the input channel gave.
#[derive(Clone, Copy, PartialEq, Eq, Debug, Structural)]
pub enum Polled {
    /// A key press, by its code.
    Key(u16),
    /// Nothing is waiting.
    Empty,
    /// The sending side is gone for good.
    Disconnected,
}

/// What a key asks for.
#[derive(Clone, Copy, PartialEq, Eq, Debug, Structural)]
pub enum Command {
    TurnLeft,
    TurnRight,
    Quit,
    Nothing,
}

/// Why a game ended.
#[derive(Clone, Copy, PartialEq, Eq, Debug, Structural)]
pub enum Ending {
    /// The player asked to leave.
    Quit,
    /// The input channel was disconnected.
    Disconnected,
    /// The snake ran into itself.
    Collision,
}

/// What the caller does after a round.
#[derive(Clone, Copy, PartialEq, Eq, Debug, Structural)]
pub enum Outcome {
    /// The game goes on: draw it, then wait for so many milliseconds.
    Render { sleep_millis: u64 },
    /// The game is over: neither draw nor wait.
    GameOver(Ending),
}

/// The command bound to a key: D and the left arrow turn left, J and the
/// right arrow turn right, Escape quits, and no other key does anything.
pub open spec fn command_for(key: u16) -> Command {
    if key == KEY_D || key == KEY_LEFT {
        Command::TurnLeft
    } else if key == KEY_J || key == KEY_RIGHT {
        Command::TurnRight
    } else if key == KEY_ESC {
        Command::Quit
    } else {
        Command::Nothing
    }
}

/// Computes the command bound to a key.
pub fn decode(key: u16) -> (command: Command)
    ensures
        command == command_for(key),
{
    if key == KEY_D || key == KEY_LEFT {
        Command::TurnLeft
    } else if key == KEY_J || key == KEY_RIGHT {
        Command::TurnRight
    } else if key == KEY_ESC {
        Command::Quit
    } else {
        Command::Nothing
    }
}

/// The ending that the input alone brings about, if it brings one.
pub open spec fn input_ending(polled: Polled) -> Option<Ending> {
    match polled {
        Polled::Disconnected => Some(Ending::Disconnected),
        Polled::Key(key) => if command_for(key) == Command::Quit {
            Some(Ending::Quit)
        } else {
            None
        },
        Polled::Empty => None,
    }
}

/// The state after the input has been applied and before the tick: at most
/// one turn.
pub open spec fn steered(s: GameView, polled: Polled) -> GameView {
    match polled {
        Polled::Key(key) => match command_for(key) {
            Command::TurnLeft => s.turned(Direction::Left),
            Command::TurnRight => s.turned(Direction::Right),
            _ => s,
        },
        _ => s,
    }
}

/// The state after one round, where `fresh_apple` is the cell drawn for the
/// next apple. An ending by the input leaves the game as it was; otherwise
/// the turn is applied and the game ticks.
pub open spec fn round_state(s: GameView, polled: Polled, fresh_apple: Position) -> GameView {
    if input_ending(polled) is Some {
        s
    } else {
        steered(s, polled).ticked(fresh_apple)
    }
}

/// What the caller is told after one round: the ending where there is one,
/// else to draw and to wait for the tick interval as it is after the tick.
pub open spec fn round_outcome(s: GameView, polled: Polled, fresh_apple: Position) -> Outcome {
    match input_ending(polled) {
        Some(ending) => Outcome::GameOver(ending),
        None => if steered(s, polled).collides() {
            Outcome::GameOver(Ending::Collision)
        } else {
            Outcome::Render { sleep_millis: round_state(s, polled, fresh_apple).tick as u64 }
        },
    }
}

/// Applies what the input channel gave, short of the tick: tells the ending
/// where the input brings one, and turns the snake where it asks for that.
fn apply_input(game: &mut SnakeGame, polled: Polled) -> (ending: Option<Ending>)
    ensures
        ending == input_ending(polled),
        final(game)@ == if ending is Some {
            old(game)@
        } else {
            steered(old(game)@, polled)
        },
        old(game).wf() ==> final(game).wf(),
{
    match polled {
        Polled::Key(key) => match decode(key) {
            Command::TurnLeft => {
                game.turn(Direction::Left);
                None
            },
            Command::TurnRight => {
                game.turn(Direction::Right);
                None
            },
            Command::Quit => Some(Ending::Quit),
            Command::Nothing => None,
        },
        Polled::Disconnected => Some(Ending::Disconnected),
        Polled::Empty => None,
    }
}

/// Plays one round with `fresh_apple` as the cell of the next apple in case
/// the snake has reached this one.
///
/// The score must have room for one more apple.
pub fn step_with(game: &mut SnakeGame, polled: Polled, fresh_apple: Position) -> (outcome: Outcome)
    requires
        old(game).wf(),
        fresh_apple.in_playfield(),
        old(game)@.score < usize::MAX,
    ensures
        final(game)@ == round_state(old(game)@, polled, fresh_apple),
        outcome == round_outcome(old(game)@, polled, fresh_apple),
        final(game).wf(),
{
    match apply_input(game, polled) {
        Some(ending) => Outcome::GameOver(ending),
        None => if game.advance(fresh_apple) {
            Outcome::Render { sleep_millis: game.tick_millis() }
        } else {
            Outcome::GameOver(Ending::Collision)
        },
    }
}

/// Plays one round. Where the snake has reached the apple, the next one
/// lies on a cell picked at random, and state and outcome are those of
/// `step_with` with that cell.
///
/// The score must have room for one more apple.
pub fn step(game: &mut SnakeGame, polled: Polled) -> (outcome: Outcome)
    requires
        old(game).wf(),
        old(game)@.score < usize::MAX,
    ensures
        final(game)@ == round_state(old(game)@, polled, final(game)@.apple),
        outcome == round_outcome(old(game)@, polled, final(game)@.apple),
        final(game).wf(),
{
    match apply_input(game, polled) {
        Some(ending) => Outcome::GameOver(ending),
        None => if game.tick() {
            Outcome::Render { sleep_millis: game.tick_millis() }
        } else {
            Outcome::GameOver(Ending::Collision)
        },
    }
}

/// A round that ends the game leaves snake, apple, score and tick interval
/// as they were, and a round that goes on asks for a wait that is the tick
/// interval of the state it leaves. The tick interval is one that a game
/// can hold, a 64-bit number of milliseconds.
pub proof fn lemma_round_endings(s: GameView, polled: Polled, fresh_apple: Position)
    requires
        s.valid(),
        s.tick <= u64::MAX,
    ensures
        round_outcome(s, polled, fresh_apple) is GameOver ==> {
            &&& round_state(s, polled, fresh_apple).body == s.body
            &&& round_state(s, polled, fresh_apple).apple == s.apple
            &&& round_state(s, polled, fresh_apple).score == s.score
            &&& round_state(s, polled, fresh_apple).tick == s.tick
        },
        round_outcome(s, polled, fresh_apple) matches Outcome::Render { sleep_millis }
            ==> sleep_millis == round_state(s, polled, fresh_apple).tick,
        round_outcome(s, polled, fresh_apple) == Outcome::GameOver(Ending::Collision) <==> input_ending(
            polled,
        ) is None && steered(s, polled).collides(),
{
}

/// A round applies at most one turn, and never reverses the snake.
pub proof fn lemma_round_steers_once(s: GameView, polled: Polled, fresh_apple: Position)
    ensures
        round_state(s, polled, fresh_apple).direction == s.direction || round_state(
            s,
            polled,
            fresh_apple,
        ).direction == s.direction.turned(Direction::Left) || round_state(
            s,
            polled,
            fresh_apple,
        ).direction == s.direction.turned(Direction::Right),
        round_state(s, polled, fresh_apple).direction != s.direction.opposite(),
{
}

} // verus!
