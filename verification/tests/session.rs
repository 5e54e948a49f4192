use snake::direction::Direction;
use snake::game::SnakeGame;
use snake::grid::Position;
use snake::session::{decode, step, step_with, Command, Ending, Outcome, Polled, KEY_D, KEY_ESC, KEY_J, KEY_LEFT, KEY_RIGHT};

fn p(x: i32, y: i32) -> Position {
    Position::new(x, y)
}

fn snapshot(g: &SnakeGame) -> (Vec<Position>, Direction, Position, usize, u64) {
    (g.body(), g.direction(), g.apple(), g.score(), g.tick_millis())
}

#[test]
fn decode_bound_keys() {
    assert_eq!(decode(KEY_D), Command::TurnLeft);
    assert_eq!(decode(KEY_LEFT), Command::TurnLeft);
    assert_eq!(decode(KEY_J), Command::TurnRight);
    assert_eq!(decode(KEY_RIGHT), Command::TurnRight);
    assert_eq!(decode(KEY_ESC), Command::Quit);
}

#[test]
fn decode_by_code() {
    assert_eq!(decode(32), Command::TurnLeft);
    assert_eq!(decode(105), Command::TurnLeft);
    assert_eq!(decode(36), Command::TurnRight);
    assert_eq!(decode(106), Command::TurnRight);
    assert_eq!(decode(1), Command::Quit);
}

#[test]
fn decode_other_keys() {
    for key in 0..=u16::MAX {
        if ![1, 32, 36, 105, 106].contains(&key) {
            assert_eq!(decode(key), Command::Nothing);
        }
    }
}

#[test]
fn empty_poll_just_ticks() {
    let mut g = SnakeGame::with_apple(p(1, 1));
    assert_eq!(step(&mut g, Polled::Empty), Outcome::Render { sleep_millis: 600 });
    assert_eq!(g.body(), vec![p(11, 5), p(10, 5), p(9, 5)]);
    assert_eq!(g.direction(), Direction::Right);
}

#[test]
fn unbound_key_just_ticks() {
    let mut g = SnakeGame::with_apple(p(1, 1));
    assert_eq!(step(&mut g, Polled::Key(57)), Outcome::Render { sleep_millis: 600 });
    assert_eq!(g.body(), vec![p(11, 5), p(10, 5), p(9, 5)]);
    assert_eq!(g.direction(), Direction::Right);
}

#[test]
fn left_key_turns_then_ticks() {
    for key in [KEY_D, KEY_LEFT] {
        let mut g = SnakeGame::with_apple(p(1, 1));
        assert_eq!(step(&mut g, Polled::Key(key)), Outcome::Render { sleep_millis: 600 });
        assert_eq!(g.direction(), Direction::Up);
        assert_eq!(g.body(), vec![p(10, 4), p(10, 5), p(9, 5)]);
    }
}

#[test]
fn right_key_turns_then_ticks() {
    for key in [KEY_J, KEY_RIGHT] {
        let mut g = SnakeGame::with_apple(p(1, 1));
        assert_eq!(step(&mut g, Polled::Key(key)), Outcome::Render { sleep_millis: 600 });
        assert_eq!(g.direction(), Direction::Down);
        assert_eq!(g.body(), vec![p(10, 6), p(10, 5), p(9, 5)]);
    }
}

#[test]
fn escape_ends_the_game_without_a_tick() {
    let mut g = SnakeGame::with_apple(p(1, 1));
    let before = snapshot(&g);
    assert_eq!(step(&mut g, Polled::Key(KEY_ESC)), Outcome::GameOver(Ending::Quit));
    assert_eq!(snapshot(&g), before);
}

#[test]
fn disconnect_ends_the_game_without_a_tick() {
    let mut g = SnakeGame::with_apple(p(1, 1));
    let before = snapshot(&g);
    assert_eq!(step(&mut g, Polled::Disconnected), Outcome::GameOver(Ending::Disconnected));
    assert_eq!(snapshot(&g), before);
}

#[test]
fn sleep_is_the_interval_after_the_tick() {
    let mut g = SnakeGame::with_apple(p(10, 5));
    assert_eq!(step_with(&mut g, Polled::Empty, p(3, 3)), Outcome::Render { sleep_millis: 575 });
    assert_eq!(g.apple(), p(3, 3));
    assert_eq!(g.score(), 1);
    assert_eq!(g.tick_millis(), 575);
    assert_eq!(step_with(&mut g, Polled::Empty, p(4, 4)), Outcome::Render { sleep_millis: 575 });
    assert_eq!(g.apple(), p(3, 3));
}

#[test]
fn step_on_the_apple_draws_a_new_one() {
    let mut g = SnakeGame::with_apple(p(10, 5));
    assert_eq!(step(&mut g, Polled::Key(KEY_LEFT)), Outcome::Render { sleep_millis: 575 });
    assert_eq!(g.score(), 1);
    assert_eq!(g.body(), vec![p(10, 4), p(10, 5), p(9, 5), p(8, 5)]);
    assert!(g.apple().is_in_playfield());
}

#[test]
fn steering_into_the_snake_ends_the_game_in_that_round() {
    let body = vec![p(10, 5), p(9, 5), p(8, 5), p(7, 5), p(6, 5)];
    let mut g = SnakeGame::from_parts(body, Direction::Right, p(1, 1), 2, 550).unwrap();
    let mut rounds = Vec::new();
    let mut renders = 0;
    let mut slept = 0u64;
    for polled in [Polled::Key(KEY_LEFT), Polled::Key(KEY_D), Polled::Key(KEY_LEFT), Polled::Empty, Polled::Empty] {
        let outcome = step(&mut g, polled);
        rounds.push(outcome);
        match outcome {
            Outcome::Render { sleep_millis } => {
                renders += 1;
                slept += sleep_millis;
            }
            Outcome::GameOver(_) => break,
        }
    }
    assert_eq!(
        rounds,
        vec![
            Outcome::Render { sleep_millis: 550 },
            Outcome::Render { sleep_millis: 550 },
            Outcome::GameOver(Ending::Collision),
        ]
    );
    assert_eq!(renders, 2);
    assert_eq!(slept, 1100);
    assert_eq!(g.body(), vec![p(9, 4), p(10, 4), p(10, 5), p(9, 5), p(8, 5)]);
    assert_eq!(g.direction(), Direction::Down);
    assert_eq!(g.score(), 2);
    assert_eq!(g.tick_millis(), 550);
}

#[test]
fn collision_keeps_the_turn_and_nothing_else() {
    let body = vec![p(5, 5), p(5, 4), p(6, 4), p(6, 5)];
    let mut g = SnakeGame::from_parts(body.clone(), Direction::Down, p(5, 5), 0, 600).unwrap();
    assert_eq!(step_with(&mut g, Polled::Key(KEY_LEFT), p(2, 2)), Outcome::GameOver(Ending::Collision));
    assert_eq!(g.direction(), Direction::Right);
    assert_eq!(g.body(), body);
    assert_eq!(g.apple(), p(5, 5));
    assert_eq!(g.score(), 0);
    assert_eq!(g.tick_millis(), 600);
}

#[test]
fn a_whole_session_by_keys() {
    let mut g = SnakeGame::with_apple(p(12, 5));
    let keys = [Polled::Empty, Polled::Empty, Polled::Key(KEY_J), Polled::Empty, Polled::Key(KEY_ESC), Polled::Empty];
    let mut outcomes = Vec::new();
    for polled in keys {
        let outcome = step_with(&mut g, polled, p(12, 9));
        outcomes.push(outcome);
        if let Outcome::GameOver(_) = outcome {
            break;
        }
    }
    assert_eq!(
        outcomes,
        vec![
            Outcome::Render { sleep_millis: 600 },
            Outcome::Render { sleep_millis: 600 },
            Outcome::Render { sleep_millis: 575 },
            Outcome::Render { sleep_millis: 575 },
            Outcome::GameOver(Ending::Quit),
        ]
    );
    assert_eq!(g.score(), 1);
    assert_eq!(g.apple(), p(12, 9));
    assert_eq!(g.body(), vec![p(12, 7), p(12, 6), p(12, 5), p(11, 5)]);
}
