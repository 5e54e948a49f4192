use snake::direction::Direction;
use snake::game::SnakeGame;
use snake::grid::{Position, HEIGHT, WIDTH};
use snake::scene::{CELL, DISPLAY_HEIGHT, DISPLAY_WIDTH};

fn p(x: i32, y: i32) -> Position {
    Position::new(x, y)
}

#[test]
fn display_dimensions() {
    assert_eq!(CELL, 20);
    assert_eq!(DISPLAY_WIDTH, WIDTH * CELL);
    assert_eq!(DISPLAY_HEIGHT, (HEIGHT + 1) * CELL);
    assert_eq!(DISPLAY_WIDTH, 400);
    assert_eq!(DISPLAY_HEIGHT, 240);
}

#[test]
fn to_pixels_scales_by_the_cell_size() {
    assert_eq!(p(0, 1).to_pixels(), p(0, 20));
    assert_eq!(p(19, 11).to_pixels(), p(380, 220));
    assert_eq!(p(10, 5).to_pixels(), p(200, 100));
    assert_eq!(p(-3, 0).to_pixels(), p(-60, 0));
}

#[test]
fn scene_of_a_new_game() {
    let scene = SnakeGame::with_apple(p(3, 9)).scene();
    assert_eq!(scene.score, 0);
    assert_eq!(scene.score_anchor, p(10, 15));
    assert_eq!(scene.separator_start, p(0, 19));
    assert_eq!(scene.separator_end, p(399, 19));
    assert_eq!(scene.apple, p(60, 180));
    assert_eq!(scene.segments, vec![p(200, 100), p(180, 100), p(160, 100)]);
    assert_eq!(scene.diameter, 20);
}

#[test]
fn scene_follows_the_game() {
    let body = vec![p(0, 1), p(19, 1), p(19, 11), p(18, 11)];
    let mut g = SnakeGame::from_parts(body, Direction::Right, p(0, 1), 41, 90).unwrap();
    assert!(g.advance(p(19, 11)));
    let scene = g.scene();
    assert_eq!(scene.score, 42);
    assert_eq!(scene.apple, p(380, 220));
    assert_eq!(scene.segments, vec![p(20, 20), p(0, 20), p(380, 20), p(380, 220), p(360, 220)]);
    assert_eq!(scene.segments.len(), g.len());
}

#[test]
fn scene_squares_fit_the_display() {
    for x in 0..WIDTH {
        for y in 1..=HEIGHT {
            let px = p(x, y).to_pixels();
            assert!(0 <= px.x && px.x + CELL <= DISPLAY_WIDTH);
            assert!(CELL <= px.y && px.y + CELL <= DISPLAY_HEIGHT);
        }
    }
}
