//! A grid-based snake game: the playfield, the snake's heading, and the
//! game state with its two transitions, turning and ticking.

pub mod direction;
pub mod grid;
pub mod game;
pub mod input;
pub mod session;
pub mod scene;
