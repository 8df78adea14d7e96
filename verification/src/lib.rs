//! The rules of a Snake game on a fixed square grid, with machine-checked
//! contracts: how the snake moves and grows, when a round ends, how score and
//! speed progress, and what a frame shows. Rendering, keyboard and clock are
//! left to the caller, who hands in plain values and gets plain values back.

pub mod food;
pub mod frame;
pub mod game;
pub mod geometry;
pub mod snake;
pub mod theorems;

pub use food::Square;
pub use frame::{
    border, direction_from_keys, Timer, BORDER_THICKNESS, SCORE_FONT_SIZE, SCORE_X, SCORE_Y,
    WINDOW_SIZE,
};
pub use game::{shrink, Game, INITIAL_INTERVAL, MIN_INTERVAL, NANOS_PER_SECOND};
pub use geometry::{
    to_pixel, Color, Rectangle, Sprite, Vector2, GRID_AMOUNT, GRID_SIZE, OFFSET,
};
pub use snake::{guard, Snake};
