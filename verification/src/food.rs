//! The food: one square on the grid that moves to a random cell when eaten.

use rand::Rng;
use vstd::prelude::*;
use crate::geometry::{pixel_of, to_pixel, Color, Rectangle, Sprite, Vector2, GRID_AMOUNT};

verus! {

/// A coloured square sitting on one grid cell.
#[derive(Clone, Copy, Debug, PartialEq, Eq, Structural)]
pub struct Square {
    /// The grid cell that the square occupies.
    pub position: Vector2,
    /// Width and height in pixels.
    pub size: Vector2,
    pub color: Color,
}

/// Draws an integer with `rand::thread_rng().gen_range(low, high)`: the
/// thread-local generator of the `rand` crate, asked for one value of the
/// half-open range from `low` to `high`.
///
/// Trusted, not proved: the value lies in that range. `gen_range` panics when
/// `low >= high`, which the precondition rules out. Which value comes is left
/// open, and two calls may well differ.
#[verifier::external_body]
fn random_in_range(low: i32, high: i32) -> (value: i32)
    requires
        low < high,
    ensures
        low <= value < high,
{
    rand::thread_rng().gen_range(low, high)
}

impl Square {
    /// The square on the cell `(x, y)`, with size and colour as before.
    pub open spec fn moved_to(self, x: i32, y: i32) -> Square {
        Square { position: Vector2 { x, y }, ..self }
    }

    /// What shows the square: a plain rectangle of its size and colour at its
    /// cell's top-left pixel.
    pub open spec fn sprite(self) -> Sprite {
        Sprite {
            bounds: Rectangle {
                x: pixel_of(self.position.x) as i64,
                y: pixel_of(self.position.y) as i64,
                width: self.size.x as i64,
                height: self.size.y as i64,
            },
            color: self.color,
            rounded: false,
        }
    }

    /// What shows the square.
    pub fn draw(&self) -> (sprite: Sprite)
        ensures
            sprite == self.sprite(),
    {
        Sprite {
            bounds: Rectangle {
                x: to_pixel(self.position.x),
                y: to_pixel(self.position.y),
                width: self.size.x as i64,
                height: self.size.y as i64,
            },
            color: self.color,
            rounded: false,
        }
    }

    /// Puts the square on the cell `(x, y)`.
    pub fn move_to(&mut self, x: i32, y: i32)
        ensures
            *final(self) == old(self).moved_to(x, y),
    {
        self.position = Vector2 { x, y };
    }

    /// Puts the square on a cell of the play field picked at random, each
    /// coordinate drawn on its own. Cells under the snake are not left out.
    pub fn respawn(&mut self)
        ensures
            final(self).position.in_grid(),
            *final(self) == old(self).moved_to(final(self).position.x, final(self).position.y),
    {
        let new_x = random_in_range(0, GRID_AMOUNT);
        let new_y = random_in_range(0, GRID_AMOUNT);
        self.move_to(new_x, new_y);
    }
}

} // verus!
