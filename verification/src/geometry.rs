//! Grid configuration and the small value types shared by the whole crate.

use vstd::prelude::*;

verus! {

/// Side of one grid cell, in pixels.
pub const GRID_SIZE: i32 = 16;

/// Number of cells along each side of the square play field.
pub const GRID_AMOUNT: i32 = 32;

/// Distance, in pixels, between the window's edge and the play field.
pub const OFFSET: i32 = 75;

/// A pair of integers: a grid cell, a step from one cell to the next, or a
/// size in pixels.
#[derive(Clone, Copy, Debug, PartialEq, Eq, Structural)]
pub struct Vector2 {
    pub x: i32,
    pub y: i32,
}

/// An RGBA colour.
#[derive(Clone, Copy, Debug, PartialEq, Eq, Structural)]
pub struct Color {
    pub r: u8,
    pub g: u8,
    pub b: u8,
    pub a: u8,
}

/// An axis-aligned rectangle in window pixels, given by its top-left corner
/// and its extent.
#[derive(Clone, Copy, Debug, PartialEq, Eq, Structural)]
pub struct Rectangle {
    pub x: i64,
    pub y: i64,
    pub width: i64,
    pub height: i64,
}

/// One filled rectangle of a frame.
#[derive(Clone, Copy, Debug, PartialEq, Eq, Structural)]
pub struct Sprite {
    pub bounds: Rectangle,
    pub color: Color,
    /// Whether the corners are drawn rounded.
    pub rounded: bool,
}

impl Color {
    /// The colour of the window's background.
    pub open spec fn spec_background() -> Color {
        Color { r: 173, g: 204, b: 96, a: 255 }
    }

    /// The colour of the snake, the food, the border and the score.
    pub open spec fn spec_snake() -> Color {
        Color { r: 43, g: 51, b: 24, a: 255 }
    }

    #[verifier::when_used_as_spec(spec_background)]
    pub fn background() -> (color: Color)
        ensures
            color == Self::spec_background(),
    {
        Color { r: 173, g: 204, b: 96, a: 255 }
    }

    #[verifier::when_used_as_spec(spec_snake)]
    pub fn snake() -> (color: Color)
        ensures
            color == Self::spec_snake(),
    {
        Color { r: 43, g: 51, b: 24, a: 255 }
    }
}

impl Vector2 {
    /// Whether this vector is one of the four unit steps `(±1, 0)`, `(0, ±1)`.
    pub open spec fn is_unit(self) -> bool {
        ||| (self.x == 1 || self.x == -1) && self.y == 0
        ||| self.x == 0 && (self.y == 1 || self.y == -1)
    }

    /// Whether this cell lies on the play field.
    pub open spec fn in_grid(self) -> bool {
        0 <= self.x < GRID_AMOUNT && 0 <= self.y < GRID_AMOUNT
    }

    /// Whether the component-wise sum with `step` fits the coordinate type.
    pub open spec fn can_offset(self, step: Vector2) -> bool {
        &&& i32::MIN <= self.x + step.x <= i32::MAX
        &&& i32::MIN <= self.y + step.y <= i32::MAX
    }

    /// The component-wise sum with `step`.
    pub open spec fn offset(self, step: Vector2) -> Vector2
        recommends
            self.can_offset(step),
    {
        Vector2 { x: (self.x + step.x) as i32, y: (self.y + step.y) as i32 }
    }

    /// The vector with the components `x` and `y`.
    pub fn new(x: i32, y: i32) -> (v: Vector2)
        ensures
            v == (Vector2 { x, y }),
    {
        Vector2 { x, y }
    }

    /// Decides `is_unit`.
    pub fn check_unit(&self) -> (unit: bool)
        ensures
            unit == self.is_unit(),
    {
        ((self.x == 1 || self.x == -1) && self.y == 0) || (self.x == 0 && (self.y == 1 || self.y
            == -1))
    }

    /// Decides `in_grid`.
    pub fn check_in_grid(&self) -> (inside: bool)
        ensures
            inside == self.in_grid(),
    {
        0 <= self.x && self.x < GRID_AMOUNT && 0 <= self.y && self.y < GRID_AMOUNT
    }

    /// Adds `step` to this vector, component by component.
    pub fn offset_by(&self, step: Vector2) -> (sum: Vector2)
        requires
            self.can_offset(step),
        ensures
            sum == self.offset(step),
            sum.x == self.x + step.x,
            sum.y == self.y + step.y,
    {
        Vector2 { x: self.x + step.x, y: self.y + step.y }
    }
}

/// The pixel at which the cell column or row `coordinate` begins.
pub open spec fn pixel_of(coordinate: i32) -> int {
    OFFSET + coordinate * GRID_SIZE
}

/// Computes `pixel_of` without overflow, for every coordinate.
pub fn to_pixel(coordinate: i32) -> (pixel: i64)
    ensures
        pixel == pixel_of(coordinate),
{
    let cell: i64 = GRID_SIZE as i64;
    let origin: i64 = OFFSET as i64;
    assert(cell == 16 && origin == 75);
    origin + coordinate as i64 * cell
}

} // verus!
