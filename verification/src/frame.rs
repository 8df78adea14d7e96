//! What the loop around the game needs besides the game itself: which
//! direction the held keys ask for, whether the next tick is due, and where
//! the fixed parts of the window lie.

use vstd::prelude::*;
use crate::geometry::{Rectangle, Vector2, GRID_AMOUNT, GRID_SIZE, OFFSET};

verus! {

/// Width and height of the window, in pixels: the play field with the
/// margin on both sides.
pub const WINDOW_SIZE: i32 = OFFSET * 2 + GRID_SIZE * GRID_AMOUNT;

/// How far the border lies outside the play field, and how thick it is
/// drawn, in pixels.
pub const BORDER_THICKNESS: i32 = 5;

/// The left edge of the score readout, in pixels.
pub const SCORE_X: i32 = OFFSET - 5;

/// The top edge of the score readout, in pixels.
pub const SCORE_Y: i32 = 20;

/// The height of the score readout's letters, in pixels.
pub const SCORE_FONT_SIZE: i32 = 40;

/// The outline drawn around the play field.
pub open spec fn border_rectangle() -> Rectangle {
    Rectangle {
        x: (OFFSET - BORDER_THICKNESS) as i64,
        y: (OFFSET - BORDER_THICKNESS) as i64,
        width: (GRID_SIZE * GRID_AMOUNT + 2 * BORDER_THICKNESS) as i64,
        height: (GRID_SIZE * GRID_AMOUNT + 2 * BORDER_THICKNESS) as i64,
    }
}

/// Computes `border_rectangle`.
pub fn border() -> (outline: Rectangle)
    ensures
        outline == border_rectangle(),
        outline == (Rectangle { x: 70, y: 70, width: 522, height: 522 }),
{
    let corner: i64 = (OFFSET - BORDER_THICKNESS) as i64;
    let side: i64 = (GRID_SIZE * GRID_AMOUNT + 2 * BORDER_THICKNESS) as i64;
    Rectangle { x: corner, y: corner, width: side, height: side }
}

/// The direction that the held keys ask for. Where several keys are held,
/// left wins over right, right over down, and down over up; the vertical
/// axis points down the screen. `None` when no key is held.
pub open spec fn key_direction(up: bool, down: bool, right: bool, left: bool) -> Option<Vector2> {
    if left {
        Some(Vector2 { x: -1i32, y: 0 })
    } else if right {
        Some(Vector2 { x: 1, y: 0 })
    } else if down {
        Some(Vector2 { x: 0, y: 1 })
    } else if up {
        Some(Vector2 { x: 0, y: -1i32 })
    } else {
        None
    }
}

/// Computes `key_direction`.
pub fn direction_from_keys(up: bool, down: bool, right: bool, left: bool) -> (direction: Option<
    Vector2,
>)
    ensures
        direction == key_direction(up, down, right, left),
        direction is Some <==> up || down || right || left,
        direction matches Some(step) ==> step.is_unit(),
{
    let mut direction: Option<Vector2> = None;
    if up {
        direction = Some(Vector2 { x: 0, y: -1 });
    }
    if down {
        direction = Some(Vector2 { x: 0, y: 1 });
    }
    if right {
        direction = Some(Vector2 { x: 1, y: 0 });
    }
    if left {
        direction = Some(Vector2 { x: -1, y: 0 });
    }
    direction
}

/// Remembers when the game last ticked, on a clock that counts nanoseconds.
#[derive(Clone, Copy, Debug, PartialEq, Eq, Structural)]
pub struct Timer {
    pub last_update_time: u64,
}

impl Timer {
    /// Whether at least `time` has passed at `current_time` since the last
    /// tick. A clock that reads less than at the last tick has not.
    pub open spec fn due(self, current_time: u64, time: u64) -> bool {
        current_time - self.last_update_time >= time
    }

    /// A timer whose last tick was when the clock read zero.
    pub fn new() -> (timer: Timer)
        ensures
            timer.last_update_time == 0,
    {
        Timer { last_update_time: 0 }
    }

    /// Tells whether a tick is due at `current_time`, ticks being `time`
    /// apart, and if so takes `current_time` as the time of the last tick.
    pub fn interval(&mut self, current_time: u64, time: u64) -> (due: bool)
        ensures
            due == old(self).due(current_time, time),
            final(self).last_update_time == if due {
                current_time
            } else {
                old(self).last_update_time
            },
    {
        if current_time < self.last_update_time || current_time - self.last_update_time < time {
            return false;
        }
        self.last_update_time = current_time;
        true
    }
}

} // verus!
