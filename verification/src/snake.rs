//! The snake: an ordered body of grid cells, head first, that advances one
//! cell per tick and refuses to turn back on itself.

use vstd::prelude::*;
use crate::geometry::{
    pixel_of, to_pixel, Color, Rectangle, Sprite, Vector2, GRID_SIZE,
};

verus! {

/// The mathematical content of a [`Snake`].
pub struct SnakeView {
    /// The occupied cells, head first, tail last.
    pub body: Seq<Vector2>,
    /// Side of the square drawn for each cell, in pixels.
    pub size: i32,
    /// The direction asked for; it takes effect at the next tick.
    pub velocity: Vector2,
    /// Whether food was eaten since the last tick, so that the next tick keeps
    /// the tail.
    pub has_eaten: bool,
    /// The direction in which the last tick moved the head.
    pub last_velocity: Vector2,
}

/// Whether asking for `requested` on an axis where the last move was `last`
/// would turn the snake straight back.
pub open spec fn reverses(last: i32, requested: i32) -> bool {
    (last == 1 && requested == -1) || (last == -1 && requested == 1)
}

/// The direction that a tick really takes. A request that reverses the last
/// move on the horizontal axis has that component put back to the last
/// move's; otherwise one that reverses it on the vertical axis has that
/// component put back; any other request stands.
pub open spec fn guarded(last: Vector2, requested: Vector2) -> Vector2 {
    if reverses(last.x, requested.x) {
        Vector2 { x: last.x, y: requested.y }
    } else if reverses(last.y, requested.y) {
        Vector2 { x: requested.x, y: last.y }
    } else {
        requested
    }
}

/// Whether two cells are neighbours on the grid.
pub open spec fn adjacent(a: Vector2, b: Vector2) -> bool {
    ||| (a.x - b.x == 1 || b.x - a.x == 1) && a.y == b.y
    ||| a.x == b.x && (a.y - b.y == 1 || b.y - a.y == 1)
}

/// The three cells on which every round starts, heading right.
pub open spec fn initial_body() -> Seq<Vector2> {
    seq![Vector2 { x: 3, y: 6 }, Vector2 { x: 2, y: 6 }, Vector2 { x: 1, y: 6 }]
}

/// The direction in which every round starts. A new snake also counts as
/// having last moved this way, so that its first tick refuses a turn to the
/// left and nothing else.
pub open spec fn initial_velocity() -> Vector2 {
    Vector2 { x: 1, y: 0 }
}

impl SnakeView {
    /// A snake has at least a head and is asked to move by one cell along
    /// one axis.
    pub open spec fn wf(self) -> bool {
        self.body.len() >= 1 && self.velocity.is_unit()
    }

    pub open spec fn head(self) -> Vector2 {
        self.body[0]
    }

    /// The direction that the next tick takes.
    pub open spec fn effective_velocity(self) -> Vector2 {
        guarded(self.last_velocity, self.velocity)
    }

    /// Whether the head's next cell fits the coordinate type.
    pub open spec fn can_advance(self) -> bool {
        self.head().can_offset(self.effective_velocity())
    }

    /// The snake after one tick: a new head one step ahead of the old one,
    /// followed by the old body, without its tail unless food was eaten.
    pub open spec fn advance(self) -> SnakeView {
        let step = self.effective_velocity();
        let kept = if self.has_eaten {
            self.body
        } else {
            self.body.drop_last()
        };
        SnakeView {
            body: seq![self.head().offset(step)] + kept,
            size: self.size,
            velocity: step,
            has_eaten: false,
            last_velocity: step,
        }
    }

    /// The snake put back on its starting cells and heading. Whether it has
    /// eaten and how it last moved are left as they are.
    pub open spec fn reset(self) -> SnakeView {
        SnakeView { body: initial_body(), velocity: initial_velocity(), ..self }
    }

    /// Whether each cell of the body lies next to the one before it: one
    /// cell apart along one axis, on the same line along the other.
    pub open spec fn connected(self) -> bool {
        forall|i: int|
            1 <= i < self.body.len() ==> adjacent(self.body[i - 1], #[trigger] self.body[i])
    }

    /// Whether the head shares its cell with another part of the body.
    pub open spec fn bites_itself(self) -> bool {
        exists|i: int| 1 <= i < self.body.len() && #[trigger] self.body[i] == self.head()
    }

    /// What shows the snake: one rounded square for each body cell, head
    /// first.
    pub open spec fn sprites(self) -> Seq<Sprite> {
        Seq::new(self.body.len(), |i: int| Snake::cell_sprite(self.body[i], self.size))
    }
}

/// The snake itself.
#[derive(Clone, Debug, PartialEq, Eq)]
pub struct Snake {
    pub body: Vec<Vector2>,
    pub size: i32,
    pub velocity: Vector2,
    pub has_eaten: bool,
    pub last_velocity: Vector2,
}

impl View for Snake {
    type V = SnakeView;

    open spec fn view(&self) -> SnakeView {
        SnakeView {
            body: self.body@,
            size: self.size,
            velocity: self.velocity,
            has_eaten: self.has_eaten,
            last_velocity: self.last_velocity,
        }
    }
}

/// Computes the direction that a tick takes from the last move and the
/// request.
pub fn guard(last: Vector2, requested: Vector2) -> (step: Vector2)
    ensures
        step == guarded(last, requested),
{
    if last.x == 1 && requested.x == -1 {
        Vector2 { x: last.x, y: requested.y }
    } else if last.x == -1 && requested.x == 1 {
        Vector2 { x: last.x, y: requested.y }
    } else if last.y == 1 && requested.y == -1 {
        Vector2 { x: requested.x, y: last.y }
    } else if last.y == -1 && requested.y == 1 {
        Vector2 { x: requested.x, y: last.y }
    } else {
        requested
    }
}

/// Builds `initial_body`.
fn starting_body() -> (body: Vec<Vector2>)
    ensures
        body@ == initial_body(),
{
    let mut body: Vec<Vector2> = Vec::new();
    body.push(Vector2 { x: 3, y: 6 });
    body.push(Vector2 { x: 2, y: 6 });
    body.push(Vector2 { x: 1, y: 6 });
    assert(body@ =~= initial_body());
    body
}

impl Snake {
    /// A snake of three cells heading right, as every round starts.
    pub fn new() -> (snake: Snake)
        ensures
            snake@.body == initial_body(),
            snake@.velocity == initial_velocity(),
            snake@.size == GRID_SIZE,
            !snake@.has_eaten,
            snake@.last_velocity == initial_velocity(),
            snake@.wf(),
    {
        Snake {
            body: starting_body(),
            velocity: Vector2 { x: 1, y: 0 },
            size: GRID_SIZE,
            has_eaten: false,
            last_velocity: Vector2 { x: 1, y: 0 },
        }
    }

    /// Records the direction asked for. Nothing is judged here: the next
    /// `update` decides what becomes of the request.
    pub fn set_direction(&mut self, direction: Vector2)
        ensures
            final(self)@ == (SnakeView { velocity: direction, ..old(self)@ }),
    {
        self.velocity = direction;
    }

    /// Decides whether `update` may be called: the snake is well formed and
    /// the head's next cell fits the coordinate type.
    pub fn can_update(&self) -> (ready: bool)
        ensures
            ready == (self@.wf() && self@.can_advance()),
    {
        if self.body.len() == 0 || !self.velocity.check_unit() {
            return false;
        }
        let head = self.body[0];
        let step = guard(self.last_velocity, self.velocity);
        let x: i64 = head.x as i64 + step.x as i64;
        let y: i64 = head.y as i64 + step.y as i64;
        i32::MIN as i64 <= x && x <= i32::MAX as i64 && i32::MIN as i64 <= y && y <= i32::MAX as i64
    }

    /// Moves the snake by one tick: the tail cell goes unless a meal is
    /// pending, and a new head is put one step ahead of the old one, in the
    /// direction asked for unless that would turn the snake straight back.
    pub fn update(&mut self)
        requires
            old(self)@.wf(),
            old(self)@.can_advance(),
        ensures
            final(self)@ == old(self)@.advance(),
            final(self)@.wf(),
            final(self)@.velocity.is_unit(),
            final(self)@.head().x == old(self)@.head().x + final(self)@.velocity.x,
            final(self)@.head().y == old(self)@.head().y + final(self)@.velocity.y,
            final(self)@.body.len() == old(self)@.body.len() + if old(self)@.has_eaten {
                1int
            } else {
                0int
            },
    {
        let head = self.body[0];
        if !self.has_eaten {
            self.body.pop();
        } else {
            self.has_eaten = false;
        }
        let step = guard(self.last_velocity, self.velocity);
        self.velocity = step;
        self.body.insert(0, head.offset_by(step));
        self.last_velocity = step;
        assert(self.body@ =~= old(self)@.advance().body);
    }

    /// Puts the snake back on its starting cells and heading.
    pub fn reset(&mut self)
        ensures
            final(self)@ == old(self)@.reset(),
            final(self)@.wf(),
    {
        self.body = starting_body();
        self.velocity = Vector2 { x: 1, y: 0 };
    }

    /// Whether the head shares its cell with another part of the body.
    pub fn bites_itself(&self) -> (hit: bool)
        ensures
            hit == self@.bites_itself(),
    {
        if self.body.len() == 0 {
            return false;
        }
        let head = self.body[0];
        let mut i: usize = 1;
        while i < self.body.len()
            invariant
                1 <= i,
                self@.body.len() >= 1,
                head == self@.head(),
                forall|j: int| 1 <= j < i && j < self@.body.len() ==> self@.body[j] != head,
            decreases self.body.len() - i,
        {
            if self.body[i] == head {
                return true;
            }
            i += 1;
        }
        false
    }

    /// The rounded square that shows the body cell `cell`.
    pub open spec fn cell_sprite(cell: Vector2, size: i32) -> Sprite {
        Sprite {
            bounds: Rectangle {
                x: pixel_of(cell.x) as i64,
                y: pixel_of(cell.y) as i64,
                width: size as i64,
                height: size as i64,
            },
            color: Color::snake(),
            rounded: true,
        }
    }

    /// What shows the snake: one rounded square for each body cell, head
    /// first.
    pub fn draw(&self) -> (sprites: Vec<Sprite>)
        ensures
            sprites@ == self@.sprites(),
    {
        let mut sprites: Vec<Sprite> = Vec::new();
        let mut i: usize = 0;
        while i < self.body.len()
            invariant
                i <= self.body.len(),
                sprites@.len() == i,
                forall|j: int|
                    0 <= j < i ==> #[trigger] sprites@[j] == Self::cell_sprite(
                        self@.body[j],
                        self@.size,
                    ),
            decreases self.body.len() - i,
        {
            let cell = self.body[i];
            sprites.push(
                Sprite {
                    bounds: Rectangle {
                        x: to_pixel(cell.x),
                        y: to_pixel(cell.y),
                        width: self.size as i64,
                        height: self.size as i64,
                    },
                    color: Color::snake(),
                    rounded: true,
                },
            );
            i += 1;
        }
        assert(sprites@ =~= self@.sprites());
        sprites
    }
}

} // verus!
