//! The game: one snake, one piece of food, the score, and the time between
//! two ticks, which shrinks as the snake eats.

use vstd::prelude::*;
use crate::food::Square;
use crate::geometry::{Color, Sprite, Vector2, GRID_AMOUNT, GRID_SIZE};
use crate::snake::{guard, initial_body, initial_velocity, Snake, SnakeView};

verus! {

/// Intervals are counted in nanoseconds.
pub const NANOS_PER_SECOND: u64 = 1_000_000_000;

/// The time between two ticks when a round starts: a fifth of a second.
pub const INITIAL_INTERVAL: u64 = 200_000_000;

/// The shortest time between two ticks: a second divided by the number of
/// cells along one side of the play field.
pub const MIN_INTERVAL: u64 = NANOS_PER_SECOND / (GRID_AMOUNT as u64);

/// The interval after one more meal: nine tenths of the present one, rounded
/// down to a whole nanosecond, but never less than `MIN_INTERVAL`.
pub open spec fn shrunk(interval: u64) -> u64 {
    if interval * 9 / 10 > MIN_INTERVAL {
        (interval * 9 / 10) as u64
    } else {
        MIN_INTERVAL
    }
}

/// Computes `shrunk`.
pub fn shrink(interval: u64) -> (next: u64)
    ensures
        next == shrunk(interval),
        next >= MIN_INTERVAL,
        interval >= MIN_INTERVAL ==> next <= interval,
{
    let scaled: u128 = interval as u128 * 9 / 10;
    if scaled > MIN_INTERVAL as u128 {
        scaled as u64
    } else {
        MIN_INTERVAL
    }
}

/// The mathematical content of a [`Game`].
pub struct GameView {
    /// The food.
    pub square: Square,
    pub snake: SnakeView,
    /// Nanoseconds between two ticks.
    pub interval: u64,
    pub score: i32,
}

impl GameView {
    /// The snake is well formed and the interval is not below its floor.
    pub open spec fn wf(self) -> bool {
        self.snake.wf() && self.interval >= MIN_INTERVAL
    }

    /// What a tick needs besides `wf`: room for the head's next cell in the
    /// coordinate type and, where the tick brings a meal, room for one more
    /// point in the score.
    pub open spec fn can_tick(self) -> bool {
        &&& self.wf()
        &&& self.snake.can_advance()
        &&& self.feeds() ==> self.score < i32::MAX
    }

    /// The game with its snake moved by one tick.
    pub open spec fn moved(self) -> GameView {
        GameView { snake: self.snake.advance(), ..self }
    }

    /// Whether the head is on the food.
    pub open spec fn eats(self) -> bool {
        self.square.position == self.snake.head()
    }

    /// Whether the head is off the play field.
    pub open spec fn hits_wall(self) -> bool {
        !self.snake.head().in_grid()
    }

    /// Whether the head is on another cell of the body.
    pub open spec fn hits_body(self) -> bool {
        self.snake.bites_itself()
    }

    /// The game after the meal, if the head is on the food: one more point,
    /// the meal noted on the snake, the food on the cell `food`, a shorter
    /// interval. Otherwise the game as it is.
    pub open spec fn fed(self, food: Vector2) -> GameView {
        if self.eats() {
            GameView {
                square: self.square.moved_to(food.x, food.y),
                snake: SnakeView { has_eaten: true, ..self.snake },
                interval: shrunk(self.interval),
                score: (self.score + 1) as i32,
            }
        } else {
            self
        }
    }

    /// The start of a new round: the snake reset, the first interval, no
    /// points, the food on the cell `food`.
    pub open spec fn game_over(self, food: Vector2) -> GameView {
        GameView {
            square: self.square.moved_to(food.x, food.y),
            snake: self.snake.reset(),
            interval: INITIAL_INTERVAL,
            score: 0,
        }
    }

    /// Whether the tick that starts here brings the head onto the food.
    pub open spec fn feeds(self) -> bool {
        self.moved().eats()
    }

    /// Whether the tick that starts here ends the round: the head leaves the
    /// play field or runs into the body.
    pub open spec fn dies(self) -> bool {
        self.moved().hits_wall() || self.moved().hits_body()
    }

    /// The game after one tick: the snake moves, eats if its head is on the
    /// food, and the round ends if the head then is off the field or on the
    /// body. `food` is the cell on which the food lies afterwards if it was
    /// eaten or the round ended; otherwise the food stays.
    pub open spec fn tick(self, food: Vector2) -> GameView {
        let fed = self.moved().fed(food);
        if self.dies() {
            fed.game_over(food)
        } else {
            fed
        }
    }
}

/// The state of one game.
#[derive(Clone, Debug, PartialEq, Eq)]
pub struct Game {
    pub square: Square,
    pub snake: Snake,
    pub interval: u64,
    pub score: i32,
}

impl View for Game {
    type V = GameView;

    open spec fn view(&self) -> GameView {
        GameView {
            square: self.square,
            snake: self.snake@,
            interval: self.interval,
            score: self.score,
        }
    }
}

impl Game {
    /// A game at the start of its first round: the food on cell `(3, 3)`, a
    /// fresh snake, the first interval and no points.
    pub fn new() -> (game: Game)
        ensures
            game@.square == (Square {
                position: Vector2 { x: 3, y: 3 },
                size: Vector2 { x: GRID_SIZE, y: GRID_SIZE },
                color: Color::snake(),
            }),
            game@.snake.body == initial_body(),
            game@.snake.velocity == initial_velocity(),
            game@.snake.last_velocity == initial_velocity(),
            game@.snake.size == GRID_SIZE,
            !game@.snake.has_eaten,
            game@.interval == INITIAL_INTERVAL,
            game@.score == 0,
            game@.can_tick(),
    {
        Game {
            square: Square {
                position: Vector2 { x: 3, y: 3 },
                size: Vector2 { x: GRID_SIZE, y: GRID_SIZE },
                color: Color::snake(),
            },
            snake: Snake::new(),
            interval: INITIAL_INTERVAL,
            score: 0,
        }
    }

    /// Decides `can_tick`: whether `update` may be called.
    pub fn can_tick(&self) -> (ready: bool)
        ensures
            ready == self@.can_tick(),
    {
        if !self.snake.can_update() || self.interval < MIN_INTERVAL {
            return false;
        }
        let step = guard(self.snake.last_velocity, self.snake.velocity);
        let next = self.snake.body[0].offset_by(step);
        !(next == self.square.position) || self.score < i32::MAX
    }

    /// Advances the game by one tick: the snake moves, then the food, the
    /// walls and the body are looked at, in this order.
    pub fn update(&mut self)
        requires
            old(self)@.wf(),
            old(self)@.snake.can_advance(),
            old(self)@.feeds() ==> old(self)@.score < i32::MAX,
        ensures
            final(self)@ == old(self)@.tick(final(self).square.position),
            old(self)@.feeds() || old(self)@.dies() ==> final(self).square.position.in_grid(),
            final(self)@.wf(),
            final(self)@.snake.head().in_grid(),
            !old(self)@.dies() ==> final(self)@.snake.head() == old(self)@.snake.head().offset(
                old(self)@.snake.effective_velocity(),
            ),
            final(self)@.score == if old(self)@.dies() {
                0
            } else if old(self)@.feeds() {
                old(self)@.score + 1
            } else {
                old(self)@.score as int
            },
            final(self)@.interval >= MIN_INTERVAL,
            !old(self)@.dies() ==> final(self)@.interval <= old(self)@.interval,
    {
        self.snake.update();
        self.check_collision_with_food();
        self.check_collision_with_wall();
        self.check_collision_with_body();
    }

    /// What a frame shows: the food, then the snake from head to tail.
    pub fn draw(&self) -> (sprites: Vec<Sprite>)
        ensures
            sprites@ == seq![self@.square.sprite()] + self@.snake.sprites(),
    {
        let mut sprites: Vec<Sprite> = Vec::new();
        sprites.push(self.square.draw());
        let mut body = self.snake.draw();
        sprites.append(&mut body);
        sprites
    }

    /// Lets the snake eat if its head is on the food: the score goes up by
    /// one, the meal is noted on the snake, the food moves to a random cell
    /// of the play field, and the interval shrinks.
    pub fn check_collision_with_food(&mut self)
        requires
            old(self)@.wf(),
            old(self)@.eats() ==> old(self)@.score < i32::MAX,
        ensures
            final(self)@ == old(self)@.fed(final(self).square.position),
            old(self)@.eats() ==> final(self).square.position.in_grid(),
            final(self)@.wf(),
            final(self)@.score == old(self)@.score + if old(self)@.eats() {
                1int
            } else {
                0int
            },
            MIN_INTERVAL <= final(self)@.interval <= old(self)@.interval,
    {
        if self.square.position == self.snake.body[0] {
            self.score += 1;
            self.snake.has_eaten = true;
            self.square.respawn();
            self.interval = shrink(self.interval);
        }
    }

    /// Ends the round if the head is off the play field.
    pub fn check_collision_with_wall(&mut self)
        requires
            old(self)@.wf(),
        ensures
            final(self)@ == if old(self)@.hits_wall() {
                old(self)@.game_over(final(self).square.position)
            } else {
                old(self)@
            },
            old(self)@.hits_wall() ==> final(self).square.position.in_grid(),
            final(self)@.wf(),
            final(self)@.snake.head().in_grid(),
    {
        if !self.snake.body[0].check_in_grid() {
            self.game_over();
        }
    }

    /// Ends the round if the head is on another cell of the body.
    pub fn check_collision_with_body(&mut self)
        requires
            old(self)@.wf(),
        ensures
            final(self)@ == if old(self)@.hits_body() {
                old(self)@.game_over(final(self).square.position)
            } else {
                old(self)@
            },
            old(self)@.hits_body() ==> final(self).square.position.in_grid(),
            final(self)@.wf(),
            !final(self)@.hits_body(),
    {
        if self.snake.bites_itself() {
            self.game_over();
        }
    }

    /// Starts a new round: the snake is reset, the interval is the first one
    /// again, the score is zero, and the food moves to a random cell of the
    /// play field.
    pub fn game_over(&mut self)
        ensures
            final(self)@ == old(self)@.game_over(final(self).square.position),
            final(self).square.position.in_grid(),
            final(self)@.wf(),
            final(self)@.score == 0,
            final(self)@.interval == INITIAL_INTERVAL,
    {
        self.snake.reset();
        self.interval = INITIAL_INTERVAL;
        self.score = 0;
        self.square.respawn();
    }
}

} // verus!
