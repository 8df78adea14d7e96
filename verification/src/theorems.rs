//! What holds of every tick, proved from the definitions of the snake and the
//! game.

use vstd::prelude::*;
use crate::game::{GameView, INITIAL_INTERVAL, MIN_INTERVAL};
use crate::geometry::Vector2;
use crate::snake::{adjacent, guarded, initial_velocity, reverses, SnakeView};

verus! {

/// Whatever the last move was, a request for a unit step is answered with a
/// unit step.
pub proof fn guarded_step_is_unit(last: Vector2, requested: Vector2)
    requires
        requested.is_unit(),
    ensures
        guarded(last, requested).is_unit(),
{
}

/// A request that would turn the snake straight back on an axis is refused on
/// that axis: there the tick keeps the component of the last move, and so
/// does the head.
pub proof fn reversal_is_refused(snake: SnakeView)
    requires
        snake.wf(),
    ensures
        reverses(snake.last_velocity.x, snake.velocity.x) ==> {
            &&& snake.advance().velocity.x == snake.last_velocity.x
            &&& snake.advance().last_velocity.x == snake.last_velocity.x
            &&& snake.can_advance() ==> snake.advance().head().x == snake.head().x
                + snake.last_velocity.x
        },
        reverses(snake.last_velocity.y, snake.velocity.y) ==> {
            &&& snake.advance().velocity.y == snake.last_velocity.y
            &&& snake.advance().last_velocity.y == snake.last_velocity.y
            &&& snake.can_advance() ==> snake.advance().head().y == snake.head().y
                + snake.last_velocity.y
        },
{
}

/// Where the last move was along one axis and the request is its exact
/// opposite, the tick goes on as the last one did: direction taken and
/// direction recorded are both the last move.
pub proof fn opposite_request_repeats_last_move(snake: SnakeView)
    requires
        snake.wf(),
        snake.last_velocity.is_unit(),
        snake.velocity.x == -snake.last_velocity.x,
        snake.velocity.y == -snake.last_velocity.y,
    ensures
        snake.advance().velocity == snake.last_velocity,
        snake.advance().last_velocity == snake.last_velocity,
        snake.can_advance() ==> snake.advance().head() == snake.head().offset(
            snake.last_velocity,
        ),
{
}

/// On its first tick a new snake refuses a turn to the left and takes every
/// other unit step as asked.
pub proof fn first_tick_refuses_only_left(snake: SnakeView)
    requires
        snake.wf(),
        snake.last_velocity == initial_velocity(),
    ensures
        snake.velocity == (Vector2 { x: -1i32, y: 0 }) ==> snake.advance().velocity
            == initial_velocity(),
        snake.velocity != (Vector2 { x: -1i32, y: 0 }) ==> snake.advance().velocity
            == snake.velocity,
{
}

/// A request that turns nothing back is taken as it is.
pub proof fn other_requests_stand(snake: SnakeView)
    requires
        !reverses(snake.last_velocity.x, snake.velocity.x),
        !reverses(snake.last_velocity.y, snake.velocity.y),
    ensures
        snake.advance().velocity == snake.velocity,
{
}

/// In one tick the head moves to a neighbouring cell: one cell along one
/// axis, none along the other, in the direction that the tick takes.
pub proof fn head_moves_one_cell(snake: SnakeView)
    requires
        snake.wf(),
        snake.can_advance(),
    ensures
        ({
            let dx = snake.advance().head().x - snake.head().x;
            let dy = snake.advance().head().y - snake.head().y;
            &&& dx == snake.effective_velocity().x
            &&& dy == snake.effective_velocity().y
            &&& (dx == 1 || dx == -1) && dy == 0 || dx == 0 && (dy == 1 || dy == -1)
        }),
{
}

/// A tick of the snake alone keeps its length unless a meal is pending, and
/// then adds one cell; afterwards no meal is pending.
pub proof fn snake_grows_by_pending_meal(snake: SnakeView)
    requires
        snake.wf(),
    ensures
        !snake.has_eaten ==> snake.advance().body.len() == snake.body.len(),
        snake.has_eaten ==> snake.advance().body.len() == snake.body.len() + 1,
        !snake.advance().has_eaten,
        snake.advance().wf(),
{
}

/// The snake never jumps: a body whose cells lie next to one another is such
/// a body again after a tick, and so is the body on which a round starts.
pub proof fn body_stays_connected(snake: SnakeView)
    requires
        snake.wf(),
        snake.can_advance(),
        snake.connected(),
    ensures
        snake.advance().connected(),
        snake.reset().connected(),
{
    let next = snake.advance();
    assert forall|i: int| 1 <= i < next.body.len() implies adjacent(
        next.body[i - 1],
        #[trigger] next.body[i],
    ) by {
        if i >= 2 {
            assert(adjacent(snake.body[i - 2], snake.body[i - 1]));
        }
    }
}

/// Every tick leaves a well-formed game, with the head on the play field.
pub proof fn tick_keeps_game_well_formed(game: GameView, food: Vector2)
    requires
        game.wf(),
    ensures
        game.tick(food).wf(),
        game.tick(food).snake.head().in_grid(),
{
}

/// After a tick a meal is pending exactly if that tick brought the head onto
/// the food.
pub proof fn meal_is_pending_after_feeding_tick(game: GameView, food: Vector2)
    requires
        game.wf(),
    ensures
        game.tick(food).snake.has_eaten == game.feeds(),
{
}

/// A tick that starts with no meal pending and does not end the round leaves
/// the snake as long as it was.
pub proof fn length_kept_without_meal(game: GameView, food: Vector2)
    requires
        game.wf(),
        !game.snake.has_eaten,
        !game.dies(),
    ensures
        game.tick(food).snake.body.len() == game.snake.body.len(),
{
}

/// A meal shows one tick later. If a tick brings the head onto the food, the
/// snake is one cell longer after the tick that follows; and if that one
/// brings no further meal, the tick after it leaves the length alone. This
/// is said of rounds that go on: none of the ticks spoken of ends the round.
pub proof fn meal_grows_snake_on_next_tick(
    game: GameView,
    food: Vector2,
    second_food: Vector2,
    third_food: Vector2,
)
    requires
        game.wf(),
        game.feeds(),
        !game.dies(),
        !game.tick(food).dies(),
    ensures
        ({
            let fed = game.tick(food);
            let grown = fed.tick(second_food);
            let later = grown.tick(third_food);
            &&& fed.snake.body.len() == game.snake.body.len() + if game.snake.has_eaten {
                1int
            } else {
                0int
            }
            &&& grown.snake.body.len() == fed.snake.body.len() + 1
            &&& !fed.feeds() && !grown.dies() ==> later.snake.body.len() == grown.snake.body.len()
        }),
{
    let fed = game.tick(food);
    let grown = fed.tick(second_food);
    tick_keeps_game_well_formed(game, food);
    meal_is_pending_after_feeding_tick(game, food);
    tick_keeps_game_well_formed(fed, second_food);
    meal_is_pending_after_feeding_tick(fed, second_food);
    if !fed.feeds() && !grown.dies() {
        length_kept_without_meal(grown, third_food);
    }
}

/// A tick that brings no meal and does not end the round changes nothing but
/// the snake: score, interval and food stay, the direction taken is
/// recorded, and with no meal pending the length stays too. The head is then
/// one cell further in that direction.
pub proof fn quiet_tick_only_moves_snake(game: GameView, food: Vector2)
    requires
        game.wf(),
        !game.feeds(),
        !game.dies(),
    ensures
        game.tick(food).score == game.score,
        game.tick(food).interval == game.interval,
        game.tick(food).square == game.square,
        game.tick(food).snake == game.snake.advance(),
        game.tick(food).snake.velocity == game.snake.effective_velocity(),
        game.tick(food).snake.last_velocity == game.snake.effective_velocity(),
        game.snake.effective_velocity().is_unit(),
        !game.snake.has_eaten ==> game.tick(food).snake.body.len() == game.snake.body.len(),
        game.snake.can_advance() ==> {
            &&& game.tick(food).snake.head().x == game.snake.head().x
                + game.snake.effective_velocity().x
            &&& game.tick(food).snake.head().y == game.snake.head().y
                + game.snake.effective_velocity().y
        },
{
}

/// The score goes up by exactly one with each meal, stays without one, and is
/// zero after every tick that ends the round, a meal in that tick or not.
pub proof fn score_counts_meals(game: GameView, food: Vector2)
    requires
        game.wf(),
        game.feeds() ==> game.score < i32::MAX,
    ensures
        game.dies() ==> game.tick(food).score == 0,
        !game.dies() && game.feeds() ==> game.tick(food).score == game.score + 1,
        !game.dies() && !game.feeds() ==> game.tick(food).score == game.score,
{
}

/// While a round goes on the interval never grows, and a meal makes it nine
/// tenths of what it was or the floor, whichever is larger. It is never
/// below the floor, and a tick that ends the round puts it back to the first
/// interval.
pub proof fn interval_shrinks_to_floor(game: GameView, food: Vector2)
    requires
        game.wf(),
    ensures
        game.tick(food).interval >= MIN_INTERVAL,
        !game.dies() ==> game.tick(food).interval <= game.interval,
        !game.dies() && !game.feeds() ==> game.tick(food).interval == game.interval,
        !game.dies() && game.feeds() ==> game.tick(food).interval == if game.interval * 9 / 10
            > MIN_INTERVAL {
            game.interval * 9 / 10
        } else {
            MIN_INTERVAL as int
        },
        game.dies() ==> game.tick(food).interval == INITIAL_INTERVAL,
{
}

} // verus!
