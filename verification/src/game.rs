use vstd::prelude::*;

use crate::direction::{is_cardinal, RIGHT};
use crate::food::{placed, Food};
use crate::input::{handle_input, key_turn, mode_after, running_after, Key, Mode};
use crate::snake::{
    after_turn, autopilot_turn, grown, initial_body, law_autopilot_never_reverses,
    law_only_reversal_is_refused, moved, self_collides, Snake,
};

verus! {

/// The pause between frames, in milliseconds, at the start and after a death.
pub const START_SPEED_MS: u64 = 100;

/// The shortest pause between frames, in milliseconds.
pub const MIN_SPEED_MS: u64 = 25;

/// The points that one piece of food is worth.
pub const FOOD_POINTS: u32 = 10;

/// The pause after a meal: five percent less (in whole milliseconds,
/// rounded down), but never below the floor.
pub open spec fn next_speed(ms: u64) -> u64 {
    let reduced = (ms - ms / 20) as u64;
    if reduced < MIN_SPEED_MS {
        MIN_SPEED_MS
    } else {
        reduced
    }
}

/// Shortens the pause between frames after a meal.
pub fn speed_after_meal(speed_ms: u64) -> (next: u64)
    ensures
        next == next_speed(speed_ms),
{
    let reduction = speed_ms / 20;
    let reduced = speed_ms.saturating_sub(reduction);
    if reduced < MIN_SPEED_MS {
        MIN_SPEED_MS
    } else {
        reduced
    }
}

/// The speed only grows faster, and never beyond the floor: from any pause
/// at or above the floor, a meal gives a pause at or above the floor and no
/// longer, and strictly shorter while the pause is above the floor.
pub proof fn law_speed_decays_to_floor(ms: u64)
    requires
        25 <= ms,
    ensures
        25 <= next_speed(ms) <= ms,
        ms > 25 ==> next_speed(ms) < ms,
{
}

/// A meal takes a twentieth of the pause off, rounded down: when the
/// result stays above the floor, the reduction `r` is the whole number with
/// `20 * r <= ms < 20 * (r + 1)`; the pause drops to the floor exactly when
/// taking that twentieth off would not leave more than the floor.
pub proof fn law_meal_takes_a_twentieth_off(ms: u64)
    ensures
        next_speed(ms) >= 25,
        next_speed(ms) <= ms || ms < 25,
        next_speed(ms) > 25 ==> {
            let r = ms - next_speed(ms);
            &&& 20 * r <= ms
            &&& ms < 20 * (r + 1)
        },
        next_speed(ms) == 25 <==> ms - ms / 20 <= 25,
{
}

/// The state of a running game.
pub struct Game {
    pub snake: Snake,
    pub food: Food,
    pub mode: Mode,
    pub score: u32,
    pub speed_ms: u64,
    pub running: bool,
}

impl Game {
    /// What holds between frames: the snake has a head and moves in a unit
    /// step, and the pause lies between the floor and the starting pause.
    pub open spec fn wf(&self) -> bool {
        &&& self.snake.wf()
        &&& is_cardinal(self.snake.dir)
        &&& MIN_SPEED_MS <= self.speed_ms <= START_SPEED_MS
    }

    /// A new game on a `width` by `height` screen: a new snake, food at a
    /// random cell, the autopilot steering, no score, the starting pause.
    pub fn new(width: u16, height: u16) -> (game: Game)
        requires
            width > 0,
            height > 1,
        ensures
            game.wf(),
            game.snake.body@ == initial_body(),
            game.snake.dir == RIGHT,
            placed(game.food, width, height),
            game.mode == Mode::Auto,
            game.score == 0,
            game.speed_ms == START_SPEED_MS,
            game.speed_ms == 100,
            game.running,
    {
        let snake = Snake::new();
        let food = Food::new(width, height);
        Game { snake, food, mode: Mode::Auto, score: 0, speed_ms: START_SPEED_MS, running: true }
    }

    /// One frame of play on a `term_cols` by `term_rows` screen, up to the
    /// meal: acts on the key, lets the autopilot steer in its mode, moves
    /// the snake on the screen above the status row, and on a collision
    /// with itself starts over with a new snake, no score and the starting
    /// pause. Returns whether the snake collided.
    pub fn step(&mut self, key: Option<Key>, term_cols: u16, term_rows: u16) -> (collided: bool)
        requires
            old(self).wf(),
            term_cols > 0,
            term_rows > 1,
        ensures
            ({
                let o = *old(self);
                let dir1 = after_turn(o.snake.dir, key_turn(key));
                let mode1 = mode_after(o.mode, key);
                let dir2 = if mode1 == Mode::Auto {
                    after_turn(dir1, autopilot_turn(o.snake.body@[0], dir1, o.food.x, o.food.y))
                } else {
                    dir1
                };
                let body3 = moved(o.snake.body@, dir2, term_cols, (term_rows - 1) as u16);
                &&& collided == self_collides(body3)
                &&& final(self).mode == mode1
                &&& final(self).running == running_after(o.running, key)
                &&& final(self).food == o.food
                &&& if collided {
                    &&& final(self).snake.body@ == initial_body()
                    &&& final(self).snake.dir == RIGHT
                    &&& final(self).score == 0
                    &&& final(self).speed_ms == START_SPEED_MS
                    &&& final(self).speed_ms == 100
                } else {
                    &&& final(self).snake.body@ == body3
                    &&& final(self).snake.dir == dir2
                    &&& final(self).score == o.score
                    &&& final(self).speed_ms == o.speed_ms
                }
            }),
            final(self).wf(),
    {
        proof {
            if let Some(d) = key_turn(key) {
                law_only_reversal_is_refused(self.snake.dir, d);
            }
        }
        handle_input(&mut self.mode, &mut self.snake, &mut self.running, key);
        if self.mode == Mode::Auto {
            proof {
                law_autopilot_never_reverses(self.snake.body@[0], self.snake.dir, self.food.x, self.food.y);
            }
            self.snake.autopilot(self.food.x, self.food.y);
        }
        self.snake.update(term_cols, term_rows - 1);
        if self.snake.check_self_collision() {
            self.snake.reset();
            self.score = 0;
            self.speed_ms = START_SPEED_MS;
            true
        } else {
            false
        }
    }

    /// Whether the head lies on the food.
    pub fn head_on_food(&self) -> (on: bool)
        requires
            self.wf(),
        ensures
            on == (self.snake.body@[0].0 == self.food.x && self.snake.body@[0].1 == self.food.y),
    {
        let (hx, hy) = self.snake.body[0];
        hx == self.food.x && hy == self.food.y
    }

    /// The meal: new food on the `width` by `height` screen, the tail
    /// doubled so that the snake grows on its next move, ten more points and
    /// a shorter pause.
    pub fn eat_food(&mut self, width: u16, height: u16)
        requires
            old(self).wf(),
            width > 0,
            height > 1,
            old(self).score + FOOD_POINTS <= u32::MAX,
        ensures
            final(self).wf(),
            placed(final(self).food, width, height),
            final(self).snake.body@ == grown(old(self).snake.body@),
            final(self).snake.dir == old(self).snake.dir,
            final(self).score == old(self).score + FOOD_POINTS,
            final(self).score == old(self).score + 10,
            final(self).speed_ms == next_speed(old(self).speed_ms),
            final(self).mode == old(self).mode,
            final(self).running == old(self).running,
    {
        self.food.respawn(width, height);
        let len = self.snake.body.len();
        if len > 0 {
            let tail = self.snake.body[len - 1];
            self.snake.body.push_back(tail);
        }
        self.score = self.score + FOOD_POINTS;
        self.speed_ms = speed_after_meal(self.speed_ms);
    }
}

} // verus!
