use std::collections::VecDeque;

use nix_snake::direction::{DOWN, LEFT, RIGHT, UP};
use nix_snake::food::{Food, PARCEL, SNOWFLAKE};
use nix_snake::game::{speed_after_meal, Game, FOOD_POINTS, MIN_SPEED_MS, START_SPEED_MS};
use nix_snake::input::{handle_input, Key, Mode};
use nix_snake::snake::Snake;

fn cells(s: &Snake) -> Vec<(u16, u16)> {
    s.body.iter().copied().collect()
}

fn game_with(body: &[(u16, u16)], dir: (i16, i16), mode: Mode, food: (u16, u16)) -> Game {
    Game {
        snake: Snake { body: body.iter().copied().collect::<VecDeque<_>>(), dir },
        food: Food { x: food.0, y: food.1, symbol: SNOWFLAKE },
        mode,
        score: 30,
        speed_ms: 86,
        running: true,
    }
}

#[test]
fn speed_drops_five_percent_in_whole_milliseconds() {
    assert_eq!(speed_after_meal(100), 95);
    assert_eq!(speed_after_meal(95), 91);
    assert_eq!(speed_after_meal(91), 87);
    assert_eq!(speed_after_meal(40), 38);
    assert_eq!(speed_after_meal(39), 38);
}

#[test]
fn speed_is_floored_at_25ms() {
    assert_eq!(speed_after_meal(26), 25);
    assert_eq!(speed_after_meal(25), 25);
    let mut s = START_SPEED_MS;
    for _ in 0..200 {
        let n = speed_after_meal(s);
        assert!(n >= MIN_SPEED_MS && n <= s);
        if s > MIN_SPEED_MS {
            assert!(n < s);
        }
        s = n;
    }
    assert_eq!(s, MIN_SPEED_MS);
}

#[test]
fn food_lands_on_the_screen_above_the_status_row() {
    for _ in 0..500 {
        let f = Food::new(7, 5);
        assert!(f.x < 7);
        assert!(f.y < 4);
        assert!(f.symbol == SNOWFLAKE || f.symbol == PARCEL);
    }
}

#[test]
fn food_on_smallest_screen_is_at_origin() {
    let mut f = Food::new(1, 2);
    assert_eq!((f.x, f.y), (0, 0));
    f.respawn(1, 2);
    assert_eq!((f.x, f.y), (0, 0));
}

#[test]
fn respawn_stays_in_bounds() {
    let mut f = Food::new(80, 24);
    for _ in 0..500 {
        f.respawn(3, 3);
        assert!(f.x < 3 && f.y < 2);
    }
}

#[test]
fn both_food_symbols_appear() {
    let mut seen_snow = false;
    let mut seen_parcel = false;
    for _ in 0..500 {
        let f = Food::new(10, 10);
        seen_snow |= f.symbol == SNOWFLAKE;
        seen_parcel |= f.symbol == PARCEL;
    }
    assert!(seen_snow && seen_parcel);
}

#[test]
fn quit_keys_stop_the_game() {
    for key in [Key::Char('q'), Key::Esc] {
        let mut mode = Mode::Auto;
        let mut snake = Snake::new();
        let mut running = true;
        handle_input(&mut mode, &mut snake, &mut running, Some(key));
        assert!(!running);
        assert_eq!(mode, Mode::Auto);
        assert_eq!(snake.dir, RIGHT);
    }
}

#[test]
fn a_hands_control_to_autopilot() {
    let mut mode = Mode::Manual;
    let mut snake = Snake::new();
    let mut running = true;
    handle_input(&mut mode, &mut snake, &mut running, Some(Key::Char('a')));
    assert_eq!(mode, Mode::Auto);
    assert!(running);
}

#[test]
fn arrows_switch_to_manual_and_steer() {
    let cases = [(Key::Up, UP), (Key::Down, DOWN), (Key::Right, RIGHT), (Key::Left, RIGHT)];
    for (key, expected) in cases {
        let mut mode = Mode::Auto;
        let mut snake = Snake::new();
        let mut running = true;
        handle_input(&mut mode, &mut snake, &mut running, Some(key));
        assert_eq!(mode, Mode::Manual);
        assert_eq!(snake.dir, expected);
        assert!(running);
    }
}

#[test]
fn other_keys_and_no_key_change_nothing() {
    for key in [None, Some(Key::Other), Some(Key::Char('x'))] {
        let mut mode = Mode::Manual;
        let mut snake = Snake::new();
        let mut running = true;
        handle_input(&mut mode, &mut snake, &mut running, key);
        assert_eq!(mode, Mode::Manual);
        assert_eq!(snake.dir, RIGHT);
        assert!(running);
    }
}

#[test]
fn new_game_starts_in_auto_with_no_score() {
    let g = Game::new(40, 20);
    assert_eq!(g.mode, Mode::Auto);
    assert_eq!(g.score, 0);
    assert_eq!(g.speed_ms, START_SPEED_MS);
    assert!(g.running);
    assert_eq!(cells(&g.snake), vec![(10, 10), (9, 10), (8, 10)]);
    assert!(g.food.x < 40 && g.food.y < 19);
}

#[test]
fn step_moves_the_snake_above_the_status_row() {
    let mut g = game_with(&[(5, 18), (5, 17)], DOWN, Mode::Manual, (30, 3));
    let collided = g.step(None, 40, 20);
    assert!(!collided);
    // 20 rows: the snake moves on rows 0..19, so row 19 wraps to 0.
    assert_eq!(cells(&g.snake), vec![(5, 0), (5, 18)]);
    assert_eq!(g.score, 30);
    assert_eq!(g.speed_ms, 86);
}

#[test]
fn step_in_auto_steers_before_moving() {
    let mut g = game_with(&[(10, 10), (9, 10), (8, 10)], RIGHT, Mode::Auto, (10, 2));
    assert!(!g.step(None, 40, 20));
    assert_eq!(g.snake.dir, UP);
    assert_eq!(cells(&g.snake), vec![(10, 9), (10, 10), (9, 10)]);
}

#[test]
fn arrow_key_overrides_autopilot() {
    let mut g = game_with(&[(10, 10), (9, 10), (8, 10)], RIGHT, Mode::Auto, (10, 2));
    assert!(!g.step(Some(Key::Down), 40, 20));
    assert_eq!(g.mode, Mode::Manual);
    assert_eq!(g.snake.dir, DOWN);
    assert_eq!(cells(&g.snake), vec![(10, 11), (10, 10), (9, 10)]);
}

#[test]
fn quitting_still_finishes_the_frame() {
    let mut g = game_with(&[(10, 10), (9, 10), (8, 10)], RIGHT, Mode::Manual, (30, 2));
    assert!(!g.step(Some(Key::Char('q')), 40, 20));
    assert!(!g.running);
    assert_eq!(cells(&g.snake), vec![(11, 10), (10, 10), (9, 10)]);
}

#[test]
fn collision_starts_over() {
    let mut g = game_with(&[(5, 5), (6, 5), (6, 6), (5, 6), (4, 6)], DOWN, Mode::Manual, (30, 2));
    assert!(g.step(None, 40, 20));
    assert_eq!(cells(&g.snake), vec![(10, 10), (9, 10), (8, 10)]);
    assert_eq!(g.snake.dir, RIGHT);
    assert_eq!(g.score, 0);
    assert_eq!(g.speed_ms, START_SPEED_MS);
    assert_eq!(g.mode, Mode::Manual);
    assert_eq!((g.food.x, g.food.y), (30, 2));
}

#[test]
fn head_on_food_checks_the_head_only() {
    let g = game_with(&[(4, 4), (3, 4)], RIGHT, Mode::Manual, (4, 4));
    assert!(g.head_on_food());
    let g = game_with(&[(4, 4), (3, 4)], RIGHT, Mode::Manual, (3, 4));
    assert!(!g.head_on_food());
}

#[test]
fn eating_scores_speeds_up_and_grows_on_next_move() {
    let mut g = game_with(&[(4, 4), (3, 4), (2, 4)], RIGHT, Mode::Manual, (4, 4));
    g.eat_food(40, 20);
    assert_eq!(g.score, 30 + FOOD_POINTS);
    assert_eq!(g.speed_ms, 82);
    assert!(g.food.x < 40 && g.food.y < 19);
    assert_eq!(cells(&g.snake), vec![(4, 4), (3, 4), (2, 4), (2, 4)]);
    g.food = Food { x: 30, y: 2, symbol: PARCEL };
    assert!(!g.step(None, 40, 20));
    assert_eq!(cells(&g.snake), vec![(5, 4), (4, 4), (3, 4), (2, 4)]);
}

#[test]
fn turning_left_from_right_is_ignored_in_game() {
    let mut g = game_with(&[(10, 10), (9, 10)], RIGHT, Mode::Manual, (30, 2));
    assert!(!g.step(Some(Key::Left), 40, 20));
    assert_eq!(g.snake.dir, RIGHT);
    assert_eq!(g.mode, Mode::Manual);
    assert_ne!(g.snake.dir, LEFT);
}

#[test]
fn draws_make_the_food() {
    let f = Food::from_draws(3, 7, true);
    assert_eq!((f.x, f.y, f.symbol), (3, 7, '\u{2744}'));
    let f = Food::from_draws(0, 1, false);
    assert_eq!((f.x, f.y, f.symbol), (0, 1, '\u{1F4E6}'));
}

#[test]
fn a_stopped_game_stays_stopped() {
    for key in [None, Some(Key::Char('a')), Some(Key::Up), Some(Key::Char('q'))] {
        let mut mode = Mode::Manual;
        let mut snake = Snake::new();
        let mut running = false;
        handle_input(&mut mode, &mut snake, &mut running, key);
        assert!(!running);
    }
}
