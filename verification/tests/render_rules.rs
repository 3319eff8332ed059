use std::collections::VecDeque;

use nix_snake::direction::RIGHT;
use nix_snake::food::{Food, SNOWFLAKE};
use nix_snake::input::Mode;
use nix_snake::render::{draw_game, status_line, Glyph, BODY_GLYPH, HEAD_GLYPH};
use nix_snake::snake::Snake;

fn text(v: Vec<char>) -> String {
    v.into_iter().collect()
}

#[test]
fn status_in_auto_mode() {
    assert_eq!(text(status_line(Mode::Auto, 0, 100)), "AUTO (arrows to play) | Score: 0 | Speed: 100ms");
}

#[test]
fn status_in_manual_mode() {
    assert_eq!(text(status_line(Mode::Manual, 120, 91)), "MANUAL (a for auto) | Score: 120 | Speed: 91ms");
}

#[test]
fn status_prints_large_numbers_in_full() {
    assert_eq!(
        text(status_line(Mode::Manual, u32::MAX, u64::MAX)),
        format!("MANUAL (a for auto) | Score: {} | Speed: {}ms", u32::MAX, u64::MAX)
    );
}

#[test]
fn frame_draws_head_as_lambda_and_status_on_last_row() {
    let snake = Snake { body: VecDeque::from(vec![(3, 4), (2, 4), (1, 4)]), dir: RIGHT };
    let food = Food { x: 9, y: 1, symbol: SNOWFLAKE };
    let frame = draw_game(&snake, &food, &Mode::Auto, 10, 95, 24);
    assert_eq!(frame.food, Glyph { x: 9, y: 1, ch: '\u{2744}' });
    assert_eq!(
        frame.snake,
        vec![
            Glyph { x: 3, y: 4, ch: 'λ' },
            Glyph { x: 2, y: 4, ch: 'o' },
            Glyph { x: 1, y: 4, ch: 'o' },
        ]
    );
    assert_eq!(HEAD_GLYPH, 'λ');
    assert_eq!(BODY_GLYPH, 'o');
    assert_eq!(frame.status_row, 23);
    assert_eq!(text(frame.status), "AUTO (arrows to play) | Score: 10 | Speed: 95ms");
}
