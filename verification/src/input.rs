use vstd::prelude::*;

use crate::direction::{is_cardinal, Direction, DOWN, LEFT, RIGHT, UP};
use crate::snake::{after_turn, turn_fits, Snake};

verus! {

/// Who steers: the greedy autopilot or the player.
#[derive(Clone, Copy, Debug, PartialEq, Eq, Structural)]
pub enum Mode {
    Auto,
    Manual,
}

/// A key press, as far as the game tells keys apart.
#[derive(Clone, Copy, Debug, PartialEq, Eq)]
pub enum Key {
    Char(char),
    Esc,
    Left,
    Right,
    Up,
    Down,
    Other,
}

/// The key quits the game: `q` or Esc.
pub open spec fn quits(key: Option<Key>) -> bool {
    key == Some(Key::Char('q')) || key == Some(Key::Esc)
}

/// Whether the game still runs after a key: it stops on `q` or Esc.
pub open spec fn running_after(running: bool, key: Option<Key>) -> bool {
    running && !quits(key)
}

/// Quitting is final: a key never sets a stopped game running again, and
/// a running game stops exactly on `q` or Esc.
pub proof fn law_quit_is_final(running: bool, key: Option<Key>)
    ensures
        !running ==> !running_after(running, key),
        running ==> (running_after(running, key) <==> !quits(key)),
{
}

/// The mode after a key: `a` hands control to the autopilot, an arrow key
/// to the player; other keys leave it.
pub open spec fn mode_after(mode: Mode, key: Option<Key>) -> Mode {
    match key {
        Some(Key::Char(c)) => if c == 'a' { Mode::Auto } else { mode },
        Some(Key::Left) | Some(Key::Right) | Some(Key::Up) | Some(Key::Down) => Mode::Manual,
        _ => mode,
    }
}

/// The turn that a key asks for: each arrow asks for its direction.
pub open spec fn key_turn(key: Option<Key>) -> Option<Direction> {
    match key {
        Some(Key::Left) => Some(LEFT),
        Some(Key::Right) => Some(RIGHT),
        Some(Key::Up) => Some(UP),
        Some(Key::Down) => Some(DOWN),
        _ => None,
    }
}

/// Acts on the key that was waiting, if any: `q` or Esc stops the game,
/// `a` switches to the autopilot, an arrow switches to manual play and
/// steers the snake that way (unless that is straight back).
pub fn handle_input(mode: &mut Mode, snake: &mut Snake, running: &mut bool, key: Option<Key>)
    requires
        turn_fits(old(snake).dir, key_turn(key)),
    ensures
        *final(mode) == mode_after(*old(mode), key),
        *final(running) == running_after(*old(running), key),
        final(snake).dir == after_turn(old(snake).dir, key_turn(key)),
        final(snake).body@ == old(snake).body@,
{
    if let Some(code) = key {
        match code {
            Key::Char('q') | Key::Esc => *running = false,
            Key::Char('a') => *mode = Mode::Auto,
            Key::Left => {
                *mode = Mode::Manual;
                snake.set_direction(LEFT);
            },
            Key::Right => {
                *mode = Mode::Manual;
                snake.set_direction(RIGHT);
            },
            Key::Up => {
                *mode = Mode::Manual;
                snake.set_direction(UP);
            },
            Key::Down => {
                *mode = Mode::Manual;
                snake.set_direction(DOWN);
            },
            _ => {},
        }
    }
}

/// Each arrow key hands control to the player and turns the snake its own
/// way (left, right, up or down), unless that is straight back, when the
/// snake keeps going; `a` hands control to the autopilot; no other key
/// turns the snake, and no key but `a` or an arrow changes the mode.
pub proof fn law_keys_do_what_they_say(mode: Mode, dir: Direction, key: Key)
    requires
        is_cardinal(dir),
    ensures
        key == Key::Left ==> mode_after(mode, Some(key)) == Mode::Manual && after_turn(
            dir,
            key_turn(Some(key)),
        ) == (if dir == RIGHT { RIGHT } else { LEFT }),
        key == Key::Right ==> mode_after(mode, Some(key)) == Mode::Manual && after_turn(
            dir,
            key_turn(Some(key)),
        ) == (if dir == LEFT { LEFT } else { RIGHT }),
        key == Key::Up ==> mode_after(mode, Some(key)) == Mode::Manual && after_turn(
            dir,
            key_turn(Some(key)),
        ) == (if dir == DOWN { DOWN } else { UP }),
        key == Key::Down ==> mode_after(mode, Some(key)) == Mode::Manual && after_turn(
            dir,
            key_turn(Some(key)),
        ) == (if dir == UP { UP } else { DOWN }),
        key == Key::Char('a') ==> mode_after(mode, Some(key)) == Mode::Auto,
        !(key == Key::Left || key == Key::Right || key == Key::Up || key == Key::Down) ==> after_turn(
            dir,
            key_turn(Some(key)),
        ) == dir,
        !(key == Key::Left || key == Key::Right || key == Key::Up || key == Key::Down || key
            == Key::Char('a')) ==> mode_after(mode, Some(key)) == mode,
        after_turn(dir, key_turn(None)) == dir,
        mode_after(mode, None) == mode,
        running_after(true, None),
        running_after(true, Some(key)) <==> !(key == Key::Char('q') || key == Key::Esc),
        !running_after(false, Some(key)),
{
}

} // verus!
