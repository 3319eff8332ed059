use vstd::prelude::*;

use crate::food::Food;
use crate::input::Mode;
use crate::snake::{Cell, Snake};

verus! {

broadcast use vstd::std_specs::vecdeque::group_vec_dequeue_axioms;

/// The character that shows the head of the snake.
pub const HEAD_GLYPH: char = '\u{3bb}';

/// The character that shows a segment behind the head.
pub const BODY_GLYPH: char = 'o';

/// A character to show at a cell of the screen.
#[derive(Clone, Copy, Debug, PartialEq, Eq)]
pub struct Glyph {
    pub x: u16,
    pub y: u16,
    pub ch: char,
}

/// What one frame shows, in drawing order: the food, the snake from its
/// head to its tail, and the status line on its row.
pub struct Frame {
    pub food: Glyph,
    pub snake: Vec<Glyph>,
    pub status_row: u16,
    pub status: Vec<char>,
}

/// The character of the decimal digit `d`.
pub open spec fn digit_char(d: nat) -> char {
    (d + 48) as char
}

/// The decimal numeral of `n`, without leading zeros.
pub open spec fn decimal(n: nat) -> Seq<char>
    decreases n,
{
    if n < 10 {
        seq![digit_char(n)]
    } else {
        decimal(n / 10).push(digit_char(n % 10))
    }
}

/// What the status line says of the mode.
pub open spec fn mode_label(mode: Mode) -> Seq<char> {
    if mode == Mode::Auto {
        "AUTO (arrows to play)"@
    } else {
        "MANUAL (a for auto)"@
    }
}

/// The status line: the mode, the score and the pause between frames.
pub open spec fn status_text(mode: Mode, score: u32, speed_ms: u64) -> Seq<char> {
    mode_label(mode) + " | Score: "@ + decimal(score as nat) + " | Speed: "@ + decimal(
        speed_ms as nat,
    ) + "ms"@
}

/// How segment `i` of a snake on `cell` is drawn.
pub open spec fn segment_glyph(cell: Cell, i: int) -> Glyph {
    Glyph { x: cell.0, y: cell.1, ch: if i == 0 { HEAD_GLYPH } else { BODY_GLYPH } }
}

/// Only the head is drawn as a lambda: segment 0 shows the head glyph,
/// every later segment the body glyph, each on its own cell.
pub proof fn law_only_the_head_is_a_lambda(cell: Cell, i: int)
    requires
        0 <= i,
    ensures
        segment_glyph(cell, i).x == cell.0,
        segment_glyph(cell, i).y == cell.1,
        i == 0 ==> segment_glyph(cell, i).ch == HEAD_GLYPH,
        i >= 1 ==> segment_glyph(cell, i).ch == BODY_GLYPH,
        HEAD_GLYPH != BODY_GLYPH,
{
}

/// The layout of the status line: the mode, then the score, then the
/// pause in milliseconds, separated by bars.
pub proof fn law_status_line_layout(score: u32, speed_ms: u64)
    ensures
        status_text(Mode::Auto, score, speed_ms) == "AUTO (arrows to play) | Score: "@ + decimal(
            score as nat,
        ) + " | Speed: "@ + decimal(speed_ms as nat) + "ms"@,
        status_text(Mode::Manual, score, speed_ms) == "MANUAL (a for auto) | Score: "@ + decimal(
            score as nat,
        ) + " | Speed: "@ + decimal(speed_ms as nat) + "ms"@,
{
    reveal_strlit("AUTO (arrows to play) | Score: ");
    reveal_strlit("MANUAL (a for auto) | Score: ");
    reveal_strlit("AUTO (arrows to play)");
    reveal_strlit("MANUAL (a for auto)");
    reveal_strlit(" | Score: ");
    assert("AUTO (arrows to play)"@ + " | Score: "@ =~= "AUTO (arrows to play) | Score: "@);
    assert("MANUAL (a for auto)"@ + " | Score: "@ =~= "MANUAL (a for auto) | Score: "@);
}

/// The number that a string of decimal digits stands for.
pub open spec fn digits_value(s: Seq<char>) -> int
    decreases s.len(),
{
    if s.len() == 0 {
        0
    } else {
        digits_value(s.drop_last()) * 10 + (s.last() as int - 48)
    }
}

/// A decimal digit character.
pub open spec fn is_digit(c: char) -> bool {
    '0' <= c <= '9'
}

/// The numeral of `n` is made of digits, reads back as `n`, and starts
/// with a zero only when it is the numeral of zero.
pub proof fn law_decimal_reads_back(n: nat)
    ensures
        decimal(n).len() > 0,
        forall|i: int| 0 <= i < decimal(n).len() ==> is_digit(#[trigger] decimal(n)[i]),
        digits_value(decimal(n)) == n,
        decimal(n)[0] == '0' ==> n == 0,
    decreases n,
{
    if n >= 10 {
        law_decimal_reads_back(n / 10);
        let d = decimal(n);
        assert(d.drop_last() =~= decimal(n / 10));
        assert(d[0] == decimal(n / 10)[0]);
        assert(digit_char(n % 10) as int == n % 10 + 48);
        assert((n / 10) * 10 + n % 10 == n) by (nonlinear_arith);
        assert(d.last() == digit_char(n % 10));
        assert(digits_value(d) == digits_value(decimal(n / 10)) * 10 + (d.last() as int - 48));
        assert forall|i: int| 0 <= i < d.len() implies is_digit(#[trigger] d[i]) by {
            if i < d.len() - 1 {
                assert(d[i] == decimal(n / 10)[i]);
            }
        }
    } else {
        assert(decimal(n).drop_last() =~= Seq::<char>::empty());
        assert(digit_char(n) as int == n + 48);
        assert(digits_value(decimal(n)) == digits_value(decimal(n).drop_last()) * 10 + (
        decimal(n).last() as int - 48));
    }
}

/// Appends the characters of `s`.
fn push_str(out: &mut Vec<char>, s: &str)
    ensures
        final(out)@ == old(out)@ + s@,
{
    let n = s.unicode_len();
    let mut i: usize = 0;
    while i < n
        invariant
            n == s@.len(),
            i <= n,
            out@ == old(out)@ + s@.subrange(0, i as int),
        decreases n - i,
    {
        let c = s.get_char(i);
        out.push(c);
        i += 1;
        proof {
            assert(s@.subrange(0, i as int) =~= s@.subrange(0, i - 1 as int).push(c));
        }
    }
    proof {
        assert(s@.subrange(0, n as int) =~= s@);
    }
}

/// Appends the decimal numeral of `n`.
fn push_decimal(out: &mut Vec<char>, n: u64)
    ensures
        final(out)@ == old(out)@ + decimal(n as nat),
    decreases n,
{
    if n >= 10 {
        push_decimal(out, n / 10);
    }
    let d: u8 = (n % 10) as u8;
    let c: char = (d + 48) as char;
    out.push(c);
    proof {
        assert(out@ =~= old(out)@ + decimal(n as nat));
    }
}

/// The status line: the mode, the score and the pause between frames.
pub fn status_line(mode: Mode, score: u32, speed_ms: u64) -> (line: Vec<char>)
    ensures
        line@ == status_text(mode, score, speed_ms),
{
    let mut line: Vec<char> = Vec::new();
    if mode == Mode::Auto {
        push_str(&mut line, "AUTO (arrows to play)");
    } else {
        push_str(&mut line, "MANUAL (a for auto)");
    }
    push_str(&mut line, " | Score: ");
    push_decimal(&mut line, score as u64);
    push_str(&mut line, " | Speed: ");
    push_decimal(&mut line, speed_ms);
    push_str(&mut line, "ms");
    line
}

/// The frame to draw on a screen of `term_rows` rows: the food with its
/// symbol, the head of the snake as a lambda and the rest as `o`, and the
/// status line on the bottom row.
pub fn draw_game(snake: &Snake, food: &Food, mode: &Mode, score: u32, speed_ms: u64, term_rows: u16) -> (frame: Frame)
    requires
        term_rows > 0,
    ensures
        frame.food == (Glyph { x: food.x, y: food.y, ch: food.symbol }),
        frame.snake@.len() == snake.body@.len(),
        forall|i: int|
            0 <= i < snake.body@.len() ==> #[trigger] frame.snake@[i] == segment_glyph(
                snake.body@[i],
                i,
            ),
        snake.body@.len() > 0 ==> frame.snake@[0] == (Glyph {
            x: snake.body@[0].0,
            y: snake.body@[0].1,
            ch: HEAD_GLYPH,
        }),
        forall|i: int|
            1 <= i < snake.body@.len() ==> (#[trigger] frame.snake@[i]).ch == BODY_GLYPH
                && frame.snake@[i].x == snake.body@[i].0 && frame.snake@[i].y == snake.body@[i].1,
        frame.status_row == term_rows - 1,
        frame.status@ == status_text(*mode, score, speed_ms),
{
    let mut segments: Vec<Glyph> = Vec::new();
    let len = snake.body.len();
    let mut i: usize = 0;
    while i < len
        invariant
            len == snake.body@.len(),
            i <= len,
            segments@.len() == i,
            forall|j: int| 0 <= j < i ==> #[trigger] segments@[j] == segment_glyph(snake.body@[j], j),
        decreases len - i,
    {
        let (x, y) = snake.body[i];
        let ch = if i == 0 {
            HEAD_GLYPH
        } else {
            BODY_GLYPH
        };
        segments.push(Glyph { x, y, ch });
        i += 1;
    }
    Frame {
        food: Glyph { x: food.x, y: food.y, ch: food.symbol },
        snake: segments,
        status_row: term_rows - 1,
        status: status_line(*mode, score, speed_ms),
    }
}

} // verus!
