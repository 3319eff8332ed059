use std::collections::VecDeque;
use vstd::prelude::*;

use crate::direction::{is_cardinal, opposite, same_direction, Direction, DOWN, LEFT, RIGHT, UP};

verus! {

broadcast use vstd::std_specs::vecdeque::group_vec_dequeue_axioms;

/// A cell of the grid: a column and a row.
pub type Cell = (u16, u16);

/// The body that a new (or reset) snake starts with: head at (10, 10),
/// two segments trailing to its left.
pub open spec fn initial_body() -> Seq<Cell> {
    seq![(10u16, 10u16), (9u16, 10u16), (8u16, 10u16)]
}

/// `v + d` wrapped into `0..m` (true modulo, so -1 becomes `m - 1`).
pub open spec fn wrap(v: int, d: int, m: int) -> int {
    (v + d) % m
}

/// Where the head goes from `head` when stepping by `dir` on a `w` by `h`
/// grid whose edges wrap around.
pub open spec fn next_head(head: Cell, dir: Direction, w: u16, h: u16) -> Cell {
    (wrap(head.0 as int, dir.0 as int, w as int) as u16, wrap(head.1 as int, dir.1 as int, h as int) as u16)
}

/// The body after one step: a new head in front, the last segment dropped.
pub open spec fn moved(body: Seq<Cell>, dir: Direction, w: u16, h: u16) -> Seq<Cell> {
    seq![next_head(body[0], dir, w, h)] + body.drop_last()
}

/// The body with its last segment doubled: the next step then keeps the
/// old tail, so the snake is one segment longer.
pub open spec fn grown(body: Seq<Cell>) -> Seq<Cell> {
    body.push(body.last())
}

/// Some segment behind the head lies on the head's cell.
pub open spec fn self_collides(body: Seq<Cell>) -> bool {
    exists|i: int| 1 <= i < body.len() && #[trigger] body[i] == body[0]
}

/// Every segment lies on the `w` by `h` grid.
pub open spec fn within(body: Seq<Cell>, w: u16, h: u16) -> bool {
    forall|i: int| 0 <= i < body.len() ==> (#[trigger] body[i]).0 < w && body[i].1 < h
}

/// The direction after asking to turn from `cur` to `new`: the turn is
/// taken unless the two sum to (0, 0), which is a reversal.
pub open spec fn steer(cur: Direction, new: Direction) -> Direction {
    if cur.0 + new.0 != 0 || cur.1 + new.1 != 0 {
        new
    } else {
        cur
    }
}

/// The sums that the reversal test computes fit in `i16` (the second is
/// only computed when the first is zero).
pub open spec fn steer_fits(cur: Direction, new: Direction) -> bool {
    &&& i16::MIN <= cur.0 + new.0 <= i16::MAX
    &&& cur.0 + new.0 == 0 ==> i16::MIN <= cur.1 + new.1 <= i16::MAX
}

/// The turn that the greedy autopilot asks for, if any: towards the food
/// along the columns first, then along the rows, never straight back.
pub open spec fn autopilot_turn(head: Cell, dir: Direction, food_x: u16, food_y: u16) -> Option<Direction> {
    if head.0 < food_x && dir != LEFT {
        Some(RIGHT)
    } else if head.0 > food_x && dir != RIGHT {
        Some(LEFT)
    } else if head.1 < food_y && dir != UP {
        Some(DOWN)
    } else if head.1 > food_y && dir != DOWN {
        Some(UP)
    } else {
        None
    }
}

/// The direction after an optional turn request.
pub open spec fn after_turn(dir: Direction, turn: Option<Direction>) -> Direction {
    match turn {
        Some(new) => steer(dir, new),
        None => dir,
    }
}

/// An optional turn request can be tested without overflow.
pub open spec fn turn_fits(dir: Direction, turn: Option<Direction>) -> bool {
    match turn {
        Some(new) => steer_fits(dir, new),
        None => true,
    }
}

/// The snake: its segments, head first, and the direction it moves in.
pub struct Snake {
    pub body: VecDeque<Cell>,
    pub dir: Direction,
}

impl Snake {
    /// The snake has a head.
    pub open spec fn wf(&self) -> bool {
        self.body@.len() > 0
    }

    /// A snake of three segments at (10, 10), (9, 10), (8, 10), moving right.
    pub fn new() -> (s: Snake)
        ensures
            s.body@ == initial_body(),
            s.dir == RIGHT,
            s.wf(),
    {
        let mut body: VecDeque<Cell> = VecDeque::new();
        body.push_back((10, 10));
        body.push_back((9, 10));
        body.push_back((8, 10));
        Snake { body, dir: RIGHT }
    }

    /// Puts the snake back where a new snake starts.
    pub fn reset(&mut self)
        ensures
            final(self).body@ == initial_body(),
            final(self).dir == RIGHT,
            final(self).wf(),
    {
        self.body.clear();
        self.body.push_back((10, 10));
        self.body.push_back((9, 10));
        self.body.push_back((8, 10));
        self.dir = RIGHT;
    }

    /// Moves the snake one cell in its direction on a `max_width` by
    /// `max_height` grid whose edges wrap: a new head in front, the last
    /// segment dropped.
    pub fn update(&mut self, max_width: u16, max_height: u16)
        requires
            old(self).wf(),
            max_width > 0,
            max_height > 0,
        ensures
            final(self).body@ == moved(old(self).body@, old(self).dir, max_width, max_height),
            final(self).dir == old(self).dir,
            final(self).body@.len() == old(self).body@.len(),
            final(self).body@[0].0 < max_width,
            final(self).body@[0].1 < max_height,
            final(self).wf(),
    {
        let (hx, hy) = self.body[0];
        let sx: i32 = hx as i32 + self.dir.0 as i32;
        let sy: i32 = hy as i32 + self.dir.1 as i32;
        let nx: i32 = sx.checked_rem_euclid(max_width as i32).unwrap();
        let ny: i32 = sy.checked_rem_euclid(max_height as i32).unwrap();
        self.body.push_front((nx as u16, ny as u16));
        let _ = self.body.pop_back();
        proof {
            assert(self.body@ =~= moved(old(self).body@, old(self).dir, max_width, max_height));
        }
    }

    /// Turns to `new_dir` unless that is straight back.
    pub fn set_direction(&mut self, new_dir: Direction)
        requires
            steer_fits(old(self).dir, new_dir),
        ensures
            final(self).dir == steer(old(self).dir, new_dir),
            final(self).body@ == old(self).body@,
    {
        if (self.dir.0 + new_dir.0 != 0) || (self.dir.1 + new_dir.1 != 0) {
            self.dir = new_dir;
        }
    }

    /// Whether the head lies on a cell of the rest of the body.
    pub fn check_self_collision(&self) -> (hit: bool)
        requires
            self.wf(),
        ensures
            hit == self_collides(self.body@),
    {
        let (hx, hy) = self.body[0];
        let len = self.body.len();
        let mut i: usize = 1;
        while i < len
            invariant
                1 <= i <= len,
                len == self.body@.len(),
                (hx, hy) == self.body@[0],
                forall|j: int| 1 <= j < i ==> #[trigger] self.body@[j] != self.body@[0],
            decreases len - i,
        {
            let (x, y) = self.body[i];
            if x == hx && y == hy {
                return true;
            }
            i += 1;
        }
        false
    }

    /// Greedy steering towards the food at (`food_x`, `food_y`).
    pub fn autopilot(&mut self, food_x: u16, food_y: u16)
        requires
            old(self).wf(),
            turn_fits(old(self).dir, autopilot_turn(old(self).body@[0], old(self).dir, food_x, food_y)),
        ensures
            final(self).dir == after_turn(
                old(self).dir,
                autopilot_turn(old(self).body@[0], old(self).dir, food_x, food_y),
            ),
            final(self).body@ == old(self).body@,
    {
        let (hx, hy) = self.body[0];
        if hx < food_x && !same_direction(self.dir, LEFT) {
            self.set_direction(RIGHT);
        } else if hx > food_x && !same_direction(self.dir, RIGHT) {
            self.set_direction(LEFT);
        } else if hy < food_y && !same_direction(self.dir, UP) {
            self.set_direction(DOWN);
        } else if hy > food_y && !same_direction(self.dir, DOWN) {
            self.set_direction(UP);
        }
    }
}

/// Among the four unit steps, asking to turn is refused exactly when the
/// new step is the reverse of the current one; the test never overflows and
/// the snake keeps moving in a unit step.
pub proof fn law_only_reversal_is_refused(cur: Direction, new: Direction)
    requires
        is_cardinal(cur),
        is_cardinal(new),
    ensures
        steer_fits(cur, new),
        steer(cur, new) == (if (new.0 as int, new.1 as int) == opposite(cur) { cur } else { new }),
        is_cardinal(steer(cur, new)),
{
}

/// Doubling the tail and then moving makes the snake one segment longer:
/// the new head is added in front and every old segment, the old tail
/// included, is kept.
pub proof fn law_grow_then_move(body: Seq<Cell>, dir: Direction, w: u16, h: u16)
    requires
        body.len() > 0,
    ensures
        moved(grown(body), dir, w, h) == seq![next_head(body[0], dir, w, h)] + body,
        moved(grown(body), dir, w, h).len() == body.len() + 1,
{
    assert(grown(body).drop_last() =~= body);
    assert(moved(grown(body), dir, w, h) =~= seq![next_head(body[0], dir, w, h)] + body);
}

/// A move without growth keeps the length of the snake.
pub proof fn law_move_keeps_length(body: Seq<Cell>, dir: Direction, w: u16, h: u16)
    requires
        body.len() > 0,
    ensures
        moved(body, dir, w, h).len() == body.len(),
{
}

/// The edges wrap: a snake that lies on the grid stays on it when it moves.
pub proof fn law_move_stays_on_grid(body: Seq<Cell>, dir: Direction, w: u16, h: u16)
    requires
        body.len() > 0,
        w > 0,
        h > 0,
        within(body, w, h),
    ensures
        within(moved(body, dir, w, h), w, h),
{
    let m = moved(body, dir, w, h);
    assert forall|i: int| 0 <= i < m.len() implies (#[trigger] m[i]).0 < w && m[i].1 < h by {
        if i > 0 {
            assert(m[i] == body[i - 1]);
        }
    }
}

/// The greedy autopilot never turns the snake straight back, and a snake
/// that moves in a unit step still does after it steers.
pub proof fn law_autopilot_never_reverses(head: Cell, dir: Direction, food_x: u16, food_y: u16)
    requires
        is_cardinal(dir),
    ensures
        turn_fits(dir, autopilot_turn(head, dir, food_x, food_y)),
        is_cardinal(after_turn(dir, autopilot_turn(head, dir, food_x, food_y))),
        ({
            let d = after_turn(dir, autopilot_turn(head, dir, food_x, food_y));
            (d.0 as int, d.1 as int) != opposite(dir)
        }),
{
}

/// The body after `n` moves in direction `dir` on a `w` by `h` grid.
pub open spec fn moves(body: Seq<Cell>, dir: Direction, w: u16, h: u16, n: nat) -> Seq<Cell>
    decreases n,
{
    if n == 0 {
        body
    } else {
        moved(moves(body, dir, w, h, (n - 1) as nat), dir, w, h)
    }
}

/// After `n` moves the head lies at the old head shifted by `n` steps,
/// wrapped into the grid, and the length is unchanged.
proof fn lemma_head_after_moves(body: Seq<Cell>, dir: Direction, w: u16, h: u16, n: nat)
    requires
        body.len() > 0,
        w > 0,
        h > 0,
    ensures
        moves(body, dir, w, h, n).len() == body.len(),
        n > 0 ==> moves(body, dir, w, h, n)[0].0 as int == (body[0].0 + n * dir.0) % (w as int),
        n > 0 ==> moves(body, dir, w, h, n)[0].1 as int == (body[0].1 + n * dir.1) % (h as int),
    decreases n,
{
    if n > 0 {
        let m = (n - 1) as nat;
        lemma_head_after_moves(body, dir, w, h, m);
        let prev = moves(body, dir, w, h, m);
        let wi = w as int;
        let hi = h as int;
        assert(m * dir.0 + dir.0 == n * dir.0) by (nonlinear_arith)
            requires
                m + 1 == n,
        ;
        assert(m * dir.1 + dir.1 == n * dir.1) by (nonlinear_arith)
            requires
                m + 1 == n,
        ;
        vstd::arithmetic::div_mod::lemma_mod_bound(prev[0].0 + dir.0, wi);
        vstd::arithmetic::div_mod::lemma_mod_bound(prev[0].1 + dir.1, hi);
        if m == 0 {
            assert(prev == body);
        } else {
            vstd::arithmetic::div_mod::lemma_add_mod_noop_right(dir.0 as int, body[0].0 + m * dir.0, wi);
            vstd::arithmetic::div_mod::lemma_add_mod_noop_right(dir.1 as int, body[0].1 + m * dir.1, hi);
        }
    }
}

/// The edges wrap all the way round: moving along a row for as many moves
/// as the grid has columns (along a column for as many moves as it has
/// rows) brings the head back to the cell it started on.
pub proof fn law_head_returns_after_a_lap(body: Seq<Cell>, dir: Direction, w: u16, h: u16)
    requires
        body.len() > 0,
        w > 0,
        h > 0,
        within(body, w, h),
        is_cardinal(dir),
    ensures
        moves(body, dir, w, h, (if dir.1 == 0 { w } else { h }) as nat)[0] == body[0],
        moves(body, dir, w, h, (if dir.1 == 0 { w } else { h }) as nat).len() == body.len(),
{
    let n = (if dir.1 == 0 { w } else { h }) as nat;
    lemma_head_after_moves(body, dir, w, h, n);
    let x = body[0].0 as int;
    let y = body[0].1 as int;
    let wi = w as int;
    let hi = h as int;
    assert(within(body, w, h) ==> body[0].0 < w && body[0].1 < h);
    vstd::arithmetic::div_mod::lemma_small_mod(x as nat, wi as nat);
    vstd::arithmetic::div_mod::lemma_small_mod(y as nat, hi as nat);
    if dir == RIGHT {
        assert(n * dir.0 == wi && n * dir.1 == 0) by (nonlinear_arith)
            requires
                n == wi,
                dir.0 == 1,
                dir.1 == 0,
        ;
        vstd::arithmetic::div_mod::lemma_mod_add_multiples_vanish(x, wi);
    } else if dir == LEFT {
        assert(n * dir.0 == -wi && n * dir.1 == 0) by (nonlinear_arith)
            requires
                n == wi,
                dir.0 == -1,
                dir.1 == 0,
        ;
        vstd::arithmetic::div_mod::lemma_mod_sub_multiples_vanish(x, wi);
    } else if dir == DOWN {
        assert(n * dir.1 == hi && n * dir.0 == 0) by (nonlinear_arith)
            requires
                n == hi,
                dir.1 == 1,
                dir.0 == 0,
        ;
        vstd::arithmetic::div_mod::lemma_mod_add_multiples_vanish(y, hi);
    } else {
        assert(n * dir.1 == -hi && n * dir.0 == 0) by (nonlinear_arith)
            requires
                n == hi,
                dir.1 == -1,
                dir.0 == 0,
        ;
        vstd::arithmetic::div_mod::lemma_mod_sub_multiples_vanish(y, hi);
    }
    let head = moves(body, dir, w, h, n)[0];
    assert(head.0 == body[0].0 && head.1 == body[0].1);
}

/// Any turn is taken unless the new step exactly cancels the current one,
/// in which case the snake keeps its direction.
pub proof fn law_turn_refused_only_when_cancelling(cur: Direction, new: Direction)
    ensures
        (new.0 as int, new.1 as int) == opposite(cur) ==> steer(cur, new) == cur,
        (new.0 as int, new.1 as int) != opposite(cur) ==> steer(cur, new) == new,
{
}

/// A move on the grid, step by step: right adds one to the column and
/// left takes one off, down adds one to the row and up takes one off; a
/// step off one edge comes back in at the opposite edge, and the other
/// coordinate stays.
pub proof fn law_one_step_each_way(head: Cell, w: u16, h: u16)
    requires
        head.0 < w,
        head.1 < h,
    ensures
        next_head(head, RIGHT, w, h) == (if head.0 + 1 < w { (head.0 + 1) as u16 } else { 0u16 }, head.1),
        next_head(head, LEFT, w, h) == (if head.0 > 0 { (head.0 - 1) as u16 } else { (w - 1) as u16 }, head.1),
        next_head(head, DOWN, w, h) == (head.0, if head.1 + 1 < h { (head.1 + 1) as u16 } else { 0u16 }),
        next_head(head, UP, w, h) == (head.0, if head.1 > 0 { (head.1 - 1) as u16 } else { (h - 1) as u16 }),
{
    let (x, y) = (head.0 as int, head.1 as int);
    let (wi, hi) = (w as int, h as int);
    if x + 1 < wi {
        vstd::arithmetic::div_mod::lemma_small_mod((x + 1) as nat, wi as nat);
    } else {
        vstd::arithmetic::div_mod::lemma_mod_self_0(wi);
    }
    if x > 0 {
        vstd::arithmetic::div_mod::lemma_small_mod((x - 1) as nat, wi as nat);
    } else {
        vstd::arithmetic::div_mod::lemma_mod_sub_multiples_vanish(wi - 1, wi);
        vstd::arithmetic::div_mod::lemma_small_mod((wi - 1) as nat, wi as nat);
    }
    vstd::arithmetic::div_mod::lemma_small_mod(x as nat, wi as nat);
    if y + 1 < hi {
        vstd::arithmetic::div_mod::lemma_small_mod((y + 1) as nat, hi as nat);
    } else {
        vstd::arithmetic::div_mod::lemma_mod_self_0(hi);
    }
    if y > 0 {
        vstd::arithmetic::div_mod::lemma_small_mod((y - 1) as nat, hi as nat);
    } else {
        vstd::arithmetic::div_mod::lemma_mod_sub_multiples_vanish(hi - 1, hi);
        vstd::arithmetic::div_mod::lemma_small_mod((hi - 1) as nat, hi as nat);
    }
    vstd::arithmetic::div_mod::lemma_small_mod(y as nat, hi as nat);
}

/// For any step, the new head lies on the grid and differs from the old
/// head shifted by the step only by whole widths (columns) and whole
/// heights (rows): the edges wrap, nothing else.
pub proof fn law_wrap_is_true_modulo(head: Cell, dir: Direction, w: u16, h: u16)
    requires
        w > 0,
        h > 0,
    ensures
        next_head(head, dir, w, h).0 < w,
        next_head(head, dir, w, h).1 < h,
        exists|k: int| #[trigger] (k * w) == head.0 + dir.0 - next_head(head, dir, w, h).0,
        exists|k: int| #[trigger] (k * h) == head.1 + dir.1 - next_head(head, dir, w, h).1,
{
    let sx = head.0 + dir.0;
    let sy = head.1 + dir.1;
    let (wi, hi) = (w as int, h as int);
    vstd::arithmetic::div_mod::lemma_mod_bound(sx, wi);
    vstd::arithmetic::div_mod::lemma_mod_bound(sy, hi);
    vstd::arithmetic::div_mod::lemma_fundamental_div_mod(sx, wi);
    vstd::arithmetic::div_mod::lemma_fundamental_div_mod(sy, hi);
    let kx = sx / wi;
    let ky = sy / hi;
    assert(kx * wi == wi * kx) by (nonlinear_arith);
    assert(ky * hi == hi * ky) by (nonlinear_arith);
    assert((kx * w) == head.0 + dir.0 - next_head(head, dir, w, h).0);
    assert((ky * h) == head.1 + dir.1 - next_head(head, dir, w, h).1);
}

/// A move shifts the body by one: the new head in front, then every old
/// segment but the last, in order.
pub proof fn law_move_shifts_the_body(body: Seq<Cell>, dir: Direction, w: u16, h: u16)
    requires
        body.len() > 0,
    ensures
        moved(body, dir, w, h).len() == body.len(),
        moved(body, dir, w, h)[0] == next_head(body[0], dir, w, h),
        forall|i: int| 1 <= i < body.len() ==> #[trigger] moved(body, dir, w, h)[i] == body[i - 1],
{
}

/// The snake collides with itself exactly when its head lies on the cell
/// of some later segment; a snake whose segments all differ never does.
pub proof fn law_collision_is_head_on_body(body: Seq<Cell>)
    requires
        body.len() > 0,
    ensures
        self_collides(body) <==> body.subrange(1, body.len() as int).contains(body[0]),
        (forall|i: int, j: int| 0 <= i < j < body.len() ==> body[i] != body[j]) ==> !self_collides(body),
{
    let tail = body.subrange(1, body.len() as int);
    if self_collides(body) {
        let i = choose|i: int| 1 <= i < body.len() && #[trigger] body[i] == body[0];
        assert(tail[i - 1] == body[0]);
    }
    if tail.contains(body[0]) {
        let k = choose|k: int| 0 <= k < tail.len() && tail[k] == body[0];
        assert(body[k + 1] == body[0]);
    }
}

/// A new snake is three segments long: its head at (10, 10) and each
/// further segment one column to the left of the one before.
pub proof fn law_starting_snake()
    ensures
        initial_body().len() == 3,
        forall|i: int| 0 <= i < 3 ==> #[trigger] initial_body()[i] == ((10 - i) as u16, 10u16),
{
    assert forall|i: int| 0 <= i < 3 implies #[trigger] initial_body()[i] == ((10 - i) as u16, 10u16) by {
        if i == 0 {
        } else if i == 1 {
        } else {
        }
    }
}

/// The greedy autopilot, in terms of where the food is: it turns right
/// when the food lies in a column to the right and that is not a reversal,
/// left when the food lies in a column to the left and that is not a
/// reversal; when the columns give no usable turn, it turns down or up
/// towards the food's row unless that is a reversal; otherwise it keeps
/// its direction. Any change of direction heads towards the food.
pub proof fn law_autopilot_heads_for_food(head: Cell, dir: Direction, food_x: u16, food_y: u16)
    requires
        is_cardinal(dir),
    ensures
        ({
            let d = after_turn(dir, autopilot_turn(head, dir, food_x, food_y));
            let columns_blocked = head.0 == food_x || (head.0 < food_x && dir == LEFT) || (head.0
                > food_x && dir == RIGHT);
            let rows_blocked = head.1 == food_y || (head.1 < food_y && dir == UP) || (head.1
                > food_y && dir == DOWN);
            &&& head.0 < food_x && dir != LEFT ==> d == RIGHT
            &&& head.0 > food_x && dir != RIGHT ==> d == LEFT
            &&& columns_blocked && head.1 < food_y && dir != UP ==> d == DOWN
            &&& columns_blocked && head.1 > food_y && dir != DOWN ==> d == UP
            &&& columns_blocked && rows_blocked ==> d == dir
            &&& d != dir ==> {
                ||| d == RIGHT && head.0 < food_x
                ||| d == LEFT && head.0 > food_x
                ||| d == DOWN && head.1 < food_y
                ||| d == UP && head.1 > food_y
            }
        }),
{
}

} // verus!
