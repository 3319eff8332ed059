use vstd::prelude::*;

verus! {

/// A step on the grid: a column delta and a row delta.
/// Rows grow downwards, so moving up is a row delta of -1.
pub type Direction = (i16, i16);

pub const RIGHT: Direction = (1, 0);
pub const LEFT: Direction = (-1, 0);
pub const UP: Direction = (0, -1);
pub const DOWN: Direction = (0, 1);

/// One of the four unit steps that the game uses.
pub open spec fn is_cardinal(d: Direction) -> bool {
    d == RIGHT || d == LEFT || d == UP || d == DOWN
}

/// The step that undoes `d`.
pub open spec fn opposite(d: Direction) -> (int, int) {
    (-d.0, -d.1)
}

/// Whether two steps are the same step.
pub fn same_direction(a: Direction, b: Direction) -> (same: bool)
    ensures
        same == (a == b),
{
    a.0 == b.0 && a.1 == b.1
}

} // verus!
