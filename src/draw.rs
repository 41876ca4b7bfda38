use vstd::prelude::*;
use crate::geometry::Pos;

verus! {

/// Bound of the whole-unit x coordinates a target can be drawn at:
/// (width - margin) / 2.
pub const DRAW_X: i32 = 905;

/// Bound of the whole-unit y coordinates a target can be drawn at:
/// (height - margin) / 2.
pub const DRAW_Y: i32 = 485;

/// Relies on rand::rng and rand::Rng::random_range: a value of the half-open
/// range `lo..hi`, which the source only refuses when the range is empty.
#[verifier::external_body]
fn random_in(lo: i32, hi: i32) -> (r: i32)
    requires
        lo < hi,
    ensures
        lo <= r < hi,
{
    let mut source = rand::rng();
    rand::Rng::random_range(&mut source, lo..hi)
}

/// A point that a random placement can produce: whole units, each axis
/// within `-bound..bound`.
pub open spec fn drawable(d: Pos) -> bool {
    &&& d.x % 2 == 0
    &&& d.y % 2 == 0
    &&& -2 * DRAW_X <= d.x < 2 * DRAW_X
    &&& -2 * DRAW_Y <= d.y < 2 * DRAW_Y
}

/// Draws a random whole-unit point of the playfield.
pub fn draw_position() -> (d: Pos)
    ensures
        drawable(d),
{
    let x = random_in(-DRAW_X, DRAW_X);
    let y = random_in(-DRAW_Y, DRAW_Y);
    Pos { x: 2 * x, y: 2 * y }
}

} // verus!
