use vstd::prelude::*;

verus! {

/// Playfield width in units.
pub const WIDTH: i32 = 1920;

/// Playfield height in units.
pub const HEIGHT: i32 = 1080;

/// Margin kept between the player's reachable area and the screen edges, in units.
pub const PLAYER_MARGIN: i32 = 110;

/// Largest distance on each axis, in half units, at which the player catches the target.
pub const TARGET_REACH: i32 = 60;

/// Largest distance on each axis, in half units, at which the adversary catches the player.
pub const ADVERSARY_REACH: i32 = 90;

/// Half-unit bound of the player's x coordinate: (width - margin) / 2 units.
pub const X_BOUND: i32 = WIDTH - PLAYER_MARGIN;

/// Half-unit bound of the player's y coordinate: (height - margin) / 2 units.
pub const Y_BOUND: i32 = HEIGHT - PLAYER_MARGIN;

/// Largest magnitude of a coordinate that the rules accept, in half units.
pub const COORD_LIMIT: i32 = 1_000_000;

/// A point of the playfield, in half units.
#[derive(Clone, Copy, Debug, PartialEq, Eq, Structural)]
pub struct Pos {
    pub x: i32,
    pub y: i32,
}

/// One of the eight compass directions an entity can face.
#[derive(Clone, Copy, Debug, PartialEq, Eq, Structural)]
pub enum Facing {
    Up,
    Left,
    Right,
    Down,
    UpLeft,
    UpRight,
    DownLeft,
    DownRight,
}

/// Horizontal sign of a move heading `f`: -1, 0 or 1.
pub open spec fn step_dx(f: Facing) -> int {
    match f {
        Facing::Left | Facing::UpLeft | Facing::DownLeft => -1,
        Facing::Right | Facing::UpRight | Facing::DownRight => 1,
        _ => 0,
    }
}

/// Vertical sign of a move heading `f`: -1, 0 or 1.
pub open spec fn step_dy(f: Facing) -> int {
    match f {
        Facing::Up | Facing::UpLeft | Facing::UpRight => 1,
        Facing::Down | Facing::DownLeft | Facing::DownRight => -1,
        _ => 0,
    }
}

/// Absolute value.
pub open spec fn abs(v: int) -> int {
    if v < 0 { -v } else { v }
}

/// Both coordinates lie within the player's bounds.
pub open spec fn in_bounds(p: Pos) -> bool {
    -X_BOUND <= p.x <= X_BOUND && -Y_BOUND <= p.y <= Y_BOUND
}

/// Both coordinates are small enough for the rules' arithmetic.
pub open spec fn in_limits(p: Pos) -> bool {
    -COORD_LIMIT <= p.x <= COORD_LIMIT && -COORD_LIMIT <= p.y <= COORD_LIMIT
}

/// Axis-aligned proximity: both distances are at most `reach`.
pub open spec fn near(a: Pos, b: Pos, reach: int) -> bool {
    abs(a.x - b.x) <= reach && abs(a.y - b.y) <= reach
}

/// `v` pulled back into `-bound..=bound`: `min(max(v, -bound), bound)`.
pub open spec fn clamp(v: int, bound: int) -> int {
    if v > bound {
        bound
    } else if v < -bound {
        -bound
    } else {
        v
    }
}

pub fn clamp_to_bounds(p: Pos) -> (r: Pos)
    ensures
        r.x == clamp(p.x as int, X_BOUND as int),
        r.y == clamp(p.y as int, Y_BOUND as int),
        in_bounds(r),
{
    let mut r = p;
    if r.y > Y_BOUND {
        r.y = Y_BOUND;
    }
    if r.y < -Y_BOUND {
        r.y = -Y_BOUND;
    }
    if r.x > X_BOUND {
        r.x = X_BOUND;
    }
    if r.x < -X_BOUND {
        r.x = -X_BOUND;
    }
    r
}

/// Whether `a` and `b` are within `reach` of each other on both axes.
pub fn is_near(a: Pos, b: Pos, reach: i32) -> (r: bool)
    requires
        in_limits(a),
        in_limits(b),
    ensures
        r == near(a, b, reach as int),
{
    let dx: i32 = if a.x >= b.x { a.x - b.x } else { b.x - a.x };
    let dy: i32 = if a.y >= b.y { a.y - b.y } else { b.y - a.y };
    dx <= reach && dy <= reach
}

} // verus!
