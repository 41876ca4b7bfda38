use vstd::prelude::*;
use crate::geometry::{Pos, Facing};

verus! {

/// Position of a pursuit rule in the order in which the rules are tried.
pub open spec fn rule_rank(f: Facing) -> int {
    match f {
        Facing::Up => 1,
        Facing::Left => 2,
        Facing::Right => 3,
        Facing::Down => 4,
        Facing::UpLeft => 5,
        Facing::UpRight => 6,
        Facing::DownLeft => 7,
        Facing::DownRight => 8,
    }
}

/// The condition under which the pursuit rule that heads `f` applies to an
/// adversary at `h` chasing a player at `p`.
pub open spec fn rule_applies(f: Facing, h: Pos, p: Pos) -> bool {
    match f {
        Facing::Up => h.y <= p.y && h.x == p.x,
        Facing::Left => h.x >= p.x && h.y == p.y,
        Facing::Right => h.x <= p.x && h.y == p.y,
        Facing::Down => h.y >= p.y && h.x == p.x,
        Facing::UpLeft => h.y <= p.y && h.x >= p.x,
        Facing::UpRight => h.y < p.y && h.x < p.x,
        Facing::DownLeft => h.y > p.y && h.x > p.x,
        Facing::DownRight => h.y > p.y && h.x < p.x,
    }
}

/// The rule chosen: `f` applies and no rule tried before it does.
pub open spec fn rule_chosen(f: Facing, h: Pos, p: Pos) -> bool {
    &&& rule_applies(f, h, p)
    &&& forall|g: Facing| rule_rank(g) < rule_rank(f) ==> !rule_applies(g, h, p)
}

/// The heading of the rule chosen for an adversary at `h` chasing a player at `p`.
pub open spec fn chosen_heading(h: Pos, p: Pos) -> Facing {
    choose|f: Facing| rule_chosen(f, h, p)
}

/// For every pair of positions exactly one pursuit rule is chosen: some rule
/// applies, and of those that apply the first in the fixed order is taken.
pub proof fn lemma_heading_chosen(h: Pos, p: Pos)
    ensures
        rule_chosen(chosen_heading(h, p), h, p),
        forall|g: Facing| rule_chosen(g, h, p) ==> g == chosen_heading(h, p),
{
    let f = if rule_applies(Facing::Up, h, p) {
        Facing::Up
    } else if rule_applies(Facing::Left, h, p) {
        Facing::Left
    } else if rule_applies(Facing::Right, h, p) {
        Facing::Right
    } else if rule_applies(Facing::Down, h, p) {
        Facing::Down
    } else if rule_applies(Facing::UpLeft, h, p) {
        Facing::UpLeft
    } else if rule_applies(Facing::UpRight, h, p) {
        Facing::UpRight
    } else if rule_applies(Facing::DownLeft, h, p) {
        Facing::DownLeft
    } else {
        Facing::DownRight
    };
    assert(rule_chosen(f, h, p));
    assert forall|g: Facing| rule_chosen(g, h, p) implies g == f by {
        if rule_rank(g) < rule_rank(f) {
            assert(!rule_applies(g, h, p));
        } else if rule_rank(f) < rule_rank(g) {
            assert(!rule_applies(f, h, p));
        }
    }
}

/// The pursuit rules in the order in which they are tried.
pub open spec fn rule_table() -> Seq<Facing> {
    seq![
        Facing::Up,
        Facing::Left,
        Facing::Right,
        Facing::Down,
        Facing::UpLeft,
        Facing::UpRight,
        Facing::DownLeft,
        Facing::DownRight,
    ]
}

/// Whether the pursuit rule that heads `f` applies.
pub fn applies(f: Facing, h: Pos, p: Pos) -> (r: bool)
    ensures
        r == rule_applies(f, h, p),
{
    match f {
        Facing::Up => h.y <= p.y && h.x == p.x,
        Facing::Left => h.x >= p.x && h.y == p.y,
        Facing::Right => h.x <= p.x && h.y == p.y,
        Facing::Down => h.y >= p.y && h.x == p.x,
        Facing::UpLeft => h.y <= p.y && h.x >= p.x,
        Facing::UpRight => h.y < p.y && h.x < p.x,
        Facing::DownLeft => h.y > p.y && h.x > p.x,
        Facing::DownRight => h.y > p.y && h.x < p.x,
    }
}

/// Picks the pursuit rule for an adversary at `h` chasing a player at `p`:
/// the rules are tried in their fixed order and the first whose condition
/// holds is taken. Some rule always holds, and the one returned is the only
/// one chosen.
pub fn pursuit_direction(h: Pos, p: Pos) -> (f: Facing)
    ensures
        rule_chosen(f, h, p),
        forall|g: Facing| rule_chosen(g, h, p) ==> g == f,
        f == chosen_heading(h, p),
{
    proof {
        lemma_heading_chosen(h, p);
    }
    let table: [Facing; 8] = [
        Facing::Up,
        Facing::Left,
        Facing::Right,
        Facing::Down,
        Facing::UpLeft,
        Facing::UpRight,
        Facing::DownLeft,
        Facing::DownRight,
    ];
    assert(table@ == rule_table());
    let mut i: usize = 0;
    while i < 7
        invariant
            0 <= i <= 7,
            table@ == rule_table(),
            forall|j: int| 0 <= j < i ==> !rule_applies(#[trigger] rule_table()[j], h, p),
        decreases 7 - i,
    {
        if applies(table[i], h, p) {
            assert(forall|g: Facing| rule_rank(g) <= i ==> g == rule_table()[rule_rank(g) - 1]);
            assert(rule_chosen(table[i as int], h, p));
            return table[i];
        }
        i = i + 1;
    }
    assert(forall|g: Facing| rule_rank(g) <= 7 ==> g == rule_table()[rule_rank(g) - 1]);
    assert(rule_chosen(table[7], h, p));
    table[7]
}

} // verus!
