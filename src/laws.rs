use vstd::prelude::*;
use crate::geometry::{Pos, in_limits, in_bounds};
use crate::draw::drawable;
use crate::systems::{
    placement_rule, pursuit_rule, placement_due, win_sequence_rule, placement_spot, win_due,
    reset_due, lemma_pursued_in_limits,
};
use crate::tick::{after_collision, before_reset, step_rule};
use crate::world::{
    Game, Keys, Status, Player, start_pos, final_pos, initial_game, THRESHOLD, OFF_FIELD_X,
    WALK_END_X, PLAYER_STEP,
};

verus! {

/// One tick of a run: the held keys and the point its placement would use.
#[verifier::opaque]
pub open spec fn run_tick(g: Game, t: (Keys, Pos)) -> Game {
    step_rule(g, t.0, t.1)
}

/// The state after the ticks of `ts` in order.
pub open spec fn run(g: Game, ts: Seq<(Keys, Pos)>) -> Game
    decreases ts.len(),
{
    if ts.len() == 0 {
        g
    } else {
        run_tick(run(g, ts.drop_last()), ts.last())
    }
}

/// One tick keeps a well-formed state well formed: in particular the player
/// stays within its bounds.
pub proof fn lemma_step_wf(g: Game, k: Keys, d: Pos)
    requires
        g.wf(),
        in_limits(d),
    ensures
        step_rule(g, k, d).wf(),
        in_bounds(step_rule(g, k, d).player.pos),
{
    let p = placement_rule(after_collision(g, k), d);
    lemma_pursued_in_limits(p.adversary, p.player.pos);
}

/// Over any sequence of ticks from a well-formed state, the player stays
/// within its bounds on both axes.
pub proof fn lemma_run_in_bounds(g: Game, ts: Seq<(Keys, Pos)>)
    requires
        g.wf(),
        forall|i: int| 0 <= i < ts.len() ==> in_limits(#[trigger] ts[i].1),
    ensures
        run(g, ts).wf(),
        in_bounds(run(g, ts).player.pos),
    decreases ts.len(),
{
    if ts.len() > 0 {
        let front = ts.drop_last();
        assert forall|i: int| 0 <= i < front.len() implies in_limits(#[trigger] front[i].1) by {
            assert(front[i] == ts[i]);
        }
        lemma_run_in_bounds(g, front);
        assert(in_limits(ts[ts.len() - 1].1));
        lemma_step_wf(run(g, front), ts.last().0, ts.last().1);
        assert(run(g, ts).wf()) by {
            reveal(run_tick);
        }
    }
}

/// A tick closes the round when its win check fires or its reset fires.
pub open spec fn round_closes(g: Game, k: Keys, d: Pos) -> bool {
    win_due(pursuit_rule(placement_rule(after_collision(g, k), d))) || reset_due(before_reset(g, k, d))
}

/// The collected count never goes down within a round, grows by at most one
/// per tick, and is exactly zero after a tick whose win check or reset fired.
pub proof fn lemma_collected_count(g: Game, k: Keys, d: Pos)
    requires
        g.wf(),
    ensures
        round_closes(g, k, d) ==> step_rule(g, k, d).target.collected == 0,
        !round_closes(g, k, d) ==> g.target.collected <= step_rule(g, k, d).target.collected
            <= g.target.collected + 1,
{
}

/// The player rests at the start, inactive, with the adversary in the
/// middle; a last target of the round waits at its fixed spot.
pub open spec fn at_rest(g: Game) -> bool {
    &&& !g.player.active
    &&& g.player.pos == start_pos()
    &&& g.adversary.pos == (Pos { x: 0, y: 0 })
    &&& g.target.collected == THRESHOLD - 1 ==> g.target.pos == final_pos()
}

/// The win sequence has cleared the field: the player walks alone, the
/// target and the adversary are parked off the field, the count is zero.
pub open spec fn field_cleared(g: Game) -> bool {
    &&& !g.player.active
    &&& g.target.active
    &&& g.target.pos.x == OFF_FIELD_X
    &&& g.adversary.pos.x == OFF_FIELD_X
    &&& g.target.collected == 0
}

/// What holds of every state between two ticks of a game started by setup.
pub open spec fn round_invariant(g: Game) -> bool {
    &&& g.wf()
    &&& g.status != Status::Lost
    &&& g.status != Status::Uninitialized
    &&& g.target.collected < THRESHOLD
    &&& !g.target.active ==> g.target.collected == 0
    &&& g.status == Status::Active ==> g.player.active
    &&& (g.status == Status::Idle || g.status == Status::LockedOut) ==> at_rest(g)
    &&& (g.status == Status::WinSequenceActive || g.status == Status::WinEnded) ==> field_cleared(g)
}

/// The round-status changes one tick can make. Each is a path of the round's
/// graph: idle to active; active to lost or to the win sequence; the win
/// sequence to its end; lost to the lockout; the end of a win, and the
/// lockout, to idle. A loss is reset in the tick that causes it, so a tick
/// goes from active straight to the lockout.
pub open spec fn status_follows(a: Status, b: Status) -> bool {
    match a {
        Status::Uninitialized => false,
        Status::Idle => b == Status::Idle || b == Status::Active,
        Status::Active => b == Status::Active || b == Status::LockedOut || b
            == Status::WinSequenceActive,
        Status::WinSequenceActive => b == Status::WinSequenceActive || b == Status::WinEnded,
        Status::WinEnded => b == Status::Idle,
        Status::LockedOut => b == Status::LockedOut || b == Status::Idle,
        Status::Lost => false,
    }
}

/// The state the process starts in meets the invariant.
pub proof fn lemma_initial_invariant()
    ensures
        round_invariant(initial_game()),
{
}

/// A tick keeps the invariant, and its change of round status is one that
/// the round's graph allows.
#[verifier::rlimit(50)]
pub proof fn lemma_status_step(g: Game, k: Keys, d: Pos)
    requires
        round_invariant(g),
        drawable(d),
    ensures
        round_invariant(step_rule(g, k, d)),
        status_follows(g.status, step_rule(g, k, d).status),
{
    lemma_step_wf(g, k, d);
    let p = placement_rule(after_collision(g, k), d);
    lemma_pursued_in_limits(p.adversary, p.player.pos);
}

/// The invariant and status law for one tick of a run.
proof fn lemma_run_tick(g: Game, t: (Keys, Pos))
    requires
        round_invariant(g),
        drawable(t.1),
    ensures
        round_invariant(run_tick(g, t)),
        status_follows(g.status, run_tick(g, t).status),
{
    reveal(run_tick);
    lemma_status_step(g, t.0, t.1);
}

/// Every state that a run of ticks from setup reaches meets the invariant.
pub proof fn lemma_run_invariant(ts: Seq<(Keys, Pos)>)
    requires
        forall|i: int| 0 <= i < ts.len() ==> drawable(#[trigger] ts[i].1),
    ensures
        round_invariant(run(initial_game(), ts)),
    decreases ts.len(),
{
    if ts.len() == 0 {
        lemma_initial_invariant();
    } else {
        let front = ts.drop_last();
        assert forall|i: int| 0 <= i < front.len() implies drawable(#[trigger] front[i].1) by {
            assert(front[i] == ts[i]);
        }
        lemma_run_invariant(front);
        assert(drawable(ts[ts.len() - 1].1));
        lemma_run_tick(run(initial_game(), front), ts.last());
    }
}

/// Each tick of a run from setup changes the round status only as the
/// round's graph allows.
pub proof fn lemma_run_statuses(ts: Seq<(Keys, Pos)>, i: int)
    requires
        forall|j: int| 0 <= j < ts.len() ==> drawable(#[trigger] ts[j].1),
        0 <= i < ts.len(),
    ensures
        status_follows(
            run(initial_game(), ts.take(i)).status,
            run(initial_game(), ts.take(i + 1)).status,
        ),
{
    let before = ts.take(i);
    let after = ts.take(i + 1);
    assert forall|j: int| 0 <= j < before.len() implies drawable(#[trigger] before[j].1) by {
        assert(before[j] == ts[j]);
    }
    lemma_run_invariant(before);
    assert(after.drop_last() =~= before);
    assert(after.last() == ts[i]);
    assert(drawable(ts[i].1));
    lemma_run_tick(run(initial_game(), before), ts[i]);
}

/// A target placed during a tick is active, at the drawn point or, for the
/// last target of the round, at the fixed spot, and within the player's
/// bounds; a target that was waiting before a tick and is active after it
/// lies within the bounds.
pub proof fn lemma_placed_target(g: Game, k: Keys, d: Pos)
    requires
        round_invariant(g),
        drawable(d),
    ensures
        placement_due(after_collision(g, k)) ==> {
            let t = placement_rule(after_collision(g, k), d).target;
            &&& t.active
            &&& t.pos == placement_spot(after_collision(g, k).target.collected, d)
            &&& in_bounds(t.pos)
        },
        !g.target.active && step_rule(g, k, d).target.active ==> in_bounds(
            step_rule(g, k, d).target.pos,
        ),
{
}

/// Pursuit depends on the two positions and the player's flag alone: two
/// states that agree on them move the adversary to the same point, and with
/// an active player give it the same facing.
pub proof fn lemma_pursuit_deterministic(g1: Game, g2: Game)
    requires
        g1.adversary.pos == g2.adversary.pos,
        g1.player.pos == g2.player.pos,
        g1.player.active == g2.player.active,
    ensures
        pursuit_rule(g1).adversary.pos == pursuit_rule(g2).adversary.pos,
        g1.player.active ==> pursuit_rule(g1).adversary.facing == pursuit_rule(g2).adversary.facing,
{
}

/// The state after `n` further ticks of the win sequence rule alone.
pub open spec fn walk(g: Game, n: nat) -> Game
    decreases n,
{
    if n == 0 {
        g
    } else {
        win_sequence_rule(walk(g, (n - 1) as nat))
    }
}

/// Number of one-unit steps from `x` to the end of the closing walk.
pub open spec fn walk_length(x: int) -> nat {
    if x >= WALK_END_X {
        0
    } else {
        ((WALK_END_X - x + 1) / 2) as nat
    }
}

/// `g` with the player's x coordinate moved `i` units to the right.
pub open spec fn walked(g: Game, i: nat) -> Game {
    Game {
        player: Player {
            pos: Pos { x: (g.player.pos.x + PLAYER_STEP * i) as i32, ..g.player.pos },
            ..g.player
        },
        ..g
    }
}

/// Once the field is cleared, the win sequence walks the player one unit
/// per tick toward the end of the walk, staying in the win sequence, and
/// ends the win on the tick after the walk's last step.
pub proof fn lemma_win_walk(g: Game, i: nat)
    requires
        g.status == Status::WinSequenceActive,
        !g.player.active,
        i <= walk_length(g.player.pos.x as int),
    ensures
        walk(g, i) == walked(g, i),
        walk(g, i + 1) == (if i < walk_length(g.player.pos.x as int) {
            walked(g, i + 1)
        } else {
            Game { status: Status::WinEnded, ..walked(g, i) }
        }),
    decreases i,
{
    if i > 0 {
        lemma_win_walk(g, (i - 1) as nat);
    }
    assert(walk(g, i + 1) == win_sequence_rule(walk(g, i)));
}

} // verus!
