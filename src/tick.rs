use vstd::prelude::*;
use crate::geometry::{Pos, in_limits};
use crate::draw::{drawable, draw_position};
use crate::systems::{
    movement_rule, collision_rule, placement_rule, pursuit_rule, win_check_rule, reset_rule,
    win_sequence_rule, shows_game_over, clears_messages, win_sequence_opens, lemma_pursued_in_limits,
};
use crate::world::{Game, Keys};

verus! {

/// What the presentation side is asked to do after a tick.
#[derive(Clone, Copy, Debug, PartialEq, Eq, Structural)]
pub struct Effects {
    /// Show the game-over message.
    pub game_over: bool,
    /// Show the credits and the title.
    pub credits: bool,
    /// Remove every displayed message.
    pub clear_messages: bool,
}

/// The state after movement and collision.
pub open spec fn after_collision(g: Game, k: Keys) -> Game {
    collision_rule(movement_rule(g, k))
}

/// The state after movement, collision, placement, pursuit and the win check.
pub open spec fn before_reset(g: Game, k: Keys, d: Pos) -> Game {
    win_check_rule(pursuit_rule(placement_rule(after_collision(g, k), d)))
}

/// The state after a whole tick whose placement, if any, uses `d`.
pub open spec fn step_rule(g: Game, k: Keys, d: Pos) -> Game {
    win_sequence_rule(reset_rule(before_reset(g, k, d)))
}

/// The presentation requests of that tick.
pub open spec fn step_effects(g: Game, k: Keys, d: Pos) -> Effects {
    let b = before_reset(g, k, d);
    let r = reset_rule(b);
    Effects {
        game_over: shows_game_over(b),
        credits: win_sequence_opens(r),
        clear_messages: clears_messages(r),
    }
}

impl Game {
    /// Runs the rules of one tick in their fixed order: movement, collision,
    /// placement at `d`, pursuit, win check, reset, message cleanup, win
    /// sequence.
    pub fn step(&mut self, keys: Keys, d: Pos) -> (e: Effects)
        requires
            old(self).wf(),
        ensures
            *final(self) == step_rule(*old(self), keys, d),
            e == step_effects(*old(self), keys, d),
            in_limits(d) ==> final(self).wf(),
    {
        self.movement(keys);
        self.collision();
        self.place_worm_at(d);
        proof {
            lemma_pursued_in_limits(self.adversary, self.player.pos);
        }
        self.chase_player();
        self.success_check();
        let game_over = self.reset();
        let clear_messages = self.despawn_text();
        let credits = self.success_sequence();
        Effects { game_over, credits, clear_messages }
    }

    /// Runs one tick, drawing the point at which a waiting target is placed.
    pub fn tick(&mut self, keys: Keys) -> (e: Effects)
        requires
            old(self).wf(),
        ensures
            exists|d: Pos|
                drawable(d) && *final(self) == step_rule(*old(self), keys, d) && e
                    == step_effects(*old(self), keys, d),
            final(self).wf(),
    {
        let d = draw_position();
        self.step(keys, d)
    }
}

} // verus!
