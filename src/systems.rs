use vstd::prelude::*;
use crate::geometry::{
    Pos, Facing, near, clamp, step_dx, step_dy, in_limits, in_bounds, clamp_to_bounds,
    is_near,
    TARGET_REACH, ADVERSARY_REACH, X_BOUND, Y_BOUND,
};
use crate::pursuit::{chosen_heading, pursuit_direction, lemma_heading_chosen};
use crate::draw::{drawable, draw_position};
use crate::world::{
    Game, Keys, Status, Player, Target, Adversary, start_player, start_adversary, final_pos,
    THRESHOLD, FINAL_X, FINAL_Y, OFF_FIELD_X, WALK_END_X, PLAYER_STEP, START_X, START_Y,
};

verus! {

/// The direction a player move takes: the first held of up, left, right,
/// down; `None` when no direction is held.
pub open spec fn key_heading(k: Keys) -> Option<Facing> {
    if k.up {
        Some(Facing::Up)
    } else if k.left {
        Some(Facing::Left)
    } else if k.right {
        Some(Facing::Right)
    } else if k.down {
        Some(Facing::Down)
    } else {
        None
    }
}

/// The player after one move heading `f`, clamped to the bounds.
pub open spec fn moved_player(p: Player, f: Facing) -> Player {
    Player {
        pos: Pos {
            x: clamp(p.pos.x + PLAYER_STEP * step_dx(f), X_BOUND as int) as i32,
            y: clamp(p.pos.y + PLAYER_STEP * step_dy(f), Y_BOUND as int) as i32,
        },
        facing: f,
        active: p.active,
    }
}

/// Movement: input activates the player and starts an idle round; the first
/// held direction moves the player one unit; the position is clamped. The
/// rule does nothing during the win sequence, and a lockout ends on a tick
/// with no direction held.
pub open spec fn movement_rule(g: Game, k: Keys) -> Game {
    if g.status != Status::WinSequenceActive && g.status != Status::LockedOut {
        let p = Player { active: g.player.active || k.any(), ..g.player };
        let p = match key_heading(k) {
            Some(f) => moved_player(p, f),
            None => Player {
                pos: Pos {
                    x: clamp(p.pos.x as int, X_BOUND as int) as i32,
                    y: clamp(p.pos.y as int, Y_BOUND as int) as i32,
                },
                ..p
            },
        };
        Game {
            status: if k.any() && g.status == Status::Idle { Status::Active } else { g.status },
            player: p,
            ..g
        }
    } else if g.status == Status::LockedOut && !k.any() {
        Game { status: Status::Idle, ..g }
    } else {
        g
    }
}

/// The player touches the target.
pub open spec fn hits_target(g: Game) -> bool {
    near(g.player.pos, g.target.pos, TARGET_REACH as int)
}

/// The adversary touches the player.
pub open spec fn hits_adversary(g: Game) -> bool {
    near(g.player.pos, g.adversary.pos, ADVERSARY_REACH as int)
}

/// Collision: touching the target takes it and counts it; touching the
/// adversary loses the round.
pub open spec fn collision_rule(g: Game) -> Game {
    Game {
        status: if hits_adversary(g) { Status::Lost } else { g.status },
        target: if hits_target(g) {
            Target { active: false, collected: (g.target.collected + 1) as u32, ..g.target }
        } else {
            g.target
        },
        ..g
    }
}

/// Placement happens for a waiting target outside the win sequence.
pub open spec fn placement_due(g: Game) -> bool {
    !g.target.active && g.status != Status::WinSequenceActive
}

/// Where a waiting target goes: the drawn point `d`, or the fixed spot for
/// the last target of the round.
pub open spec fn placement_spot(collected: u32, d: Pos) -> Pos {
    if collected < THRESHOLD - 1 { d } else { final_pos() }
}

/// Placement: a waiting target is put at its spot and reactivated.
pub open spec fn placement_rule(g: Game, d: Pos) -> Game {
    if placement_due(g) {
        Game {
            target: Target { pos: placement_spot(g.target.collected, d), active: true, ..g.target },
            ..g
        }
    } else {
        g
    }
}

/// The adversary after one pursuit step toward the player at `p`.
pub open spec fn pursued(a: Adversary, p: Pos) -> Adversary {
    let f = chosen_heading(a.pos, p);
    Adversary {
        pos: Pos { x: (a.pos.x + step_dx(f)) as i32, y: (a.pos.y + step_dy(f)) as i32 },
        facing: f,
    }
}

/// A pursuit step toward a player within bounds keeps the adversary within limits.
pub proof fn lemma_pursued_in_limits(a: Adversary, p: Pos)
    requires
        in_limits(a.pos),
        in_bounds(p),
    ensures
        in_limits(pursued(a, p).pos),
{
    lemma_heading_chosen(a.pos, p);
}

/// Pursuit: while the player is active the adversary takes one step toward it.
pub open spec fn pursuit_rule(g: Game) -> Game {
    if g.player.active {
        Game { adversary: pursued(g.adversary, g.player.pos), ..g }
    } else {
        g
    }
}

/// The win check fires once the count reaches the threshold.
pub open spec fn win_due(g: Game) -> bool {
    g.target.collected >= THRESHOLD
}

/// Win check: starts the win sequence and clears the count.
pub open spec fn win_check_rule(g: Game) -> Game {
    if win_due(g) {
        Game {
            status: Status::WinSequenceActive,
            target: Target { collected: 0, ..g.target },
            ..g
        }
    } else {
        g
    }
}

/// A lost round whose player is active is reset, and so is an ended win.
pub open spec fn reset_due(g: Game) -> bool {
    (g.status == Status::Lost && g.player.active) || g.status == Status::WinEnded
}

/// Reset: a loss goes to the lockout and an ended win to idle; the
/// characters go back to their start, the target waits, the count is cleared.
pub open spec fn reset_rule(g: Game) -> Game {
    if reset_due(g) {
        Game {
            status: if g.status == Status::Lost { Status::LockedOut } else { Status::Idle },
            player: start_player(),
            target: Target { active: false, collected: 0, ..g.target },
            adversary: start_adversary(),
        }
    } else {
        g
    }
}

/// The game-over message is shown exactly when a loss is reset.
pub open spec fn shows_game_over(g: Game) -> bool {
    g.status == Status::Lost && g.player.active
}

/// Messages are cleared while a round is active.
pub open spec fn clears_messages(g: Game) -> bool {
    g.status == Status::Active
}

/// The first tick of the win sequence, which shows the credits.
pub open spec fn win_sequence_opens(g: Game) -> bool {
    g.status == Status::WinSequenceActive && g.player.active
}

/// Win sequence: its first tick parks the target and the adversary off the
/// field and turns the player right; later ticks walk the player one unit
/// right until the end of the walk, then end the win.
pub open spec fn win_sequence_rule(g: Game) -> Game {
    if win_sequence_opens(g) {
        Game {
            player: Player { active: false, facing: Facing::Right, ..g.player },
            target: Target { pos: Pos { x: OFF_FIELD_X, ..g.target.pos }, ..g.target },
            adversary: Adversary { pos: Pos { x: OFF_FIELD_X, ..g.adversary.pos }, ..g.adversary },
            ..g
        }
    } else if g.status == Status::WinSequenceActive {
        if g.player.pos.x < WALK_END_X {
            Game {
                player: Player {
                    pos: Pos { x: (g.player.pos.x + PLAYER_STEP) as i32, ..g.player.pos },
                    ..g.player
                },
                ..g
            }
        } else {
            Game { status: Status::WinEnded, ..g }
        }
    } else {
        g
    }
}

impl Game {
    /// Applies the player's input for one tick.
    pub fn movement(&mut self, keys: Keys)
        requires
            in_limits(old(self).player.pos),
        ensures
            *final(self) == movement_rule(*old(self), keys),
    {
        if self.status != Status::WinSequenceActive && self.status != Status::LockedOut {
            let any = keys.any_held();
            if any {
                self.player.active = true;
                if self.status == Status::Idle {
                    self.status = Status::Active;
                }
            }
            let mut pos = self.player.pos;
            if keys.up {
                self.player.facing = Facing::Up;
                pos.y = pos.y + PLAYER_STEP;
            } else if keys.left {
                self.player.facing = Facing::Left;
                pos.x = pos.x - PLAYER_STEP;
            } else if keys.right {
                self.player.facing = Facing::Right;
                pos.x = pos.x + PLAYER_STEP;
            } else if keys.down {
                self.player.facing = Facing::Down;
                pos.y = pos.y - PLAYER_STEP;
            }
            self.player.pos = clamp_to_bounds(pos);
        } else if self.status == Status::LockedOut && !keys.any_held() {
            self.status = Status::Idle;
        }
    }

    /// Takes the target on contact and loses the round on contact with the
    /// adversary.
    pub fn collision(&mut self)
        requires
            old(self).wf(),
        ensures
            *final(self) == collision_rule(*old(self)),
    {
        if is_near(self.player.pos, self.target.pos, TARGET_REACH) {
            self.target.active = false;
            self.target.collected = self.target.collected + 1;
        }
        if is_near(self.player.pos, self.adversary.pos, ADVERSARY_REACH) {
            self.status = Status::Lost;
        }
    }

    /// Places a waiting target at `d`, or at the final spot when it is the
    /// last of the round.
    pub fn place_worm_at(&mut self, d: Pos)
        ensures
            *final(self) == placement_rule(*old(self), d),
    {
        if !self.target.active && self.status != Status::WinSequenceActive {
            if self.target.collected < THRESHOLD - 1 {
                self.target.pos = d;
            } else {
                self.target.pos = Pos { x: FINAL_X, y: FINAL_Y };
            }
            self.target.active = true;
        }
    }

    /// Places a waiting target at a random point, or at the final spot when
    /// it is the last of the round.
    pub fn place_worm(&mut self)
        ensures
            exists|d: Pos| drawable(d) && *final(self) == placement_rule(*old(self), d),
    {
        let d = draw_position();
        self.place_worm_at(d);
    }

    /// Moves the adversary one step toward an active player.
    pub fn chase_player(&mut self)
        requires
            in_limits(old(self).adversary.pos),
        ensures
            *final(self) == pursuit_rule(*old(self)),
    {
        if self.player.active {
            let f = pursuit_direction(self.adversary.pos, self.player.pos);
            let dx: i32 = match f {
                Facing::Left | Facing::UpLeft | Facing::DownLeft => -1,
                Facing::Right | Facing::UpRight | Facing::DownRight => 1,
                _ => 0,
            };
            let dy: i32 = match f {
                Facing::Up | Facing::UpLeft | Facing::UpRight => 1,
                Facing::Down | Facing::DownLeft | Facing::DownRight => -1,
                _ => 0,
            };
            self.adversary.pos = Pos { x: self.adversary.pos.x + dx, y: self.adversary.pos.y + dy };
            self.adversary.facing = f;
        }
    }

    /// Starts the win sequence once enough targets are collected.
    pub fn success_check(&mut self)
        ensures
            *final(self) == win_check_rule(*old(self)),
    {
        if self.target.collected >= THRESHOLD {
            self.status = Status::WinSequenceActive;
            self.target.collected = 0;
        }
    }

    /// Resets a lost round with an active player, or an ended win. Returns
    /// whether the game-over message is to be shown.
    pub fn reset(&mut self) -> (game_over: bool)
        ensures
            *final(self) == reset_rule(*old(self)),
            game_over == shows_game_over(*old(self)),
    {
        let game_over = self.status == Status::Lost && self.player.active;
        if game_over || self.status == Status::WinEnded {
            if self.status == Status::Lost {
                self.status = Status::LockedOut;
            } else {
                self.status = Status::Idle;
            }
            self.player = Player {
                pos: Pos { x: START_X, y: START_Y },
                facing: Facing::Up,
                active: false,
            };
            self.target.active = false;
            self.target.collected = 0;
            self.adversary = Adversary { pos: Pos { x: 0, y: 0 }, facing: Facing::Up };
        }
        game_over
    }

    /// Whether the displayed messages are to be removed: so while a round is
    /// active.
    pub fn despawn_text(&self) -> (clear: bool)
        ensures
            clear == clears_messages(*self),
    {
        self.status == Status::Active
    }

    /// Runs one tick of the win sequence. Returns whether the credits are to
    /// be shown.
    pub fn success_sequence(&mut self) -> (credits: bool)
        ensures
            *final(self) == win_sequence_rule(*old(self)),
            credits == win_sequence_opens(*old(self)),
    {
        let credits = self.status == Status::WinSequenceActive && self.player.active;
        if credits {
            self.player.active = false;
            self.target.pos.x = OFF_FIELD_X;
            self.adversary.pos.x = OFF_FIELD_X;
            self.player.facing = Facing::Right;
        } else if self.status == Status::WinSequenceActive {
            if self.player.pos.x < WALK_END_X {
                self.player.pos.x = self.player.pos.x + PLAYER_STEP;
            } else {
                self.status = Status::WinEnded;
            }
        }
        credits
    }
}

} // verus!
