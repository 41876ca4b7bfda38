use vstd::prelude::*;
use crate::geometry::{Pos, Facing, in_limits, in_bounds, WIDTH, X_BOUND, Y_BOUND, COORD_LIMIT};

verus! {

/// Number of targets that wins a round.
pub const THRESHOLD: u32 = 10;

/// x coordinate of the player's start: 425 units.
pub const START_X: i32 = 850;

/// y coordinate of the player's start: -300 units.
pub const START_Y: i32 = -600;

/// x coordinate of the last target of a round: 100 units in from the left edge.
pub const FINAL_X: i32 = 200 - WIDTH;

/// y coordinate of the last target of a round: 300 units below the middle.
pub const FINAL_Y: i32 = -600;

/// x coordinate off the playfield, where the win sequence parks the target
/// and the adversary: 2000 units.
pub const OFF_FIELD_X: i32 = 4000;

/// x coordinate at which the player's closing walk ends: 425 units.
pub const WALK_END_X: i32 = 850;

/// Player displacement per tick, in half units.
pub const PLAYER_STEP: i32 = 2;

/// The phase of the round: the only state shared between the rules.
#[derive(Clone, Copy, Debug, PartialEq, Eq, Structural)]
pub enum Status {
    /// The status before any game exists; setup starts a game in `Idle`,
    /// and no rule leads here.
    Uninitialized,
    Idle,
    Active,
    Lost,
    WinEnded,
    WinSequenceActive,
    LockedOut,
}

/// The player-controlled character.
#[derive(Clone, Copy, Debug, PartialEq, Eq, Structural)]
pub struct Player {
    pub pos: Pos,
    pub facing: Facing,
    /// Set by the first directional input of a round.
    pub active: bool,
}

/// The target to collect, with the round's count of collected targets.
#[derive(Clone, Copy, Debug, PartialEq, Eq, Structural)]
pub struct Target {
    pub pos: Pos,
    /// False while the target waits to be placed again.
    pub active: bool,
    pub collected: u32,
}

/// The pursuing adversary.
#[derive(Clone, Copy, Debug, PartialEq, Eq, Structural)]
pub struct Adversary {
    pub pos: Pos,
    pub facing: Facing,
}

/// The four tracked entities of the game: the round status and the three
/// characters.
#[derive(Clone, Copy, Debug, PartialEq, Eq, Structural)]
pub struct Game {
    pub status: Status,
    pub player: Player,
    pub target: Target,
    pub adversary: Adversary,
}

/// The directional keys held during a tick, with the aliases of each
/// direction merged.
#[derive(Clone, Copy, Debug, PartialEq, Eq, Structural)]
pub struct Keys {
    pub up: bool,
    pub left: bool,
    pub right: bool,
    pub down: bool,
}

impl Keys {
    pub open spec fn any(self) -> bool {
        self.up || self.left || self.right || self.down
    }

    /// Whether any direction is held.
    pub fn any_held(&self) -> (r: bool)
        ensures
            r == self.any(),
    {
        self.up || self.left || self.right || self.down
    }
}

pub open spec fn start_pos() -> Pos {
    Pos { x: START_X, y: START_Y }
}

pub open spec fn final_pos() -> Pos {
    Pos { x: FINAL_X, y: FINAL_Y }
}

/// The player as a round starts it: at the start position, facing up, inactive.
pub open spec fn start_player() -> Player {
    Player { pos: start_pos(), facing: Facing::Up, active: false }
}

/// The adversary as a round starts it: in the middle, facing up.
pub open spec fn start_adversary() -> Adversary {
    Adversary { pos: Pos { x: 0, y: 0 }, facing: Facing::Up }
}

/// The state the process starts in.
pub open spec fn initial_game() -> Game {
    Game {
        status: Status::Idle,
        player: start_player(),
        target: Target { pos: Pos { x: 400, y: 0 }, active: false, collected: 0 },
        adversary: start_adversary(),
    }
}

impl Game {
    /// The player is within its bounds, and the other coordinates and the
    /// counter leave room for the rules' arithmetic.
    pub open spec fn wf(self) -> bool {
        &&& in_bounds(self.player.pos)
        &&& in_limits(self.target.pos)
        &&& in_limits(self.adversary.pos)
        &&& self.target.collected < u32::MAX
    }

    /// Whether the state is well formed.
    pub fn check_wf(&self) -> (r: bool)
        ensures
            r == self.wf(),
    {
        let p = self.player.pos;
        let t = self.target.pos;
        let a = self.adversary.pos;
        -X_BOUND <= p.x && p.x <= X_BOUND && -Y_BOUND <= p.y && p.y <= Y_BOUND
            && -COORD_LIMIT <= t.x && t.x <= COORD_LIMIT && -COORD_LIMIT <= t.y && t.y <= COORD_LIMIT
            && -COORD_LIMIT <= a.x && a.x <= COORD_LIMIT && -COORD_LIMIT <= a.y && a.y <= COORD_LIMIT
            && self.target.collected < u32::MAX
    }

    /// Creates the entities with their start positions and flags.
    pub fn setup() -> (g: Game)
        ensures
            g == initial_game(),
            g.wf(),
    {
        Game {
            status: Status::Idle,
            player: Player { pos: Pos { x: START_X, y: START_Y }, facing: Facing::Up, active: false },
            target: Target { pos: Pos { x: 400, y: 0 }, active: false, collected: 0 },
            adversary: Adversary { pos: Pos { x: 0, y: 0 }, facing: Facing::Up },
        }
    }
}

} // verus!
