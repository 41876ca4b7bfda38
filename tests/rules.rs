use crow_commute::draw::draw_position;
use crow_commute::geometry::{Facing, Pos};
use crow_commute::pursuit::pursuit_direction;
use crow_commute::tick::Effects;
use crow_commute::world::{Adversary, Game, Keys, Player, Status, Target};

// Coordinates are in half units: 2 is one unit of playfield distance.

fn no_keys() -> Keys {
    Keys { up: false, left: false, right: false, down: false }
}

fn keys(up: bool, left: bool, right: bool, down: bool) -> Keys {
    Keys { up, left, right, down }
}

fn game(status: Status, player: Pos, active: bool) -> Game {
    Game {
        status,
        player: Player { pos: player, facing: Facing::Up, active },
        target: Target { pos: Pos { x: -1000, y: 800 }, active: true, collected: 0 },
        adversary: Adversary { pos: Pos { x: 1600, y: -900 }, facing: Facing::Up },
    }
}

fn start_defaults(g: &Game) {
    assert_eq!(g.player.pos, Pos { x: 850, y: -600 });
    assert_eq!(g.player.facing, Facing::Up);
    assert!(!g.player.active);
    assert!(!g.target.active);
    assert_eq!(g.target.collected, 0);
    assert_eq!(g.adversary.pos, Pos { x: 0, y: 0 });
    assert_eq!(g.adversary.facing, Facing::Up);
}

#[test]
fn setup_places_the_entities() {
    let g = Game::setup();
    assert_eq!(g.status, Status::Idle);
    assert_eq!(g.player.pos, Pos { x: 850, y: -600 });
    assert!(!g.player.active);
    assert_eq!(g.target.pos, Pos { x: 400, y: 0 });
    assert!(!g.target.active);
    assert_eq!(g.target.collected, 0);
    assert_eq!(g.adversary.pos, Pos { x: 0, y: 0 });
}

#[test]
fn collision_takes_nearby_target() {
    // Player at (0, 0), target at (10, 10) units, reach 30 units.
    let mut g = game(Status::Active, Pos { x: 0, y: 0 }, true);
    g.target = Target { pos: Pos { x: 20, y: 20 }, active: true, collected: 0 };
    g.collision();
    assert_eq!(g.target.collected, 1);
    assert!(!g.target.active);
    assert_eq!(g.status, Status::Active);
}

#[test]
fn collision_reach_edges() {
    let mut g = game(Status::Active, Pos { x: 0, y: 0 }, true);
    g.target = Target { pos: Pos { x: 60, y: -60 }, active: true, collected: 3 };
    g.adversary.pos = Pos { x: 92, y: 0 };
    g.collision();
    assert_eq!(g.target.collected, 4);
    assert_eq!(g.status, Status::Active);

    let mut g = game(Status::Active, Pos { x: 0, y: 0 }, true);
    g.target = Target { pos: Pos { x: 62, y: 0 }, active: true, collected: 3 };
    g.adversary.pos = Pos { x: -90, y: 90 };
    g.collision();
    assert_eq!(g.target.collected, 3);
    assert!(g.target.active);
    assert_eq!(g.status, Status::Lost);
}

#[test]
fn collision_loss_is_idempotent() {
    let mut g = game(Status::Lost, Pos { x: 0, y: 0 }, true);
    g.adversary.pos = Pos { x: 10, y: 10 };
    g.collision();
    assert_eq!(g.status, Status::Lost);
}

#[test]
fn win_check_starts_sequence_and_walk_ends_it() {
    let mut g = game(Status::Active, Pos { x: 800, y: -600 }, true);
    g.target.collected = 10;
    g.success_check();
    assert_eq!(g.status, Status::WinSequenceActive);
    assert_eq!(g.target.collected, 0);

    assert!(g.success_sequence());
    assert!(!g.player.active);
    assert_eq!(g.player.facing, Facing::Right);
    assert_eq!(g.target.pos.x, 4000);
    assert_eq!(g.adversary.pos.x, 4000);
    assert_eq!(g.player.pos.x, 800);

    let mut xs = Vec::new();
    while g.status == Status::WinSequenceActive {
        assert!(!g.success_sequence());
        xs.push(g.player.pos.x);
        assert!(xs.len() < 100);
    }
    // One unit per tick from 400 to 425 units, then the end of the win.
    let expected: Vec<i32> = (401..=425).map(|u| 2 * u).chain(std::iter::once(850)).collect();
    assert_eq!(xs, expected);
    assert_eq!(g.status, Status::WinEnded);
}

#[test]
fn win_check_below_threshold_does_nothing() {
    let mut g = game(Status::Active, Pos { x: 0, y: 0 }, true);
    g.target.collected = 9;
    let before = g;
    g.success_check();
    assert_eq!(g, before);
}

#[test]
fn loss_resets_to_lockout_then_idle() {
    let mut g = game(Status::Lost, Pos { x: 100, y: 100 }, true);
    g.target.collected = 7;
    assert!(g.reset());
    assert_eq!(g.status, Status::LockedOut);
    start_defaults(&g);
    // A second reset in the lockout does nothing.
    let held = g;
    assert!(!g.reset());
    assert_eq!(g, held);
    // Holding a key keeps the lockout; releasing every key ends it.
    g.movement(keys(true, false, false, false));
    assert_eq!(g, held);
    g.movement(no_keys());
    assert_eq!(g.status, Status::Idle);
    assert_eq!(g.player, held.player);
}

#[test]
fn loss_reset_through_whole_ticks() {
    let mut g = game(Status::Active, Pos { x: 0, y: 0 }, true);
    g.adversary.pos = Pos { x: 40, y: 40 };
    let e = g.step(no_keys(), Pos { x: 0, y: 0 });
    assert_eq!(e, Effects { game_over: true, credits: false, clear_messages: false });
    assert_eq!(g.status, Status::LockedOut);
    assert_eq!(g.player.pos, Pos { x: 850, y: -600 });
    assert_eq!(g.adversary.pos, Pos { x: 0, y: 0 });
    // The waiting target is placed again on the next tick, and the lockout ends.
    let e = g.step(no_keys(), Pos { x: -100, y: 200 });
    assert_eq!(e, Effects { game_over: false, credits: false, clear_messages: false });
    assert_eq!(g.status, Status::Idle);
    assert_eq!(g.target.pos, Pos { x: -100, y: 200 });
    assert!(g.target.active);
}

#[test]
fn lost_with_inactive_player_waits() {
    let mut g = game(Status::Lost, Pos { x: 0, y: 0 }, false);
    let before = g;
    assert!(!g.reset());
    assert_eq!(g, before);
}

#[test]
fn ended_win_resets_to_idle_without_message() {
    let mut g = game(Status::WinEnded, Pos { x: 850, y: -600 }, false);
    g.target.collected = 2;
    assert!(!g.reset());
    assert_eq!(g.status, Status::Idle);
    start_defaults(&g);
}

#[test]
fn movement_priority_and_facing() {
    let mut g = game(Status::Active, Pos { x: 0, y: 0 }, true);
    g.movement(keys(true, true, true, true));
    assert_eq!(g.player.pos, Pos { x: 0, y: 2 });
    assert_eq!(g.player.facing, Facing::Up);
    g.movement(keys(false, true, true, true));
    assert_eq!(g.player.pos, Pos { x: -2, y: 2 });
    assert_eq!(g.player.facing, Facing::Left);
    g.movement(keys(false, false, true, true));
    assert_eq!(g.player.pos, Pos { x: 0, y: 2 });
    assert_eq!(g.player.facing, Facing::Right);
    g.movement(keys(false, false, false, true));
    assert_eq!(g.player.pos, Pos { x: 0, y: 0 });
    assert_eq!(g.player.facing, Facing::Down);
    g.movement(no_keys());
    assert_eq!(g.player.pos, Pos { x: 0, y: 0 });
    assert_eq!(g.player.facing, Facing::Down);
}

#[test]
fn movement_clamps_at_the_edges() {
    let mut g = game(Status::Active, Pos { x: 1810, y: 970 }, true);
    g.movement(keys(true, false, false, false));
    assert_eq!(g.player.pos, Pos { x: 1810, y: 970 });
    g.movement(keys(false, false, true, false));
    assert_eq!(g.player.pos, Pos { x: 1810, y: 970 });

    let mut g = game(Status::Active, Pos { x: -1810, y: -970 }, true);
    g.movement(keys(false, true, false, false));
    assert_eq!(g.player.pos, Pos { x: -1810, y: -970 });
    g.movement(keys(false, false, false, true));
    assert_eq!(g.player.pos, Pos { x: -1810, y: -970 });
}

#[test]
fn movement_clamps_without_keys() {
    let mut g = game(Status::Active, Pos { x: 2000, y: -1000 }, true);
    g.movement(no_keys());
    assert_eq!(g.player.pos, Pos { x: 1810, y: -970 });
    assert_eq!(g.player.facing, Facing::Up);
}

#[test]
fn player_stays_in_bounds_over_many_ticks() {
    let mut g = game(Status::Active, Pos { x: 0, y: 0 }, true);
    g.adversary.pos = Pos { x: -1800, y: -960 };
    for _ in 0..1200 {
        g.step(keys(true, false, false, false), Pos { x: 0, y: 0 });
    }
    for _ in 0..2000 {
        g.step(keys(false, false, true, false), Pos { x: 0, y: 0 });
    }
    assert!(g.player.pos.x <= 1810 && g.player.pos.x >= -1810);
    assert!(g.player.pos.y <= 970 && g.player.pos.y >= -970);
}

#[test]
fn movement_starts_idle_round_only() {
    let mut g = game(Status::Idle, Pos { x: 0, y: 0 }, false);
    g.movement(keys(false, false, false, true));
    assert_eq!(g.status, Status::Active);
    assert!(g.player.active);

    let mut g = game(Status::Uninitialized, Pos { x: 0, y: 0 }, false);
    g.movement(keys(false, false, false, true));
    assert_eq!(g.status, Status::Uninitialized);
    assert!(g.player.active);

    let mut g = game(Status::Idle, Pos { x: 0, y: 0 }, false);
    g.movement(no_keys());
    assert_eq!(g.status, Status::Idle);
    assert!(!g.player.active);
}

#[test]
fn movement_blocked_in_win_sequence() {
    let mut g = game(Status::WinSequenceActive, Pos { x: 0, y: 0 }, false);
    let before = g;
    g.movement(keys(true, false, false, false));
    assert_eq!(g, before);
    g.movement(no_keys());
    assert_eq!(g, before);
}

#[test]
fn placement_uses_drawn_point_then_final_spot() {
    let mut g = game(Status::Active, Pos { x: 0, y: 0 }, true);
    g.target = Target { pos: Pos { x: 0, y: 0 }, active: false, collected: 8 };
    g.place_worm_at(Pos { x: 300, y: -400 });
    assert_eq!(g.target.pos, Pos { x: 300, y: -400 });
    assert!(g.target.active);

    g.target = Target { pos: Pos { x: 0, y: 0 }, active: false, collected: 9 };
    g.place_worm_at(Pos { x: 300, y: -400 });
    assert_eq!(g.target.pos, Pos { x: -1720, y: -600 });
    assert!(g.target.active);
}

#[test]
fn placement_skips_active_target_and_win_sequence() {
    let mut g = game(Status::Active, Pos { x: 0, y: 0 }, true);
    let before = g;
    g.place_worm_at(Pos { x: 300, y: -400 });
    assert_eq!(g, before);

    let mut g = game(Status::WinSequenceActive, Pos { x: 0, y: 0 }, false);
    g.target.active = false;
    let before = g;
    g.place_worm_at(Pos { x: 300, y: -400 });
    assert_eq!(g, before);
}

#[test]
fn random_placement_stays_in_bounds() {
    let mut seen = Vec::new();
    for _ in 0..64 {
        let mut g = game(Status::Active, Pos { x: 0, y: 0 }, true);
        g.target.active = false;
        g.place_worm();
        assert!(g.target.active);
        let p = g.target.pos;
        assert!(p.x % 2 == 0 && p.y % 2 == 0);
        assert!(-1810 <= p.x && p.x < 1810);
        assert!(-970 <= p.y && p.y < 970);
        seen.push(p);
    }
    assert!(seen.iter().any(|p| *p != seen[0]));
}

#[test]
fn drawn_points_vary_within_range() {
    let mut xs = Vec::new();
    for _ in 0..64 {
        let d = draw_position();
        assert!(-1810 <= d.x && d.x < 1810 && d.x % 2 == 0);
        assert!(-970 <= d.y && d.y < 970 && d.y % 2 == 0);
        xs.push(d.x);
    }
    assert!(xs.iter().any(|x| *x != -1810));
    assert!(xs.iter().any(|x| *x != xs[0]));
}

#[test]
fn pursuit_axis_rules() {
    let p = Pos { x: 10, y: 10 };
    assert_eq!(pursuit_direction(Pos { x: 10, y: 4 }, p), Facing::Up);
    assert_eq!(pursuit_direction(Pos { x: 10, y: 10 }, p), Facing::Up);
    assert_eq!(pursuit_direction(Pos { x: 20, y: 10 }, p), Facing::Left);
    assert_eq!(pursuit_direction(Pos { x: 2, y: 10 }, p), Facing::Right);
    assert_eq!(pursuit_direction(Pos { x: 10, y: 30 }, p), Facing::Down);
}

#[test]
fn pursuit_diagonal_rules() {
    let p = Pos { x: 10, y: 10 };
    assert_eq!(pursuit_direction(Pos { x: 20, y: 4 }, p), Facing::UpLeft);
    assert_eq!(pursuit_direction(Pos { x: 2, y: 4 }, p), Facing::UpRight);
    assert_eq!(pursuit_direction(Pos { x: 20, y: 30 }, p), Facing::DownLeft);
    assert_eq!(pursuit_direction(Pos { x: 2, y: 30 }, p), Facing::DownRight);
}

#[test]
fn chase_steps_half_unit_toward_active_player() {
    let mut g = game(Status::Active, Pos { x: 0, y: 0 }, true);
    g.adversary.pos = Pos { x: 100, y: -100 };
    g.chase_player();
    assert_eq!(g.adversary.pos, Pos { x: 99, y: -99 });
    assert_eq!(g.adversary.facing, Facing::UpLeft);

    g.adversary.pos = Pos { x: 0, y: 50 };
    g.chase_player();
    assert_eq!(g.adversary.pos, Pos { x: 0, y: 49 });
    assert_eq!(g.adversary.facing, Facing::Down);

    let mut g = game(Status::Idle, Pos { x: 0, y: 0 }, false);
    let before = g;
    g.chase_player();
    assert_eq!(g, before);
}

#[test]
fn messages_clear_only_while_active() {
    assert!(game(Status::Active, Pos { x: 0, y: 0 }, true).despawn_text());
    assert!(!game(Status::Idle, Pos { x: 0, y: 0 }, false).despawn_text());
    assert!(!game(Status::LockedOut, Pos { x: 0, y: 0 }, false).despawn_text());
}

#[test]
fn collected_grows_then_returns_to_zero() {
    let mut g = game(Status::Active, Pos { x: 0, y: 0 }, true);
    let mut counts = Vec::new();
    for _ in 0..10 {
        g.target.pos = Pos { x: 4, y: -4 };
        g.step(no_keys(), Pos { x: 1000, y: 600 });
        counts.push(g.target.collected);
    }
    assert_eq!(counts, vec![1, 2, 3, 4, 5, 6, 7, 8, 9, 0]);
    assert_eq!(g.status, Status::WinSequenceActive);
}

#[test]
fn first_key_starts_round_and_clears_messages() {
    let mut g = game(Status::Idle, Pos { x: 850, y: -600 }, false);
    g.adversary.pos = Pos { x: 0, y: 0 };
    let e = g.step(keys(false, true, false, false), Pos { x: 0, y: 0 });
    assert_eq!(g.status, Status::Active);
    assert_eq!(g.player.pos, Pos { x: 848, y: -600 });
    assert_eq!(e, Effects { game_over: false, credits: false, clear_messages: true });
    // The adversary starts its pursuit in the same tick.
    assert_eq!(g.adversary.pos, Pos { x: 1, y: -1 });
}

#[test]
fn first_tick_after_setup_starts_round() {
    let mut g = Game::setup();
    let e = g.step(keys(false, false, true, false), Pos { x: -1000, y: 500 });
    assert_eq!(g.status, Status::Active);
    assert!(g.player.active);
    assert_eq!(g.player.pos, Pos { x: 852, y: -600 });
    assert_eq!(g.target.pos, Pos { x: -1000, y: 500 });
    assert!(e.clear_messages);
}

#[test]
fn pursuit_ignores_old_facing() {
    let mut a = game(Status::Active, Pos { x: 0, y: 0 }, true);
    a.adversary = Adversary { pos: Pos { x: -30, y: 40 }, facing: Facing::Left };
    let mut b = a;
    b.adversary.facing = Facing::DownLeft;
    a.chase_player();
    b.chase_player();
    assert_eq!(a.adversary, b.adversary);
    assert_eq!(a.adversary, Adversary { pos: Pos { x: -29, y: 39 }, facing: Facing::DownRight });
}

#[test]
fn win_walk_from_odd_start() {
    let mut g = game(Status::WinSequenceActive, Pos { x: 845, y: 0 }, false);
    assert!(!g.success_sequence());
    assert_eq!((g.status, g.player.pos.x), (Status::WinSequenceActive, 847));
    assert!(!g.success_sequence());
    assert_eq!((g.status, g.player.pos.x), (Status::WinSequenceActive, 849));
    assert!(!g.success_sequence());
    assert_eq!((g.status, g.player.pos.x), (Status::WinSequenceActive, 851));
    assert!(!g.success_sequence());
    assert_eq!((g.status, g.player.pos.x), (Status::WinEnded, 851));
}

#[test]
fn whole_round_to_a_win() {
    let mut g = Game::setup();
    g.target.collected = 9;
    g.target.active = true;
    g.target.pos = Pos { x: 846, y: -600 };
    let e = g.step(keys(false, true, false, false), Pos { x: 0, y: 0 });
    assert_eq!(e, Effects { game_over: false, credits: true, clear_messages: false });
    assert_eq!(g.status, Status::WinSequenceActive);
    assert_eq!(g.target.collected, 0);
    assert_eq!(g.target.pos, Pos { x: 4000, y: -600 });
    let mut ticks = 0;
    while g.status == Status::WinSequenceActive {
        g.step(no_keys(), Pos { x: 0, y: 0 });
        ticks += 1;
        assert!(ticks < 100);
    }
    assert_eq!(g.status, Status::WinEnded);
    assert_eq!(g.player.pos.x, 850);
    g.step(no_keys(), Pos { x: 0, y: 0 });
    assert_eq!(g.status, Status::Idle);
    assert_eq!(g.player.pos, Pos { x: 850, y: -600 });
}

#[test]
fn tick_keeps_state_in_bounds() {
    let mut g = Game::setup();
    for i in 0..300 {
        let k = keys(i % 3 == 0, i % 5 == 0, i % 7 == 0, i % 2 == 0);
        g.tick(k);
        assert!(g.player.pos.x.abs() <= 1810 && g.player.pos.y.abs() <= 970);
        assert_ne!(g.status, Status::Lost);
        assert_ne!(g.status, Status::Uninitialized);
    }
}
