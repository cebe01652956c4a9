//! Tests for the attack, lethality and overlap policies, projectile
//! culling, movement, and the game-over freeze.

use shooter_core::config::classic_config;
use shooter_core::{
    Adversary, AttackPolicy, GameState, InputSnapshot, LethalityPolicy, OverlapKind, Projectile,
    Vec2i, World,
};

fn grounded_world() -> World {
    let cfg = classic_config(8000, 6000, 4000);
    World::new(cfg, Vec2i { x: 1000, y: 3700 }, 7)
}

/// After 2 s the periodic volley fires one projectile per adversary, at
/// the configured offset, already advanced by one tick; the attack
/// timer resets.
#[test]
fn periodic_volley_fires_every_adversary() {
    let mut w = grounded_world();
    w.adversaries.push(Adversary { pos: Vec2i { x: 7700, y: 2000 } });
    w.adversaries.push(Adversary { pos: Vec2i { x: 7700, y: 4000 } });
    w.tick(&InputSnapshot::idle(), 120);
    assert_eq!(w.foe_shots.len(), 2);
    assert_eq!(w.foe_shots[0].pos, Vec2i { x: 7610, y: 2080 });
    assert_eq!(w.foe_shots[1].pos, Vec2i { x: 7610, y: 4080 });
    assert!(w.foe_shots.iter().all(|s| s.from_adversary));
    assert_eq!(w.timers.attack, 0);
}

/// Below the 2 s interval no volley fires and the attack timer
/// accumulates.
#[test]
fn periodic_volley_waits_for_interval() {
    let mut w = grounded_world();
    w.adversaries.push(Adversary { pos: Vec2i { x: 7700, y: 2000 } });
    w.tick(&InputSnapshot::idle(), 119);
    assert_eq!(w.foe_shots.len(), 0);
    assert_eq!(w.timers.attack, 119);
}

/// A certain stochastic policy (probability 1) fires one projectile per
/// adversary per tick.
#[test]
fn stochastic_certain_fires_each_tick() {
    let mut cfg = classic_config(8000, 6000, 4000);
    cfg.attack = AttackPolicy::Stochastic { num: 1, den: 1 };
    let mut w = World::new(cfg, Vec2i { x: 1000, y: 3700 }, 3);
    w.adversaries.push(Adversary { pos: Vec2i { x: 7700, y: 2000 } });
    for _ in 0..3 {
        w.tick(&InputSnapshot::idle(), 1);
    }
    assert_eq!(w.foe_shots.len(), 3);
}

/// An impossible stochastic policy (probability 0) never fires.
#[test]
fn stochastic_impossible_never_fires() {
    let mut cfg = classic_config(8000, 6000, 4000);
    cfg.attack = AttackPolicy::Stochastic { num: 0, den: 100 };
    let mut w = World::new(cfg, Vec2i { x: 1000, y: 3700 }, 3);
    w.adversaries.push(Adversary { pos: Vec2i { x: 7700, y: 2000 } });
    for _ in 0..10 {
        w.tick(&InputSnapshot::idle(), 1);
    }
    assert_eq!(w.foe_shots.len(), 0);
}

/// Under instant kill, an adversary body overlapping the player ends the
/// game at once.
#[test]
fn instant_kill_by_adversary_body() {
    let mut cfg = classic_config(8000, 6000, 4000);
    cfg.lethality = LethalityPolicy::InstantKill;
    let mut w = World::new(cfg, Vec2i { x: 1000, y: 3700 }, 3);
    w.adversaries.push(Adversary { pos: Vec2i { x: 1050, y: 3700 } });
    w.tick(&InputSnapshot::idle(), 1);
    assert!(!w.player.alive);
    assert_eq!(w.state, GameState::GameOver);
    assert!(w.is_game_over());
}

/// Under instant kill, an adversary projectile overlapping the player
/// ends the game at once.
#[test]
fn instant_kill_by_adversary_projectile() {
    let mut cfg = classic_config(8000, 6000, 4000);
    cfg.lethality = LethalityPolicy::InstantKill;
    let mut w = World::new(cfg, Vec2i { x: 1000, y: 3700 }, 3);
    w.foe_shots.push(Projectile {
        pos: Vec2i { x: 1040, y: 3700 },
        from_adversary: true,
    });
    w.tick(&InputSnapshot::idle(), 1);
    assert!(!w.player.alive);
    assert_eq!(w.state, GameState::GameOver);
}

/// The rectangle overlap predicate also detects hits.
#[test]
fn rect_overlap_detects_hit() {
    let mut cfg = classic_config(8000, 6000, 4000);
    cfg.overlap = OverlapKind::Rect { w: 300, h: 300 };
    let mut w = World::new(cfg, Vec2i { x: 1000, y: 3700 }, 3);
    w.adversaries.push(Adversary { pos: Vec2i { x: 6000, y: 2000 } });
    w.player.shots.push(Projectile {
        pos: Vec2i { x: 5750, y: 1900 },
        from_adversary: false,
    });
    w.tick(&InputSnapshot::idle(), 1);
    assert_eq!(w.adversaries.len(), 0);
    assert_eq!(w.score, 10);
}

/// The rectangle overlap predicate rejects boxes that merely share a
/// column but are vertically apart.
#[test]
fn rect_overlap_rejects_vertically_apart() {
    let mut cfg = classic_config(8000, 6000, 4000);
    cfg.overlap = OverlapKind::Rect { w: 300, h: 300 };
    let mut w = World::new(cfg, Vec2i { x: 1000, y: 3700 }, 3);
    w.adversaries.push(Adversary { pos: Vec2i { x: 6000, y: 2000 } });
    w.player.shots.push(Projectile {
        pos: Vec2i { x: 5750, y: 1000 },
        from_adversary: false,
    });
    w.tick(&InputSnapshot::idle(), 1);
    assert_eq!(w.adversaries.len(), 1);
    assert_eq!(w.score, 0);
}

/// Projectiles that cross either horizontal bound are purged the same
/// tick; one in the middle keeps flying.
#[test]
fn projectiles_outside_bounds_are_purged() {
    let mut w = grounded_world();
    w.player.shots.push(Projectile {
        pos: Vec2i { x: 7990, y: 2000 },
        from_adversary: false,
    });
    w.player.shots.push(Projectile {
        pos: Vec2i { x: 4000, y: 2000 },
        from_adversary: false,
    });
    w.foe_shots.push(Projectile {
        pos: Vec2i { x: 30, y: 2000 },
        from_adversary: true,
    });
    w.tick(&InputSnapshot::idle(), 1);
    assert_eq!(w.player.shots.len(), 1);
    assert_eq!(w.player.shots[0].pos.x, 4050);
    assert_eq!(w.foe_shots.len(), 0);
}

/// Once the player dies, further ticks freeze everything but the
/// background-scroll accumulator.
#[test]
fn game_over_freezes_everything_but_scroll() {
    let mut w = grounded_world();
    let idle = InputSnapshot::idle();
    // Wear the health pool down to zero under constant overlap.
    for _ in 0..300 {
        w.foe_shots.clear();
        w.foe_shots.push(Projectile {
            pos: Vec2i { x: w.player.pos.x, y: w.player.pos.y },
            from_adversary: true,
        });
        w.tick(&idle, 1);
    }
    assert_eq!(w.player.health, 0);
    assert!(!w.player.alive);
    assert_eq!(w.state, GameState::GameOver);
    let pos = w.player.pos;
    let score = w.score;
    let shots = w.foe_shots.len();
    let advs = w.adversaries.len();
    let now = w.timers.now;
    let scroll = w.timers.bg_scroll;
    let moving = InputSnapshot {
        left: true,
        right: false,
        up: false,
        down: false,
        jump_pressed: true,
        fire_pressed: true,
    };
    for _ in 0..10 {
        w.tick(&moving, 1);
    }
    assert_eq!(w.player.pos, pos);
    assert_eq!(w.player.health, 0);
    assert_eq!(w.score, score);
    assert_eq!(w.foe_shots.len(), shots);
    assert_eq!(w.adversaries.len(), advs);
    assert_eq!(w.timers.now, now);
    assert_eq!(w.timers.bg_scroll, scroll + 10);
}

/// Contradictory horizontal input applies both deltas in fixed order:
/// the net movement is zero.
#[test]
fn both_directions_cancel() {
    let mut w = grounded_world();
    let input = InputSnapshot {
        left: true,
        right: true,
        up: false,
        down: false,
        jump_pressed: false,
        fire_pressed: false,
    };
    w.tick(&input, 1);
    assert_eq!(w.player.pos.x, 1000);
}

/// A freshly pressed jump while grounded applies the impulse (plus one
/// tick of gravity) and leaves the ground.
#[test]
fn jump_leaves_ground() {
    let mut w = grounded_world();
    let idle = InputSnapshot::idle();
    w.tick(&idle, 1);
    assert!(w.player.on_ground);
    let jump = InputSnapshot {
        left: false,
        right: false,
        up: false,
        down: false,
        jump_pressed: true,
        fire_pressed: false,
    };
    w.tick(&jump, 1);
    assert!(!w.player.on_ground);
    assert_eq!(w.player.vel.y, -76);
    assert_eq!(w.player.pos.y, 3624);
}

/// Without physics, the up and down intents move the player directly.
#[test]
fn direct_vertical_movement_without_physics() {
    let mut cfg = classic_config(8000, 6000, 4000);
    cfg.physics = false;
    let mut w = World::new(cfg, Vec2i { x: 1000, y: 3000 }, 3);
    let up = InputSnapshot {
        left: false,
        right: false,
        up: true,
        down: false,
        jump_pressed: false,
        fire_pressed: false,
    };
    w.tick(&up, 1);
    assert_eq!(w.player.pos.y, 2970);
    assert_eq!(w.player.pos.x, 1000);
}

/// A fire press appends one player projectile at the configured offset
/// from the player, already advanced by one tick.
#[test]
fn fire_press_spawns_projectile() {
    let mut w = grounded_world();
    let fire = InputSnapshot {
        left: false,
        right: false,
        up: false,
        down: false,
        jump_pressed: false,
        fire_pressed: true,
    };
    w.tick(&fire, 1);
    assert_eq!(w.player.shots.len(), 1);
    assert_eq!(w.player.shots[0].pos, Vec2i { x: 1250, y: 3780 });
    assert!(!w.player.shots[0].from_adversary);
}
