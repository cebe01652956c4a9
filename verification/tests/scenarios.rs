//! Scenario tests for the simulation core: gravity and the ground clamp,
//! projectile kills and scoring, the damage cooldown, and the spawn
//! timer boundary. Lengths are tenths of a unit, times sixtieths of a
//! second.

use shooter_core::config::classic_config;
use shooter_core::{Adversary, InputSnapshot, Projectile, Vec2i, World};

fn classic_world() -> World {
    let cfg = classic_config(8000, 6000, 4000);
    World::new(cfg, Vec2i { x: 1000, y: 3000 }, 7)
}

/// Dropped from height 300 with gravity 0.4 per tick, the player lands
/// on the ground line (ground 400 minus height 30) well before 90 ticks
/// and stays clamped there.
#[test]
fn gravity_lands_player_before_90_ticks() {
    let mut w = classic_world();
    let idle = InputSnapshot::idle();
    let mut first_grounded: Option<u32> = None;
    for t in 0..90u32 {
        w.tick(&idle, 1);
        if w.player.on_ground && first_grounded.is_none() {
            first_grounded = Some(t + 1);
        }
    }
    assert!(w.player.on_ground);
    assert_eq!(w.player.pos.y, 3700);
    assert_eq!(w.player.vel.y, 0);
    let landed = first_grounded.expect("player never landed");
    assert!(landed < 90);
}

/// A player projectile 10 units from an adversary (threshold 16) removes
/// it within one tick and the score becomes exactly 10; the projectile
/// itself is not consumed.
#[test]
fn projectile_kills_adversary_and_scores() {
    let mut w = classic_world();
    w.adversaries.push(Adversary { pos: Vec2i { x: 6000, y: 2000 } });
    w.player.shots.push(Projectile {
        pos: Vec2i { x: 5900, y: 2000 },
        from_adversary: false,
    });
    w.tick(&InputSnapshot::idle(), 1);
    assert_eq!(w.adversaries.len(), 0);
    assert_eq!(w.score, 10);
    assert_eq!(w.player.shots.len(), 1);
    assert_eq!(w.player.shots[0].pos.x, 5950);
}

/// One projectile overlapping two adversaries at once removes both in
/// the same tick, for exactly 10 points each.
#[test]
fn one_projectile_can_remove_two_adversaries() {
    let mut w = classic_world();
    w.adversaries.push(Adversary { pos: Vec2i { x: 6000, y: 2000 } });
    w.adversaries.push(Adversary { pos: Vec2i { x: 6100, y: 2000 } });
    w.player.shots.push(Projectile {
        pos: Vec2i { x: 5900, y: 2000 },
        from_adversary: false,
    });
    w.tick(&InputSnapshot::idle(), 1);
    assert_eq!(w.adversaries.len(), 0);
    assert_eq!(w.score, 20);
}

/// Overlapped by an adversary projectile every tick for 2 simulated
/// seconds at 60 ticks per second with a 0.5 s cooldown, the player
/// loses exactly 4 health points (at roughly 0, 0.5, 1.0 and 1.5 s),
/// not 120.
#[test]
fn damage_cooldown_limits_hits() {
    let mut w = classic_world();
    let idle = InputSnapshot::idle();
    for _ in 0..120 {
        w.foe_shots.clear();
        w.foe_shots.push(Projectile {
            pos: Vec2i { x: w.player.pos.x, y: w.player.pos.y },
            from_adversary: true,
        });
        w.tick(&idle, 1);
    }
    assert_eq!(w.player.health, 6);
    assert!(w.player.alive);
}

/// With the spawn timer at 0 and `dt` exactly the 1.5 s threshold
/// (boundary inclusive), exactly one adversary is spawned, at the right
/// edge with its vertical coordinate within the allowed band.
#[test]
fn spawn_fires_at_exact_threshold() {
    let mut cfg = classic_config(8000, 6000, 4000);
    cfg.spawn_enabled = true;
    let mut w = World::new(cfg, Vec2i { x: 1000, y: 3700 }, 9);
    w.tick(&InputSnapshot::idle(), 90);
    assert_eq!(w.adversaries.len(), 1);
    assert_eq!(w.timers.spawn, 0);
    assert_eq!(w.adversaries[0].pos.x, 7700);
    assert!(w.adversaries[0].pos.y >= 0 && w.adversaries[0].pos.y < 5700);
}

/// Just past the threshold, still exactly one adversary is spawned.
#[test]
fn spawn_fires_just_past_threshold() {
    let mut cfg = classic_config(8000, 6000, 4000);
    cfg.spawn_enabled = true;
    let mut w = World::new(cfg, Vec2i { x: 1000, y: 3700 }, 9);
    w.tick(&InputSnapshot::idle(), 91);
    assert_eq!(w.adversaries.len(), 1);
    assert_eq!(w.timers.spawn, 0);
}

/// Just below the threshold, nothing spawns and the timer accumulates.
#[test]
fn spawn_holds_below_threshold() {
    let mut cfg = classic_config(8000, 6000, 4000);
    cfg.spawn_enabled = true;
    let mut w = World::new(cfg, Vec2i { x: 1000, y: 3700 }, 9);
    w.tick(&InputSnapshot::idle(), 89);
    assert_eq!(w.adversaries.len(), 0);
    assert_eq!(w.timers.spawn, 89);
}

/// The same seed spawns the adversary at the same drawn height.
#[test]
fn same_seed_same_spawn_height() {
    let mut cfg = classic_config(8000, 6000, 4000);
    cfg.spawn_enabled = true;
    let mut a = World::new(cfg, Vec2i { x: 1000, y: 3700 }, 42);
    let mut b = World::new(cfg, Vec2i { x: 1000, y: 3700 }, 42);
    a.tick(&InputSnapshot::idle(), 90);
    b.tick(&InputSnapshot::idle(), 90);
    assert_eq!(a.adversaries[0].pos.y, b.adversaries[0].pos.y);
}
