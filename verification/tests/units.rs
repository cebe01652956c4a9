//! Unit tests for the leaf pieces: the random source, the configuration
//! builder, input snapshots, and the freshly created world.

use shooter_core::config::classic_config;
use shooter_core::{
    AttackPolicy, GameState, InputSnapshot, LethalityPolicy, OverlapKind, Rng, Vec2i, World,
};

/// Draws stay below the bound and the stream is reproducible from the
/// seed.
#[test]
fn rng_draws_in_range_and_reproducibly() {
    let mut a = Rng::new(12345);
    let mut b = Rng::new(12345);
    for n in [1u64, 2, 7, 100, 5700] {
        let x = a.next_below(n);
        let y = b.next_below(n);
        assert!(x < n);
        assert_eq!(x, y);
    }
    let mut c = Rng::new(12345);
    let first = c.next_below(5700);
    let second = c.next_below(5700);
    // The state advances between draws.
    assert_ne!(c.state, 12345);
    let mut d = Rng::new(12345);
    assert_eq!(d.next_below(5700), first);
    assert_eq!(d.next_below(5700), second);
}

/// The classic configuration carries the richest variant's constants in
/// fixed-point units.
#[test]
fn classic_config_constants() {
    let cfg = classic_config(8000, 6000, 4000);
    assert_eq!(cfg.screen_w, 8000);
    assert_eq!(cfg.screen_h, 6000);
    assert_eq!(cfg.ground_y, 4000);
    assert_eq!(cfg.player_h, 300);
    assert_eq!(cfg.move_speed, 30);
    assert!(cfg.physics);
    assert_eq!(cfg.gravity, 4);
    assert_eq!(cfg.jump_impulse, -80);
    assert_eq!(cfg.player_shot_speed, 50);
    assert_eq!(cfg.adversary_shot_speed, 40);
    assert_eq!(cfg.player_shot_off, Vec2i { x: 200, y: 80 });
    assert_eq!(cfg.adversary_shot_off, Vec2i { x: -50, y: 80 });
    assert!(!cfg.spawn_enabled);
    assert_eq!(cfg.spawn_interval, 90);
    assert_eq!(cfg.attack, AttackPolicy::Periodic { interval: 120 });
    assert_eq!(
        cfg.lethality,
        LethalityPolicy::HealthCooldown {
            max_health: 10,
            cooldown: 30
        }
    );
    assert_eq!(cfg.damage_display_time, 30);
    assert_eq!(cfg.overlap, OverlapKind::Distance { threshold: 160 });
}

/// The idle snapshot holds no intent.
#[test]
fn idle_snapshot_is_empty() {
    let i = InputSnapshot::idle();
    assert!(!i.left && !i.right && !i.up && !i.down);
    assert!(!i.jump_pressed && !i.fire_pressed);
}

/// A fresh world starts alive and empty, with a full health pool, all
/// timers at zero and the hit cooldown pre-expired.
#[test]
fn new_world_initial_state() {
    let cfg = classic_config(8000, 6000, 4000);
    let w = World::new(cfg, Vec2i { x: 1000, y: 3000 }, 5);
    assert_eq!(w.player.pos, Vec2i { x: 1000, y: 3000 });
    assert_eq!(w.player.vel, Vec2i { x: 0, y: 0 });
    assert!(!w.player.on_ground);
    assert_eq!(w.player.health, 10);
    assert_eq!(w.player.max_health, 10);
    assert!(w.player.alive);
    assert!(w.player.shots.is_empty());
    assert!(w.adversaries.is_empty());
    assert!(w.foe_shots.is_empty());
    assert_eq!(w.timers.now, 0);
    assert_eq!(w.timers.spawn, 0);
    assert_eq!(w.timers.attack, 0);
    assert_eq!(w.timers.last_hit, -30);
    assert_eq!(w.timers.damage_display, 0);
    assert_eq!(w.timers.bg_scroll, 0);
    assert!(!w.show_damage);
    assert_eq!(w.score, 0);
    assert_eq!(w.state, GameState::Playing);
    assert_eq!(w.rng.state, 5);
    assert!(!w.is_game_over());
}

/// An instant-kill world starts with a unit health pool.
#[test]
fn new_instant_kill_world() {
    let mut cfg = classic_config(8000, 6000, 4000);
    cfg.lethality = LethalityPolicy::InstantKill;
    let w = World::new(cfg, Vec2i { x: 1000, y: 3000 }, 5);
    assert_eq!(w.player.health, 1);
    assert_eq!(w.timers.last_hit, 0);
    assert!(w.player.alive);
}

/// The damage indicator arms on a hit and clears once its timer runs
/// out.
#[test]
fn damage_indicator_arms_and_clears() {
    let cfg = classic_config(8000, 6000, 4000);
    let mut w = World::new(cfg, Vec2i { x: 1000, y: 3700 }, 5);
    w.foe_shots.push(shooter_core::Projectile {
        pos: Vec2i { x: 1040, y: 3700 },
        from_adversary: true,
    });
    w.tick(&InputSnapshot::idle(), 1);
    assert!(w.show_damage);
    assert_eq!(w.timers.damage_display, 29);
    for _ in 0..29 {
        w.tick(&InputSnapshot::idle(), 1);
    }
    assert!(!w.show_damage);
    assert_eq!(w.timers.damage_display, 0);
}
