//! Simulation parameters, resolved once at world construction: screen
//! bounds, motion constants, and the attack, lethality and overlap
//! policies that distinguish the game's variants.

use vstd::prelude::*;

use crate::geom::{wf_overlap_kind, OverlapKind, Vec2i, CFG_MAX};

verus! {

/// How adversaries decide to fire.
#[derive(Clone, Copy, PartialEq, Eq, Structural, Debug)]
pub enum AttackPolicy {
    /// Each tick, each adversary fires with probability `num / den`.
    Stochastic { num: u64, den: u64 },
    /// A global timer; every `interval`, every adversary fires at once.
    Periodic { interval: i64 },
}

/// What contact with adversary fire (or bodies) does to the player.
#[derive(Clone, Copy, PartialEq, Eq, Structural, Debug)]
pub enum LethalityPolicy {
    /// Any adversary projectile or adversary body overlapping the player
    /// kills instantly.
    InstantKill,
    /// A health pool of `max_health`, losing one point per hit, with at
    /// most one hit per `cooldown` of simulated time.
    HealthCooldown { max_health: i64, cooldown: i64 },
}

/// All constants of one simulation variant. Lengths are tenths of a world
/// unit, times are sixtieths of a second; `max_health` is a plain count.
#[derive(Clone, Copy, PartialEq, Eq, Structural, Debug)]
pub struct Config {
    pub screen_w: i64,
    pub screen_h: i64,
    /// Vertical coordinate of the ground line.
    pub ground_y: i64,
    pub player_h: i64,
    pub adversary_w: i64,
    pub adversary_h: i64,
    /// Horizontal (and, without physics, vertical) player speed per tick
    /// of held input.
    pub move_speed: i64,
    /// Whether gravity, jumping and the ground clamp apply; without them
    /// the up/down intents move the player directly.
    pub physics: bool,
    /// Downward velocity gained per tick.
    pub gravity: i64,
    /// Vertical velocity set on a jump (negative: upward).
    pub jump_impulse: i64,
    /// Rightward speed of player projectiles.
    pub player_shot_speed: i64,
    /// Leftward speed of adversary projectiles.
    pub adversary_shot_speed: i64,
    /// Where a player projectile appears, relative to the player.
    pub player_shot_off: Vec2i,
    /// Where an adversary projectile appears, relative to its adversary.
    pub adversary_shot_off: Vec2i,
    pub spawn_enabled: bool,
    /// Accumulated time at which one adversary is spawned and the spawn
    /// timer resets.
    pub spawn_interval: i64,
    pub attack: AttackPolicy,
    pub lethality: LethalityPolicy,
    /// How long the damage indicator stays armed after a hit.
    pub damage_display_time: i64,
    pub overlap: OverlapKind,
}

pub open spec fn wf_config(c: Config) -> bool {
    &&& 0 < c.screen_w <= CFG_MAX
    &&& 0 < c.screen_h <= CFG_MAX
    &&& 0 <= c.ground_y <= c.screen_h
    &&& 0 <= c.player_h <= CFG_MAX
    &&& 0 <= c.adversary_w <= c.screen_w
    &&& 0 <= c.adversary_h < c.screen_h
    &&& 0 <= c.move_speed <= CFG_MAX
    &&& 0 <= c.gravity <= CFG_MAX
    &&& -CFG_MAX <= c.jump_impulse <= 0
    &&& 0 <= c.player_shot_speed <= CFG_MAX
    &&& 0 <= c.adversary_shot_speed <= CFG_MAX
    &&& -CFG_MAX <= c.player_shot_off.x <= CFG_MAX
    &&& -CFG_MAX <= c.player_shot_off.y <= CFG_MAX
    &&& -CFG_MAX <= c.adversary_shot_off.x <= CFG_MAX
    &&& -CFG_MAX <= c.adversary_shot_off.y <= CFG_MAX
    &&& 0 < c.spawn_interval <= CFG_MAX
    &&& match c.attack {
        AttackPolicy::Stochastic { num, den } => den > 0,
        AttackPolicy::Periodic { interval } => 0 < interval <= CFG_MAX,
    }
    &&& match c.lethality {
        LethalityPolicy::InstantKill => true,
        LethalityPolicy::HealthCooldown { max_health, cooldown } => 0 < max_health <= CFG_MAX && 0
            < cooldown <= CFG_MAX,
    }
    &&& 0 < c.damage_display_time <= CFG_MAX
    &&& wf_overlap_kind(c.overlap)
}

/// The constants of the richest variant: physics on, a 2-second volley,
/// a health pool of 10 with a half-second cooldown, and distance-16
/// overlap, all in fixed-point units.
pub open spec fn classic_config_spec(screen_w: i64, screen_h: i64, ground_y: i64) -> Config {
    Config {
        screen_w,
        screen_h,
        ground_y,
        player_h: 300,
        adversary_w: 300,
        adversary_h: 300,
        move_speed: 30,
        physics: true,
        gravity: 4,
        jump_impulse: -80i64,
        player_shot_speed: 50,
        adversary_shot_speed: 40,
        player_shot_off: Vec2i { x: 200, y: 80 },
        adversary_shot_off: Vec2i { x: -50i64, y: 80 },
        spawn_enabled: false,
        spawn_interval: 90,
        attack: AttackPolicy::Periodic { interval: 120 },
        lethality: LethalityPolicy::HealthCooldown { max_health: 10, cooldown: 30 },
        damage_display_time: 30,
        overlap: OverlapKind::Distance { threshold: 160 },
    }
}

/// Builds `classic_config_spec` for the given screen, checking its
/// well-formedness.
pub fn classic_config(screen_w: i64, screen_h: i64, ground_y: i64) -> (r: Config)
    requires
        0 < screen_w <= CFG_MAX,
        300 < screen_h <= CFG_MAX,
        0 <= ground_y <= screen_h,
        300 <= screen_w,
    ensures
        r == classic_config_spec(screen_w, screen_h, ground_y),
        wf_config(r),
{
    Config {
        screen_w,
        screen_h,
        ground_y,
        player_h: 300,
        adversary_w: 300,
        adversary_h: 300,
        move_speed: 30,
        physics: true,
        gravity: 4,
        jump_impulse: -80,
        player_shot_speed: 50,
        adversary_shot_speed: 40,
        player_shot_off: Vec2i { x: 200, y: 80 },
        adversary_shot_off: Vec2i { x: -50, y: 80 },
        spawn_enabled: false,
        spawn_interval: 90,
        attack: AttackPolicy::Periodic { interval: 120 },
        lethality: LethalityPolicy::HealthCooldown { max_health: 10, cooldown: 30 },
        damage_display_time: 30,
        overlap: OverlapKind::Distance { threshold: 160 },
    }
}

} // verus!
