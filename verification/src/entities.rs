//! The moving things the world owns: projectiles, adversaries, and the
//! player, together with the player's ghost-level view.

use vstd::prelude::*;

use crate::geom::Vec2i;

verus! {

/// A projectile, tagged by owner. Player-owned projectiles move right,
/// adversary-owned ones move left.
#[derive(Clone, Copy, PartialEq, Eq, Structural, Debug)]
pub struct Projectile {
    pub pos: Vec2i,
    pub from_adversary: bool,
}

/// An adversary, at a fixed position until a player projectile removes
/// it.
#[derive(Clone, Copy, PartialEq, Eq, Structural, Debug)]
pub struct Adversary {
    pub pos: Vec2i,
}

/// The player entity; it lives as long as the world, only its `alive`
/// flag ever goes out. It owns the projectiles it fired, in fire order.
pub struct Player {
    pub pos: Vec2i,
    /// Velocity; only the vertical component is meaningful, and only when
    /// physics is enabled.
    pub vel: Vec2i,
    pub on_ground: bool,
    pub health: i64,
    pub max_health: i64,
    pub alive: bool,
    pub shots: Vec<Projectile>,
}

/// Ghost view of the player, with the shots as a sequence.
#[verifier::ext_equal]
pub ghost struct PlayerV {
    pub pos: Vec2i,
    pub vel: Vec2i,
    pub on_ground: bool,
    pub health: i64,
    pub max_health: i64,
    pub alive: bool,
    pub shots: Seq<Projectile>,
}

impl View for Player {
    type V = PlayerV;

    open spec fn view(&self) -> PlayerV {
        PlayerV {
            pos: self.pos,
            vel: self.vel,
            on_ground: self.on_ground,
            health: self.health,
            max_health: self.max_health,
            alive: self.alive,
            shots: self.shots@,
        }
    }
}

} // verus!
