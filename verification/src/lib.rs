//! A deterministic 2D arcade-shooter simulation core.
//!
//! The library models one fixed-rate "tick" of a side-scrolling shooter:
//! player motion (with optional gravity and jumping), timed adversary
//! spawning, adversary attacks (stochastic or periodic-volley), projectile
//! advancement and culling, collision resolution with scoring and damage,
//! and the terminal game-over transition.
//!
//! All quantities are fixed-point integers: lengths are tenths of a world
//! unit, times are sixtieths of a second. Randomness comes from a seedable
//! generator owned by the world, so every tick is a pure function of the
//! previous state, the input snapshot, and the elapsed time.

pub mod collision;
pub mod config;
pub mod entities;
pub mod geom;
pub mod input;
pub mod laws;
pub mod physics;
pub mod projectile;
pub mod rng;
pub mod spawn;
pub mod world;

pub use config::{AttackPolicy, Config, LethalityPolicy};
pub use entities::{Adversary, Player, Projectile};
pub use geom::{OverlapKind, Vec2i};
pub use input::InputSnapshot;
pub use rng::Rng;
pub use world::{GameState, Timers, World};
