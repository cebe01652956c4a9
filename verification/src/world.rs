//! The world: the one unit the caller ticks once per frame. It owns the
//! player, the adversary and projectile collections, the timers, the
//! score, the terminal state, and the injected random source.

use vstd::prelude::*;

use crate::collision::{
    cull_adversaries, damage_model, display_model, lemma_surviving_sub, resolve_player_damage,
    state_model, surviving, update_damage_display,
};
use crate::config::{wf_config, AttackPolicy, Config, LethalityPolicy};
use crate::entities::{Adversary, Player, PlayerV, Projectile};
use crate::geom::{Vec2i, CFG_MAX, COORD_LIMIT, COORD_ROOM};
use crate::input::InputSnapshot;
use crate::physics::{fire_model, fire_player, integrate_model, integrate_player};
use crate::projectile::{advance_and_cull, advance_cull_model, lemma_advance_cull_props};
use crate::rng::Rng;
use crate::spawn::{
    attack_model, attack_step, lemma_stochastic_props, lemma_volley_props, spawn_model, spawn_step,
    spawned_adversary,
};

verus! {

/// The named countdown and accumulator values, all advanced inside the
/// tick. Times are sixtieths of a second.
#[derive(Clone, Copy, PartialEq, Eq, Structural, Debug)]
pub struct Timers {
    /// Simulated time since the world was created.
    pub now: i64,
    /// Time accumulated toward the next adversary spawn.
    pub spawn: i64,
    /// Time accumulated toward the next periodic volley.
    pub attack: i64,
    /// The simulated time of the last recorded player hit.
    pub last_hit: i64,
    /// Remaining time the damage indicator stays armed.
    pub damage_display: i64,
    /// The background-scroll accumulator; pure presentation state, the
    /// one value that keeps advancing after game over.
    pub bg_scroll: i64,
}

/// `Playing` until the player's `alive` flag goes out, then `GameOver`,
/// which is terminal.
#[derive(Clone, Copy, PartialEq, Eq, Structural, Debug)]
pub enum GameState {
    Playing,
    GameOver,
}

/// The whole simulation state.
pub struct World {
    pub cfg: Config,
    pub player: Player,
    pub adversaries: Vec<Adversary>,
    /// Adversary-owned projectiles; the player's own live inside the
    /// player.
    pub foe_shots: Vec<Projectile>,
    pub timers: Timers,
    /// Whether the damage indicator is showing.
    pub show_damage: bool,
    pub score: u64,
    pub state: GameState,
    pub rng: Rng,
}

/// Ghost view of the world, with the collections as sequences.
#[verifier::ext_equal]
pub ghost struct WorldV {
    pub cfg: Config,
    pub player: PlayerV,
    pub adversaries: Seq<Adversary>,
    pub foe_shots: Seq<Projectile>,
    pub timers: Timers,
    pub show_damage: bool,
    pub score: u64,
    pub state: GameState,
    pub rng_state: u64,
}

impl View for World {
    type V = WorldV;

    open spec fn view(&self) -> WorldV {
        WorldV {
            cfg: self.cfg,
            player: self.player@,
            adversaries: self.adversaries@,
            foe_shots: self.foe_shots@,
            timers: self.timers,
            show_damage: self.show_damage,
            score: self.score,
            state: self.state,
            rng_state: self.rng.state,
        }
    }
}

/// The cooldown between recorded hits: the configured one under the
/// health model, zero under instant kill.
pub open spec fn cooldown_of(c: Config) -> i64 {
    match c.lethality {
        LethalityPolicy::InstantKill => 0,
        LethalityPolicy::HealthCooldown { max_health, cooldown } => cooldown,
    }
}

/// A live player projectile: owner tag correct, within horizontal
/// bounds, stored height within `COORD_LIMIT`.
pub open spec fn wf_player_shot(c: Config, p: Projectile) -> bool {
    &&& !p.from_adversary
    &&& 0 <= p.pos.x < c.screen_w
    &&& -COORD_LIMIT <= p.pos.y <= COORD_LIMIT
}

/// A live adversary projectile, dually.
pub open spec fn wf_foe_shot(c: Config, p: Projectile) -> bool {
    &&& p.from_adversary
    &&& 0 <= p.pos.x < c.screen_w
    &&& -COORD_LIMIT <= p.pos.y <= COORD_LIMIT
}

/// An adversary stands within the screen.
pub open spec fn wf_adversary(c: Config, a: Adversary) -> bool {
    &&& 0 <= a.pos.x <= c.screen_w
    &&& 0 <= a.pos.y <= c.screen_h
}

pub open spec fn wf_player(c: Config, p: PlayerV) -> bool {
    &&& 0 <= p.health <= p.max_health
    &&& 0 < p.max_health <= CFG_MAX
    &&& match c.lethality {
        LethalityPolicy::InstantKill => true,
        LethalityPolicy::HealthCooldown { max_health, cooldown } => {
            &&& p.max_health == max_health
            &&& (p.alive <==> p.health > 0)
        },
    }
    &&& forall|i: int| 0 <= i < p.shots.len() ==> wf_player_shot(c, #[trigger] p.shots[i])
}

/// The structural invariant every tick preserves: a well-formed
/// configuration, a consistent player, every projectile within the
/// visible horizontal bounds, adversaries on screen, timers within their
/// thresholds, and the terminal state tied to the alive flag.
pub open spec fn wf_world(w: WorldV) -> bool {
    &&& wf_config(w.cfg)
    &&& wf_player(w.cfg, w.player)
    &&& forall|i: int|
        0 <= i < w.adversaries.len() ==> wf_adversary(w.cfg, #[trigger] w.adversaries[i])
    &&& forall|i: int| 0 <= i < w.foe_shots.len() ==> wf_foe_shot(w.cfg, #[trigger] w.foe_shots[i])
    &&& 0 <= w.timers.spawn < w.cfg.spawn_interval
    &&& match w.cfg.attack {
        AttackPolicy::Stochastic { num, den } => w.timers.attack == 0,
        AttackPolicy::Periodic { interval } => 0 <= w.timers.attack < interval,
    }
    &&& 0 <= w.timers.damage_display <= w.cfg.damage_display_time
    &&& (w.show_damage ==> w.timers.damage_display > 0)
    &&& w.timers.now >= 0
    &&& -cooldown_of(w.cfg) <= w.timers.last_hit <= w.timers.now
    &&& (w.state == GameState::GameOver <==> !w.player.alive)
}

/// The headroom a tick needs so that no addition can overflow: unbounded
/// accumulators (player position and velocity, the clock, the scroll
/// accumulator) within `COORD_ROOM`, and enough score margin for every
/// adversary on screen plus a spawned one.
pub open spec fn in_room(w: WorldV) -> bool {
    &&& -COORD_ROOM <= w.player.pos.x <= COORD_ROOM
    &&& -COORD_ROOM <= w.player.pos.y <= COORD_ROOM
    &&& -COORD_ROOM <= w.player.vel.x <= COORD_ROOM
    &&& -COORD_ROOM <= w.player.vel.y <= COORD_ROOM
    &&& w.timers.now <= COORD_ROOM
    &&& -COORD_ROOM <= w.timers.bg_scroll <= COORD_ROOM
    &&& w.score + 10 * w.adversaries.len() + 10 <= u64::MAX
}

/// The largest elapsed time one tick accepts.
pub const DT_MAX: i64 = 0x10_0000;

impl World {
    /// Creates the world at simulation start: the player at `start` with
    /// a full health pool, no adversaries, no projectiles, all timers at
    /// zero (the hit cooldown pre-expired so the first overlap can
    /// register), the score at zero, and the given random seed.
    pub fn new(cfg: Config, start: Vec2i, seed: u64) -> (w: World)
        requires
            wf_config(cfg),
            -COORD_ROOM <= start.x <= COORD_ROOM,
            -COORD_ROOM <= start.y <= COORD_ROOM,
        ensures
            w@ == init_world(cfg, start, seed),
            wf_world(w@),
            in_room(w@),
    {
        let max_health: i64 = match cfg.lethality {
            LethalityPolicy::InstantKill => 1,
            LethalityPolicy::HealthCooldown { max_health, cooldown } => max_health,
        };
        let cooldown: i64 = match cfg.lethality {
            LethalityPolicy::InstantKill => 0,
            LethalityPolicy::HealthCooldown { max_health, cooldown } => cooldown,
        };
        let w = World {
            cfg,
            player: Player {
                pos: start,
                vel: Vec2i { x: 0, y: 0 },
                on_ground: false,
                health: max_health,
                max_health,
                alive: true,
                shots: Vec::new(),
            },
            adversaries: Vec::new(),
            foe_shots: Vec::new(),
            timers: Timers {
                now: 0,
                spawn: 0,
                attack: 0,
                last_hit: -cooldown,
                damage_display: 0,
                bg_scroll: 0,
            },
            show_damage: false,
            score: 0,
            state: GameState::Playing,
            rng: Rng::new(seed),
        };
        proof {
            assert(w@ =~~= init_world(cfg, start, seed));
        }
        w
    }

    /// Whether the terminal state has been reached.
    pub fn is_game_over(&self) -> (r: bool)
        ensures
            r == (self@.state == GameState::GameOver),
    {
        match self.state {
            GameState::Playing => false,
            GameState::GameOver => true,
        }
    }
}

/// One whole simulation tick over elapsed time `dt`, as a function of
/// the previous state and the input snapshot. The background-scroll
/// accumulator always advances; everything else is frozen once the
/// player is no longer alive. On the live path the fixed component order
/// is: clock, player motion and firing, adversary spawn, adversary
/// attack, projectile advance-and-cull, projectile-versus-adversary
/// resolution with scoring, player damage, damage-indicator countdown,
/// and the terminal-state check.
pub open spec fn tick_model(w: WorldV, input: InputSnapshot, dt: i64) -> WorldV {
    let scrolled = WorldV {
        timers: Timers { bg_scroll: (w.timers.bg_scroll + dt) as i64, ..w.timers },
        ..w
    };
    if !w.player.alive {
        scrolled
    } else {
        let clocked = WorldV {
            timers: Timers { now: (scrolled.timers.now + dt) as i64, ..scrolled.timers },
            ..scrolled
        };
        let moved = WorldV {
            player: fire_model(integrate_model(clocked.player, input, clocked.cfg), input, clocked.cfg),
            ..clocked
        };
        let sp = spawn_model(moved.adversaries, moved.timers.spawn, moved.rng_state, moved.cfg, dt);
        let spawned = WorldV {
            adversaries: sp.0,
            timers: Timers { spawn: sp.1, ..moved.timers },
            rng_state: sp.2,
            ..moved
        };
        let at = attack_model(
            spawned.adversaries,
            spawned.foe_shots,
            spawned.timers.attack,
            spawned.rng_state,
            spawned.cfg,
            dt,
        );
        let attacked = WorldV {
            foe_shots: at.0,
            timers: Timers { attack: at.1, ..spawned.timers },
            rng_state: at.2,
            ..spawned
        };
        let advanced = WorldV {
            player: PlayerV {
                shots: advance_cull_model(
                    attacked.player.shots,
                    attacked.cfg.player_shot_speed,
                    attacked.cfg.screen_w,
                ),
                ..attacked.player
            },
            foe_shots: advance_cull_model(
                attacked.foe_shots,
                (-attacked.cfg.adversary_shot_speed) as i64,
                attacked.cfg.screen_w,
            ),
            ..attacked
        };
        let survived = surviving(advanced.cfg.overlap, advanced.adversaries, advanced.player.shots);
        let culled = WorldV {
            adversaries: survived,
            score: (advanced.score + 10 * (advanced.adversaries.len() - survived.len())) as u64,
            ..advanced
        };
        state_model(display_model(damage_model(culled), dt))
    }
}

impl World {
    /// Advances the world by one tick of elapsed time `dt` under the
    /// given input snapshot, exactly as `tick_model` says, preserving the
    /// structural invariant.
    pub fn tick(&mut self, input: &InputSnapshot, dt: i64)
        requires
            wf_world(old(self)@),
            in_room(old(self)@),
            0 <= dt <= DT_MAX,
        ensures
            final(self)@ == tick_model(old(self)@, *input, dt),
            wf_world(final(self)@),
    {
        let ghost w0 = old(self)@;
        self.timers.bg_scroll = self.timers.bg_scroll + dt;
        if !self.player.alive {
            proof {
                assert(self@ =~~= tick_model(w0, *input, dt));
            }
            return ;
        }
        self.timers.now = self.timers.now + dt;
        let ghost clocked = self@;
        integrate_player(&mut self.player, input, &self.cfg);
        fire_player(&mut self.player, input, &self.cfg);
        let ghost moved = WorldV {
            player: fire_model(integrate_model(clocked.player, *input, clocked.cfg), *input, clocked.cfg),
            ..clocked
        };
        proof {
            assert(self@ =~~= moved);
        }
        spawn_step(&mut self.adversaries, &mut self.timers.spawn, &mut self.rng, &self.cfg, dt);
        let ghost sp = spawn_model(moved.adversaries, moved.timers.spawn, moved.rng_state, moved.cfg, dt);
        let ghost spawned = WorldV {
            adversaries: sp.0,
            timers: Timers { spawn: sp.1, ..moved.timers },
            rng_state: sp.2,
            ..moved
        };
        proof {
            assert(self@ =~~= spawned);
            assert forall|i: int|
                0 <= i < spawned.adversaries.len() implies wf_adversary(
                self.cfg,
                #[trigger] spawned.adversaries[i],
            ) by {
                if i < w0.adversaries.len() {
                    assert(wf_adversary(w0.cfg, w0.adversaries[i]));
                } else {
                    assert(spawned.adversaries[i]
                        == spawned_adversary(w0.cfg, moved.rng_state));
                }
            }
        }
        attack_step(
            &self.adversaries,
            &mut self.foe_shots,
            &mut self.timers.attack,
            &mut self.rng,
            &self.cfg,
            dt,
        );
        let ghost at = attack_model(
            spawned.adversaries,
            spawned.foe_shots,
            spawned.timers.attack,
            spawned.rng_state,
            spawned.cfg,
            dt,
        );
        let ghost attacked = WorldV {
            foe_shots: at.0,
            timers: Timers { attack: at.1, ..spawned.timers },
            rng_state: at.2,
            ..spawned
        };
        proof {
            assert(self@ =~~= attacked);
            assert forall|i: int|
                0 <= i < attacked.player.shots.len() implies !(
            #[trigger] attacked.player.shots[i]).from_adversary && -COORD_LIMIT
                <= attacked.player.shots[i].pos.x <= COORD_LIMIT && -COORD_LIMIT
                <= attacked.player.shots[i].pos.y <= COORD_LIMIT by {
                if i < w0.player.shots.len() {
                    assert(wf_player_shot(w0.cfg, w0.player.shots[i]));
                }
            }
            match spawned.cfg.attack {
                AttackPolicy::Periodic { interval } => {
                    lemma_volley_props(spawned.cfg, spawned.adversaries);
                },
                AttackPolicy::Stochastic { num, den } => {
                    lemma_stochastic_props(
                        spawned.adversaries,
                        spawned.rng_state,
                        spawned.cfg,
                        num,
                        den,
                    );
                },
            }
            assert forall|i: int|
                0 <= i < attacked.foe_shots.len() implies (
            #[trigger] attacked.foe_shots[i]).from_adversary && -COORD_LIMIT
                <= attacked.foe_shots[i].pos.x <= COORD_LIMIT && -COORD_LIMIT
                <= attacked.foe_shots[i].pos.y <= COORD_LIMIT by {
                if i < w0.foe_shots.len() {
                    assert(attacked.foe_shots[i] == w0.foe_shots[i]);
                    assert(wf_foe_shot(w0.cfg, w0.foe_shots[i]));
                }
            }
        }
        advance_and_cull(&mut self.player.shots, self.cfg.player_shot_speed, self.cfg.screen_w);
        let back: i64 = -self.cfg.adversary_shot_speed;
        advance_and_cull(&mut self.foe_shots, back, self.cfg.screen_w);
        let ghost advanced = WorldV {
            player: PlayerV {
                shots: advance_cull_model(
                    attacked.player.shots,
                    attacked.cfg.player_shot_speed,
                    attacked.cfg.screen_w,
                ),
                ..attacked.player
            },
            foe_shots: advance_cull_model(
                attacked.foe_shots,
                (-attacked.cfg.adversary_shot_speed) as i64,
                attacked.cfg.screen_w,
            ),
            ..attacked
        };
        proof {
            assert(self@ =~~= advanced);
            lemma_advance_cull_props(
                attacked.player.shots,
                attacked.cfg.player_shot_speed,
                attacked.cfg.screen_w,
                false,
                COORD_LIMIT,
            );
            lemma_advance_cull_props(
                attacked.foe_shots,
                (-attacked.cfg.adversary_shot_speed) as i64,
                attacked.cfg.screen_w,
                true,
                COORD_LIMIT,
            );
        }
        cull_adversaries(&mut self.adversaries, &self.player.shots, &mut self.score, &self.cfg.overlap);
        let ghost survived = surviving(
            advanced.cfg.overlap,
            advanced.adversaries,
            advanced.player.shots,
        );
        let ghost culled = WorldV {
            adversaries: survived,
            score: (advanced.score + 10 * (advanced.adversaries.len() - survived.len())) as u64,
            ..advanced
        };
        proof {
            lemma_surviving_sub(advanced.cfg.overlap, advanced.adversaries, advanced.player.shots);
            assert(self@ =~~= culled);
            assert forall|i: int|
                0 <= i < culled.adversaries.len() implies wf_adversary(
                self.cfg,
                #[trigger] culled.adversaries[i],
            ) by {
                let k = choose|k: int|
                    0 <= k < advanced.adversaries.len() && advanced.adversaries[k]
                        == culled.adversaries[i];
                assert(wf_adversary(w0.cfg, advanced.adversaries[k]));
            }
        }
        resolve_player_damage(self);
        let ghost damaged = damage_model(culled);
        proof {
            assert(self@ =~~= damaged);
        }
        update_damage_display(self, dt);
        let ghost displayed = display_model(damaged, dt);
        proof {
            assert(self@ =~~= displayed);
        }
        self.state = if self.player.alive {
            GameState::Playing
        } else {
            GameState::GameOver
        };
        proof {
            assert(self@ =~~= state_model(displayed));
            assert(self@ =~~= tick_model(w0, *input, dt));
            assert(wf_world(self@));
        }
    }
}

/// The state `World::new` yields.
pub open spec fn init_world(cfg: Config, start: Vec2i, seed: u64) -> WorldV {
    let max_health = match cfg.lethality {
        LethalityPolicy::InstantKill => 1i64,
        LethalityPolicy::HealthCooldown { max_health, cooldown } => max_health,
    };
    WorldV {
        cfg,
        player: PlayerV {
            pos: start,
            vel: Vec2i { x: 0, y: 0 },
            on_ground: false,
            health: max_health,
            max_health,
            alive: true,
            shots: Seq::empty(),
        },
        adversaries: Seq::empty(),
        foe_shots: Seq::empty(),
        timers: Timers {
            now: 0,
            spawn: 0,
            attack: 0,
            last_hit: (-cooldown_of(cfg)) as i64,
            damage_display: 0,
            bg_scroll: 0,
        },
        show_damage: false,
        score: 0,
        state: GameState::Playing,
        rng_state: seed,
    }
}

} // verus!
