//! The library's general guarantees, stated and proved over
//! `tick_model`: projectile bounds, score behaviour, the damage
//! cooldown, and the game-over freeze.

use vstd::prelude::*;

use crate::collision::{damage_model, display_model, lemma_surviving_sub, state_model, surviving};
use crate::config::{AttackPolicy, LethalityPolicy};
use crate::entities::PlayerV;
use crate::geom::COORD_LIMIT;
use crate::input::InputSnapshot;
use crate::physics::{fire_model, integrate_model};
use crate::projectile::{advance_cull_model, lemma_advance_cull_props};
use crate::spawn::{attack_model, lemma_stochastic_props, lemma_volley_props, spawn_model};
use crate::world::{
    in_room, tick_model, wf_adversary, wf_foe_shot, wf_player_shot, wf_world, Timers, WorldV,
    DT_MAX,
};

verus! {

/// A tick of a well-formed world with arithmetic headroom yields a
/// well-formed world: in particular health stays within its pool and
/// every remaining projectile stays within the horizontal bounds.
pub proof fn lemma_tick_preserves_wf(w: WorldV, input: InputSnapshot, dt: i64)
    requires
        wf_world(w),
        in_room(w),
        0 <= dt <= DT_MAX,
    ensures
        wf_world(tick_model(w, input, dt)),
{
    if !w.player.alive {
    } else {
        let scrolled = WorldV {
            timers: Timers { bg_scroll: (w.timers.bg_scroll + dt) as i64, ..w.timers },
            ..w
        };
        let clocked = WorldV {
            timers: Timers { now: (scrolled.timers.now + dt) as i64, ..scrolled.timers },
            ..scrolled
        };
        let moved = WorldV {
            player: fire_model(
                integrate_model(clocked.player, input, clocked.cfg),
                input,
                clocked.cfg,
            ),
            ..clocked
        };
        let sp = spawn_model(moved.adversaries, moved.timers.spawn, moved.rng_state, moved.cfg, dt);
        let spawned = WorldV {
            adversaries: sp.0,
            timers: Timers { spawn: sp.1, ..moved.timers },
            rng_state: sp.2,
            ..moved
        };
        assert forall|i: int|
            0 <= i < spawned.adversaries.len() implies wf_adversary(
            w.cfg,
            #[trigger] spawned.adversaries[i],
        ) by {
            if i < w.adversaries.len() {
                assert(wf_adversary(w.cfg, w.adversaries[i]));
            } else {
                assert(spawned.adversaries[i] == crate::spawn::spawned_adversary(
                    w.cfg,
                    moved.rng_state,
                ));
            }
        }
        let at = attack_model(
            spawned.adversaries,
            spawned.foe_shots,
            spawned.timers.attack,
            spawned.rng_state,
            spawned.cfg,
            dt,
        );
        let attacked = WorldV {
            foe_shots: at.0,
            timers: Timers { attack: at.1, ..spawned.timers },
            rng_state: at.2,
            ..spawned
        };
        assert forall|i: int|
            0 <= i < attacked.player.shots.len() implies !(
        #[trigger] attacked.player.shots[i]).from_adversary && -COORD_LIMIT
            <= attacked.player.shots[i].pos.x <= COORD_LIMIT && -COORD_LIMIT
            <= attacked.player.shots[i].pos.y <= COORD_LIMIT by {
            if i < w.player.shots.len() {
                assert(wf_player_shot(w.cfg, w.player.shots[i]));
            }
        }
        match spawned.cfg.attack {
            AttackPolicy::Periodic { interval } => {
                lemma_volley_props(spawned.cfg, spawned.adversaries);
            },
            AttackPolicy::Stochastic { num, den } => {
                lemma_stochastic_props(
                    spawned.adversaries,
                    spawned.rng_state,
                    spawned.cfg,
                    num,
                    den,
                );
            },
        }
        assert forall|i: int|
            0 <= i < attacked.foe_shots.len() implies (
        #[trigger] attacked.foe_shots[i]).from_adversary && -COORD_LIMIT
            <= attacked.foe_shots[i].pos.x <= COORD_LIMIT && -COORD_LIMIT
            <= attacked.foe_shots[i].pos.y <= COORD_LIMIT by {
            if i < w.foe_shots.len() {
                assert(attacked.foe_shots[i] == w.foe_shots[i]);
                assert(wf_foe_shot(w.cfg, w.foe_shots[i]));
            }
        }
        let advanced = WorldV {
            player: PlayerV {
                shots: advance_cull_model(
                    attacked.player.shots,
                    attacked.cfg.player_shot_speed,
                    attacked.cfg.screen_w,
                ),
                ..attacked.player
            },
            foe_shots: advance_cull_model(
                attacked.foe_shots,
                (-attacked.cfg.adversary_shot_speed) as i64,
                attacked.cfg.screen_w,
            ),
            ..attacked
        };
        lemma_advance_cull_props(
            attacked.player.shots,
            attacked.cfg.player_shot_speed,
            attacked.cfg.screen_w,
            false,
            COORD_LIMIT,
        );
        lemma_advance_cull_props(
            attacked.foe_shots,
            (-attacked.cfg.adversary_shot_speed) as i64,
            attacked.cfg.screen_w,
            true,
            COORD_LIMIT,
        );
        let survived = surviving(advanced.cfg.overlap, advanced.adversaries, advanced.player.shots);
        let culled = WorldV {
            adversaries: survived,
            score: (advanced.score + 10 * (advanced.adversaries.len() - survived.len())) as u64,
            ..advanced
        };
        lemma_surviving_sub(advanced.cfg.overlap, advanced.adversaries, advanced.player.shots);
        assert forall|i: int|
            0 <= i < culled.adversaries.len() implies wf_adversary(
            w.cfg,
            #[trigger] culled.adversaries[i],
        ) by {
            let k = choose|k: int|
                0 <= k < advanced.adversaries.len() && advanced.adversaries[k]
                    == culled.adversaries[i];
            assert(wf_adversary(w.cfg, advanced.adversaries[k]));
        }
        assert(tick_model(w, input, dt) == state_model(display_model(damage_model(culled), dt)));
        assert(wf_world(tick_model(w, input, dt)));
    }
}

/// The adversaries present when the collision check runs: those that
/// entered the tick plus the one the spawn controller may have added.
pub open spec fn adversaries_entering_collision(w: WorldV, input: InputSnapshot, dt: i64) -> Seq<
    crate::entities::Adversary,
> {
    let moved = WorldV {
        player: fire_model(integrate_model(w.player, input, w.cfg), input, w.cfg),
        ..w
    };
    spawn_model(moved.adversaries, moved.timers.spawn, moved.rng_state, moved.cfg, dt).0
}

/// Score is monotone across every tick, and on a live tick it rises by
/// exactly 10 for each adversary removed by projectile overlap — the
/// difference between the adversaries entering the collision check and
/// those that survive it — and for no other reason; a dead world's score
/// is frozen.
pub proof fn lemma_score_exact(w: WorldV, input: InputSnapshot, dt: i64)
    requires
        wf_world(w),
        in_room(w),
        0 <= dt <= DT_MAX,
    ensures
        tick_model(w, input, dt).score >= w.score,
        w.player.alive ==> tick_model(w, input, dt).score == w.score + 10 * (
        adversaries_entering_collision(w, input, dt).len() - tick_model(
            w,
            input,
            dt,
        ).adversaries.len()),
        !w.player.alive ==> tick_model(w, input, dt).score == w.score,
{
    if w.player.alive {
        let entering = adversaries_entering_collision(w, input, dt);
        let moved = WorldV {
            player: fire_model(integrate_model(w.player, input, w.cfg), input, w.cfg),
            ..WorldV {
                timers: Timers {
                    now: (w.timers.now + dt) as i64,
                    bg_scroll: (w.timers.bg_scroll + dt) as i64,
                    ..w.timers
                },
                ..w
            }
        };
        assert(entering == spawn_model(
            moved.adversaries,
            moved.timers.spawn,
            moved.rng_state,
            moved.cfg,
            dt,
        ).0);
        let shots_then = advance_cull_model(
            fire_model(integrate_model(w.player, input, w.cfg), input, w.cfg).shots,
            w.cfg.player_shot_speed,
            w.cfg.screen_w,
        );
        lemma_surviving_sub(w.cfg.overlap, entering, shots_then);
        assert(entering.len() <= w.adversaries.len() + 1);
    }
}

/// Under the health model, health never leaves `[0, max_health]`, a tick
/// removes at most one point, and when it does, at least the cooldown
/// has passed since the last recorded hit, whose time is updated to the
/// tick's clock — so no two recorded hits lie closer than the cooldown.
pub proof fn lemma_damage_cooldown(w: WorldV, input: InputSnapshot, dt: i64, mh: i64, cd: i64)
    requires
        wf_world(w),
        in_room(w),
        0 <= dt <= DT_MAX,
        w.cfg.lethality == (LethalityPolicy::HealthCooldown { max_health: mh, cooldown: cd }),
    ensures
        0 <= tick_model(w, input, dt).player.health <= mh,
        w.player.health - 1 <= tick_model(w, input, dt).player.health <= w.player.health,
        tick_model(w, input, dt).player.health < w.player.health ==> {
            &&& tick_model(w, input, dt).player.health == w.player.health - 1
            &&& w.timers.now + dt - w.timers.last_hit >= cd
            &&& tick_model(w, input, dt).timers.last_hit == w.timers.now + dt
            &&& tick_model(w, input, dt).timers.now == w.timers.now + dt
            &&& tick_model(w, input, dt).timers.last_hit == tick_model(w, input, dt).timers.now
        },
        tick_model(w, input, dt).player.health == w.player.health ==> tick_model(
            w,
            input,
            dt,
        ).timers.last_hit == w.timers.last_hit,
{
    lemma_tick_preserves_wf(w, input, dt);
}

/// The world after the first `k` of a run of ticks, every tick fed the
/// corresponding input snapshot and the same elapsed time `dt`.
pub open spec fn run_to(w: WorldV, inputs: Seq<InputSnapshot>, dt: i64, k: int) -> WorldV
    recommends
        0 <= k <= inputs.len(),
    decreases k,
{
    if k <= 0 {
        w
    } else {
        tick_model(run_to(w, inputs, dt, k - 1), inputs[k - 1], dt)
    }
}

/// Whether the `k`-th tick of the run records a health decrement.
pub open spec fn decrement_at(w: WorldV, inputs: Seq<InputSnapshot>, dt: i64, k: int) -> bool {
    run_to(w, inputs, dt, k + 1).player.health < run_to(w, inputs, dt, k).player.health
}

/// Along a run whose states keep arithmetic headroom, well-formedness
/// holds at every step.
pub proof fn lemma_run_wf(w: WorldV, inputs: Seq<InputSnapshot>, dt: i64, k: int)
    requires
        wf_world(w),
        0 <= dt <= DT_MAX,
        0 <= k <= inputs.len(),
        forall|m: int| 0 <= m < k ==> in_room(#[trigger] run_to(w, inputs, dt, m)),
    ensures
        wf_world(run_to(w, inputs, dt, k)),
    decreases k,
{
    if k > 0 {
        lemma_run_wf(w, inputs, dt, k - 1);
        lemma_tick_preserves_wf(run_to(w, inputs, dt, k - 1), inputs[k - 1], dt);
    }
}

/// Between two recorded decrements nothing moves the hit time: from the
/// step after a decrement up to any later step with no decrement in
/// between, `last_hit` stays what the decrement wrote.
proof fn lemma_last_hit_held(
    w: WorldV,
    inputs: Seq<InputSnapshot>,
    dt: i64,
    mh: i64,
    cd: i64,
    i: int,
    k: int,
)
    requires
        wf_world(w),
        0 <= dt <= DT_MAX,
        w.cfg.lethality == (LethalityPolicy::HealthCooldown { max_health: mh, cooldown: cd }),
        0 <= i,
        i + 1 <= k <= inputs.len(),
        forall|m: int| 0 <= m < k ==> in_room(#[trigger] run_to(w, inputs, dt, m)),
        forall|m: int| i < m < k ==> !decrement_at(w, inputs, dt, m),
    ensures
        run_to(w, inputs, dt, k).timers.last_hit == run_to(w, inputs, dt, i + 1).timers.last_hit,
        run_to(w, inputs, dt, k).player.health == run_to(w, inputs, dt, i + 1).player.health,
    decreases k,
{
    if k > i + 1 {
        lemma_last_hit_held(w, inputs, dt, mh, cd, i, k - 1);
        lemma_run_wf(w, inputs, dt, k - 1);
        let prev = run_to(w, inputs, dt, k - 1);
        assert(prev.cfg == w.cfg) by {
            lemma_run_cfg(w, inputs, dt, k - 1);
        }
        lemma_damage_cooldown(prev, inputs[k - 1], dt, mh, cd);
        assert(!decrement_at(w, inputs, dt, k - 1));
    }
}

/// A run never changes the configuration.
pub proof fn lemma_run_cfg(w: WorldV, inputs: Seq<InputSnapshot>, dt: i64, k: int)
    requires
        0 <= k <= inputs.len(),
    ensures
        run_to(w, inputs, dt, k).cfg == w.cfg,
    decreases k,
{
    if k > 0 {
        lemma_run_cfg(w, inputs, dt, k - 1);
    }
}

/// Score is monotonically non-decreasing across a whole run of ticks.
pub proof fn lemma_run_score_monotone(w: WorldV, inputs: Seq<InputSnapshot>, dt: i64, k: int)
    requires
        wf_world(w),
        0 <= dt <= DT_MAX,
        0 <= k <= inputs.len(),
        forall|m: int| 0 <= m < k ==> in_room(#[trigger] run_to(w, inputs, dt, m)),
    ensures
        run_to(w, inputs, dt, k).score >= w.score,
    decreases k,
{
    if k > 0 {
        lemma_run_score_monotone(w, inputs, dt, k - 1);
        lemma_run_wf(w, inputs, dt, k - 1);
        lemma_score_exact(run_to(w, inputs, dt, k - 1), inputs[k - 1], dt);
    }
}

/// The cooldown invariant across a whole run: whenever the `i`-th and
/// `j`-th ticks both record a health decrement with none in between, the
/// simulated clock at the second decrement stands at least the cooldown
/// past the clock at the first — no two decrements are ever recorded
/// within the cooldown window.
pub proof fn lemma_decrements_spaced(
    w: WorldV,
    inputs: Seq<InputSnapshot>,
    dt: i64,
    mh: i64,
    cd: i64,
    i: int,
    j: int,
)
    requires
        wf_world(w),
        0 <= dt <= DT_MAX,
        w.cfg.lethality == (LethalityPolicy::HealthCooldown { max_health: mh, cooldown: cd }),
        0 <= i < j,
        j + 1 <= inputs.len(),
        forall|m: int| 0 <= m <= j ==> in_room(#[trigger] run_to(w, inputs, dt, m)),
        decrement_at(w, inputs, dt, i),
        decrement_at(w, inputs, dt, j),
        forall|m: int| i < m < j ==> !decrement_at(w, inputs, dt, m),
    ensures
        run_to(w, inputs, dt, j + 1).timers.now - run_to(w, inputs, dt, i + 1).timers.now >= cd,
{
    let wi = run_to(w, inputs, dt, i);
    let wj = run_to(w, inputs, dt, j);
    lemma_run_wf(w, inputs, dt, i);
    lemma_run_wf(w, inputs, dt, j);
    lemma_run_cfg(w, inputs, dt, i);
    lemma_run_cfg(w, inputs, dt, j);
    lemma_damage_cooldown(wi, inputs[i], dt, mh, cd);
    lemma_damage_cooldown(wj, inputs[j], dt, mh, cd);
    lemma_last_hit_held(w, inputs, dt, mh, cd, i, j);
    assert(wj.timers.last_hit == run_to(w, inputs, dt, i + 1).timers.now);
    assert(run_to(w, inputs, dt, j + 1).timers.now == wj.timers.now + dt);
    assert(wj.timers.now + dt - wj.timers.last_hit >= cd);
}

/// Once the player is no longer alive, a tick changes nothing but the
/// background-scroll accumulator: position, health, score, both
/// projectile collections, the adversaries, the remaining timers and the
/// terminal state are all frozen.
pub proof fn lemma_game_over_freeze(w: WorldV, input: InputSnapshot, dt: i64)
    requires
        wf_world(w),
        in_room(w),
        0 <= dt <= DT_MAX,
        !w.player.alive,
    ensures
        tick_model(w, input, dt) == (WorldV {
            timers: Timers { bg_scroll: (w.timers.bg_scroll + dt) as i64, ..w.timers },
            ..w
        }),
{
    assert(tick_model(w, input, dt) =~~= (WorldV {
        timers: Timers { bg_scroll: (w.timers.bg_scroll + dt) as i64, ..w.timers },
        ..w
    }));
}

/// Every projectile remaining after a tick satisfies
/// `0 <= position.x < screen_w`: off-bounds projectiles are purged the
/// same tick they cross the bound.
pub proof fn lemma_projectiles_in_bounds(w: WorldV, input: InputSnapshot, dt: i64)
    requires
        wf_world(w),
        in_room(w),
        0 <= dt <= DT_MAX,
    ensures
        forall|i: int|
            0 <= i < tick_model(w, input, dt).player.shots.len() ==> 0 <= (#[trigger] tick_model(
                w,
                input,
                dt,
            ).player.shots[i]).pos.x < w.cfg.screen_w,
        forall|i: int|
            0 <= i < tick_model(w, input, dt).foe_shots.len() ==> 0 <= (#[trigger] tick_model(
                w,
                input,
                dt,
            ).foe_shots[i]).pos.x < w.cfg.screen_w,
{
    lemma_tick_preserves_wf(w, input, dt);
    assert(tick_model(w, input, dt).cfg == w.cfg);
    assert forall|i: int|
        0 <= i < tick_model(w, input, dt).player.shots.len() implies 0 <= (#[trigger] tick_model(
        w,
        input,
        dt,
    ).player.shots[i]).pos.x < w.cfg.screen_w by {
        assert(wf_player_shot(w.cfg, tick_model(w, input, dt).player.shots[i]));
    }
    assert forall|i: int|
        0 <= i < tick_model(w, input, dt).foe_shots.len() implies 0 <= (#[trigger] tick_model(
        w,
        input,
        dt,
    ).foe_shots[i]).pos.x < w.cfg.screen_w by {
        assert(wf_foe_shot(w.cfg, tick_model(w, input, dt).foe_shots[i]));
    }
}

} // verus!
