//! The collision resolver: player projectiles destroy adversaries and
//! score, adversary projectiles (and, under instant kill, adversary
//! bodies) hurt the player, and the damage indicator counts down.

use vstd::prelude::*;

use crate::config::{wf_config, Config, LethalityPolicy};
use crate::entities::{Adversary, PlayerV, Projectile};
use crate::geom::{in_overlap_range, overlap_check, overlaps, wf_overlap_kind, OverlapKind, Vec2i};
use crate::world::{GameState, Timers, World, WorldV};

verus! {

/// Whether any of the projectiles overlaps the point.
pub open spec fn hit_by_any(k: OverlapKind, shots: Seq<Projectile>, pos: Vec2i) -> bool {
    exists|j: int| 0 <= j < shots.len() && overlaps(k, (#[trigger] shots[j]).pos, pos)
}

/// Whether any of the adversaries overlaps the point.
pub open spec fn adversary_hits(k: OverlapKind, advs: Seq<Adversary>, pos: Vec2i) -> bool {
    exists|j: int| 0 <= j < advs.len() && overlaps(k, (#[trigger] advs[j]).pos, pos)
}

/// The adversaries that outlive the projectile check, in their original
/// order: exactly those no player projectile overlaps.
pub open spec fn surviving(k: OverlapKind, advs: Seq<Adversary>, shots: Seq<Projectile>) -> Seq<
    Adversary,
>
    decreases advs.len(),
{
    if advs.len() == 0 {
        Seq::empty()
    } else {
        let rest = surviving(k, advs.drop_last(), shots);
        if hit_by_any(k, shots, advs.last().pos) {
            rest
        } else {
            rest.push(advs.last())
        }
    }
}

/// No more adversaries survive than were there, and every survivor was
/// one of them (so survivors keep every per-element property).
pub proof fn lemma_surviving_sub(k: OverlapKind, advs: Seq<Adversary>, shots: Seq<Projectile>)
    ensures
        surviving(k, advs, shots).len() <= advs.len(),
        forall|j: int|
            0 <= j < surviving(k, advs, shots).len() ==> exists|i: int|
                0 <= i < advs.len() && advs[i] == #[trigger] surviving(k, advs, shots)[j],
    decreases advs.len(),
{
    if advs.len() > 0 {
        lemma_surviving_sub(k, advs.drop_last(), shots);
        let rest = surviving(k, advs.drop_last(), shots);
        assert forall|j: int| 0 <= j < surviving(k, advs, shots).len() implies exists|i: int|
            0 <= i < advs.len() && advs[i] == #[trigger] surviving(k, advs, shots)[j] by {
            if j < rest.len() {
                let i = choose|i: int|
                    0 <= i < advs.drop_last().len() && advs.drop_last()[i] == rest[j];
                assert(advs[i] == surviving(k, advs, shots)[j]);
            } else {
                assert(surviving(k, advs, shots)[j] == advs.last());
                assert(advs[advs.len() - 1] == surviving(k, advs, shots)[j]);
            }
        }
    }
}

/// Decides `hit_by_any` for projectiles and a point within
/// `OVERLAP_LIMIT`.
pub fn shots_overlap_any(shots: &Vec<Projectile>, pos: Vec2i, k: &OverlapKind) -> (r: bool)
    requires
        wf_overlap_kind(*k),
        in_overlap_range(pos),
        forall|i: int| 0 <= i < shots@.len() ==> in_overlap_range((#[trigger] shots@[i]).pos),
    ensures
        r == hit_by_any(*k, shots@, pos),
{
    let n = shots.len();
    for j in 0..n
        invariant
            n == shots@.len(),
            wf_overlap_kind(*k),
            in_overlap_range(pos),
            forall|i: int| 0 <= i < shots@.len() ==> in_overlap_range((#[trigger] shots@[i]).pos),
            forall|m: int| 0 <= m < j ==> !overlaps(*k, (#[trigger] shots@[m]).pos, pos),
    {
        if overlap_check(k, shots[j].pos, pos) {
            return true;
        }
    }
    false
}

/// Decides `adversary_hits` for adversaries and a point within
/// `OVERLAP_LIMIT`.
pub fn adversaries_overlap_any(advs: &Vec<Adversary>, pos: Vec2i, k: &OverlapKind) -> (r: bool)
    requires
        wf_overlap_kind(*k),
        in_overlap_range(pos),
        forall|i: int| 0 <= i < advs@.len() ==> in_overlap_range((#[trigger] advs@[i]).pos),
    ensures
        r == adversary_hits(*k, advs@, pos),
{
    let n = advs.len();
    for j in 0..n
        invariant
            n == advs@.len(),
            wf_overlap_kind(*k),
            in_overlap_range(pos),
            forall|i: int| 0 <= i < advs@.len() ==> in_overlap_range((#[trigger] advs@[i]).pos),
            forall|m: int| 0 <= m < j ==> !overlaps(*k, (#[trigger] advs@[m]).pos, pos),
    {
        if overlap_check(k, advs[j].pos, pos) {
            return true;
        }
    }
    false
}

/// Removes every adversary some player projectile overlaps and adds
/// exactly 10 to the score per removed adversary. An adversary is
/// removed at most once however many projectiles overlap it, and the
/// overlapping projectiles are not consumed: a projectile is destroyed
/// only by leaving the screen.
pub fn cull_adversaries(
    advs: &mut Vec<Adversary>,
    shots: &Vec<Projectile>,
    score: &mut u64,
    k: &OverlapKind,
)
    requires
        wf_overlap_kind(*k),
        forall|i: int|
            0 <= i < old(advs)@.len() ==> in_overlap_range((#[trigger] old(advs)@[i]).pos),
        forall|i: int| 0 <= i < shots@.len() ==> in_overlap_range((#[trigger] shots@[i]).pos),
        *old(score) + 10 * old(advs)@.len() <= u64::MAX,
    ensures
        final(advs)@ == surviving(*k, old(advs)@, shots@),
        *final(score) == *old(score) + 10 * (old(advs)@.len() - final(advs)@.len()),
{
    let ghost orig = advs@;
    let ghost score0 = *score;
    let mut out: Vec<Adversary> = Vec::new();
    let n = advs.len();
    for i in 0..n
        invariant
            n == orig.len(),
            advs@ == orig,
            wf_overlap_kind(*k),
            forall|q: int| 0 <= q < orig.len() ==> in_overlap_range((#[trigger] orig[q]).pos),
            forall|q: int| 0 <= q < shots@.len() ==> in_overlap_range((#[trigger] shots@[q]).pos),
            out@ == surviving(*k, orig.take(i as int), shots@),
            out@.len() <= i,
            *score == score0 + 10 * (i - out@.len()),
            score0 + 10 * orig.len() <= u64::MAX,
    {
        let a = advs[i];
        proof {
            assert(orig.take(i + 1).drop_last() =~= orig.take(i as int));
            assert(orig.take(i + 1).last() == orig[i as int]);
        }
        if shots_overlap_any(shots, a.pos, k) {
            *score = *score + 10;
        } else {
            out.push(a);
        }
    }
    proof {
        assert(orig.take(n as int) =~= orig);
    }
    *advs = out;
}

/// The world after the player-side collision check. Under the health
/// model: if any adversary projectile overlaps the player and at least
/// the cooldown has passed since the last recorded hit, health drops by
/// exactly one (never more per tick, however many projectiles overlap),
/// the hit time is recorded, the damage indicator is armed, and the
/// player dies when health reaches zero. Under instant kill: any overlap
/// with an adversary projectile or an adversary body kills outright.
pub open spec fn damage_model(w: WorldV) -> WorldV {
    match w.cfg.lethality {
        LethalityPolicy::HealthCooldown { max_health, cooldown } => {
            if hit_by_any(w.cfg.overlap, w.foe_shots, w.player.pos) && w.timers.now
                - w.timers.last_hit >= cooldown {
                let h = (w.player.health - 1) as i64;
                WorldV {
                    player: PlayerV { health: h, alive: h > 0, ..w.player },
                    timers: Timers {
                        last_hit: w.timers.now,
                        damage_display: w.cfg.damage_display_time,
                        ..w.timers
                    },
                    show_damage: true,
                    ..w
                }
            } else {
                w
            }
        },
        LethalityPolicy::InstantKill => {
            if hit_by_any(w.cfg.overlap, w.foe_shots, w.player.pos) || adversary_hits(
                w.cfg.overlap,
                w.adversaries,
                w.player.pos,
            ) {
                WorldV { player: PlayerV { alive: false, ..w.player }, ..w }
            } else {
                w
            }
        },
    }
}

/// Applies `damage_model` to the world.
pub fn resolve_player_damage(w: &mut World)
    requires
        wf_config(old(w)@.cfg),
        match old(w)@.cfg.lethality {
            LethalityPolicy::InstantKill => true,
            LethalityPolicy::HealthCooldown { max_health, cooldown } => old(w)@.player.health > 0,
        },
        0 <= old(w)@.timers.now <= crate::geom::COORD_ROOM + crate::world::DT_MAX,
        -crate::geom::CFG_MAX <= old(w)@.timers.last_hit <= old(w)@.timers.now,
        in_overlap_range(old(w)@.player.pos),
        forall|i: int|
            0 <= i < old(w)@.foe_shots.len() ==> in_overlap_range(
                (#[trigger] old(w)@.foe_shots[i]).pos,
            ),
        forall|i: int|
            0 <= i < old(w)@.adversaries.len() ==> in_overlap_range(
                (#[trigger] old(w)@.adversaries[i]).pos,
            ),
    ensures
        final(w)@ == damage_model(old(w)@),
{
    match w.cfg.lethality {
        LethalityPolicy::HealthCooldown { max_health, cooldown } => {
            let overlapped = shots_overlap_any(&w.foe_shots, w.player.pos, &w.cfg.overlap);
            if overlapped && w.timers.now - w.timers.last_hit >= cooldown {
                w.player.health = w.player.health - 1;
                w.player.alive = w.player.health > 0;
                w.timers.last_hit = w.timers.now;
                w.timers.damage_display = w.cfg.damage_display_time;
                w.show_damage = true;
            }
            proof {
                assert(w@ =~~= damage_model(old(w)@));
            }
        },
        LethalityPolicy::InstantKill => {
            let overlapped = shots_overlap_any(&w.foe_shots, w.player.pos, &w.cfg.overlap)
                || adversaries_overlap_any(&w.adversaries, w.player.pos, &w.cfg.overlap);
            if overlapped {
                w.player.alive = false;
            }
            proof {
                assert(w@ =~~= damage_model(old(w)@));
            }
        },
    }
}

/// The world after the damage-indicator countdown: once armed, the
/// display timer loses `dt` per tick; on reaching zero it stays at zero
/// and the indicator clears.
pub open spec fn display_model(w: WorldV, dt: i64) -> WorldV {
    if w.timers.damage_display > 0 {
        let d = w.timers.damage_display - dt;
        if d <= 0 {
            WorldV { timers: Timers { damage_display: 0, ..w.timers }, show_damage: false, ..w }
        } else {
            WorldV { timers: Timers { damage_display: d as i64, ..w.timers }, ..w }
        }
    } else {
        w
    }
}

/// Applies `display_model` to the world.
pub fn update_damage_display(w: &mut World, dt: i64)
    requires
        0 <= old(w)@.timers.damage_display <= crate::geom::CFG_MAX,
        0 <= dt <= crate::world::DT_MAX,
    ensures
        final(w)@ == display_model(old(w)@, dt),
{
    if w.timers.damage_display > 0 {
        let d = w.timers.damage_display - dt;
        if d <= 0 {
            w.timers.damage_display = 0;
            w.show_damage = false;
        } else {
            w.timers.damage_display = d;
        }
    }
    proof {
        assert(w@ =~~= display_model(old(w)@, dt));
    }
}

/// The world after the terminal-state check: `GameOver` exactly when the
/// player is no longer alive.
pub open spec fn state_model(w: WorldV) -> WorldV {
    WorldV {
        state: if w.player.alive {
            GameState::Playing
        } else {
            GameState::GameOver
        },
        ..w
    }
}

} // verus!
