//! The spawn controller: consumes elapsed time to create new adversaries
//! (at the right edge, at a drawn vertical position) and new adversary
//! projectiles, under one of the two attack policies.

use vstd::prelude::*;

use crate::config::{wf_config, AttackPolicy, Config};
use crate::entities::{Adversary, Projectile};
use crate::geom::{Vec2i, CFG_MAX};
use crate::rng::{rng_draw, rng_step, Rng};

verus! {

/// The adversary placed by a spawn from generator state `s`: at the
/// right edge, with a drawn vertical coordinate in
/// `[0, screen_h - adversary_h)`.
pub open spec fn spawned_adversary(c: Config, s: u64) -> Adversary {
    Adversary {
        pos: Vec2i {
            x: (c.screen_w - c.adversary_w) as i64,
            y: rng_draw(s, (c.screen_h - c.adversary_h) as u64) as i64,
        },
    }
}

/// One spawn step over `(adversaries, spawn timer, generator state)`:
/// while spawning is enabled, the timer accumulates `dt`, and on
/// reaching `spawn_interval` (boundary inclusive) it resets to zero and
/// exactly one adversary appears.
pub open spec fn spawn_model(advs: Seq<Adversary>, timer: i64, s: u64, c: Config, dt: i64) -> (
    Seq<Adversary>,
    i64,
    u64,
) {
    if !c.spawn_enabled {
        (advs, timer, s)
    } else {
        let t = timer + dt;
        if t >= c.spawn_interval {
            (advs.push(spawned_adversary(c, s)), 0, rng_step(s))
        } else {
            (advs, t as i64, s)
        }
    }
}

/// The projectile an adversary fires: adversary-owned, at the configured
/// offset from the adversary.
pub open spec fn fired_shot(c: Config, a: Adversary) -> Projectile {
    Projectile {
        pos: Vec2i {
            x: (a.pos.x + c.adversary_shot_off.x) as i64,
            y: (a.pos.y + c.adversary_shot_off.y) as i64,
        },
        from_adversary: true,
    }
}

/// The shots of a synchronized volley: one per adversary, in adversary
/// order.
pub open spec fn volley_shots(c: Config, advs: Seq<Adversary>) -> Seq<Projectile>
    decreases advs.len(),
{
    if advs.len() == 0 {
        Seq::empty()
    } else {
        volley_shots(c, advs.drop_last()).push(fired_shot(c, advs.last()))
    }
}

/// The shots of one stochastic round and the generator state after it:
/// one draw per adversary, in adversary order; an adversary fires when
/// its draw modulo `den` lies below `num`.
pub open spec fn stochastic_shots(advs: Seq<Adversary>, s: u64, c: Config, num: u64, den: u64) -> (
    Seq<Projectile>,
    u64,
)
    decreases advs.len(),
{
    if advs.len() == 0 {
        (Seq::empty(), s)
    } else {
        let prev = stochastic_shots(advs.drop_last(), s, c, num, den);
        let s2 = rng_step(prev.1);
        if s2 % den < num {
            (prev.0.push(fired_shot(c, advs.last())), s2)
        } else {
            (prev.0, s2)
        }
    }
}

/// One attack step over `(adversary shots, attack timer, generator
/// state)`. Under the periodic policy the timer accumulates `dt` and on
/// reaching the interval (boundary inclusive) resets while every
/// adversary fires at once; under the stochastic policy each adversary
/// draws once per tick and fires on a draw below the threshold.
pub open spec fn attack_model(
    advs: Seq<Adversary>,
    foe: Seq<Projectile>,
    timer: i64,
    s: u64,
    c: Config,
    dt: i64,
) -> (Seq<Projectile>, i64, u64) {
    match c.attack {
        AttackPolicy::Periodic { interval } => {
            let t = timer + dt;
            if t >= interval {
                (foe + volley_shots(c, advs), 0, s)
            } else {
                (foe, t as i64, s)
            }
        },
        AttackPolicy::Stochastic { num, den } => {
            let round = stochastic_shots(advs, s, c, num, den);
            (foe + round.0, timer, round.1)
        },
    }
}

/// Every volley shot is adversary-owned and lies within twice the
/// configuration bound of the origin.
pub proof fn lemma_volley_props(c: Config, advs: Seq<Adversary>)
    requires
        wf_config(c),
        forall|i: int| 0 <= i < advs.len() ==> crate::world::wf_adversary(c, #[trigger] advs[i]),
    ensures
        forall|j: int|
            0 <= j < volley_shots(c, advs).len() ==> {
                let q = #[trigger] volley_shots(c, advs)[j];
                &&& q.from_adversary
                &&& -2 * CFG_MAX <= q.pos.x <= 2 * CFG_MAX
                &&& -2 * CFG_MAX <= q.pos.y <= 2 * CFG_MAX
            },
    decreases advs.len(),
{
    if advs.len() > 0 {
        lemma_volley_props(c, advs.drop_last());
        assert(advs[advs.len() - 1] == advs.last());
        let rest = volley_shots(c, advs.drop_last());
        let q = fired_shot(c, advs.last());
        assert forall|j: int| 0 <= j < rest.push(q).len() implies {
            let r = #[trigger] rest.push(q)[j];
            &&& r.from_adversary
            &&& -2 * CFG_MAX <= r.pos.x <= 2 * CFG_MAX
            &&& -2 * CFG_MAX <= r.pos.y <= 2 * CFG_MAX
        } by {
            if j < rest.len() {
                assert(rest.push(q)[j] == rest[j]);
            } else {
                assert(rest.push(q)[j] == q);
            }
        }
    }
}

/// Every stochastic-round shot is adversary-owned and lies within twice
/// the configuration bound of the origin.
pub proof fn lemma_stochastic_props(advs: Seq<Adversary>, s: u64, c: Config, num: u64, den: u64)
    requires
        wf_config(c),
        forall|i: int| 0 <= i < advs.len() ==> crate::world::wf_adversary(c, #[trigger] advs[i]),
    ensures
        forall|j: int|
            0 <= j < stochastic_shots(advs, s, c, num, den).0.len() ==> {
                let q = #[trigger] stochastic_shots(advs, s, c, num, den).0[j];
                &&& q.from_adversary
                &&& -2 * CFG_MAX <= q.pos.x <= 2 * CFG_MAX
                &&& -2 * CFG_MAX <= q.pos.y <= 2 * CFG_MAX
            },
    decreases advs.len(),
{
    if advs.len() > 0 {
        lemma_stochastic_props(advs.drop_last(), s, c, num, den);
        assert(advs[advs.len() - 1] == advs.last());
        let rest = stochastic_shots(advs.drop_last(), s, c, num, den).0;
        let q = fired_shot(c, advs.last());
        assert forall|j: int| 0 <= j < rest.push(q).len() implies {
            let r = #[trigger] rest.push(q)[j];
            &&& r.from_adversary
            &&& -2 * CFG_MAX <= r.pos.x <= 2 * CFG_MAX
            &&& -2 * CFG_MAX <= r.pos.y <= 2 * CFG_MAX
        } by {
            if j < rest.len() {
                assert(rest.push(q)[j] == rest[j]);
            } else {
                assert(rest.push(q)[j] == q);
            }
        }
    }
}

/// Applies `spawn_model` to the world's pieces.
pub fn spawn_step(
    advs: &mut Vec<Adversary>,
    timer: &mut i64,
    rng: &mut Rng,
    c: &Config,
    dt: i64,
)
    requires
        wf_config(*c),
        0 <= *old(timer) < c.spawn_interval,
        0 <= dt <= crate::world::DT_MAX,
    ensures
        (final(advs)@, *final(timer), final(rng).state) == spawn_model(
            old(advs)@,
            *old(timer),
            old(rng).state,
            *c,
            dt,
        ),
{
    if !c.spawn_enabled {
        return ;
    }
    let t = *timer + dt;
    if t >= c.spawn_interval {
        let range = (c.screen_h - c.adversary_h) as u64;
        let y = rng.next_below(range) as i64;
        advs.push(Adversary { pos: Vec2i { x: c.screen_w - c.adversary_w, y } });
        *timer = 0;
    } else {
        *timer = t;
    }
}

/// Applies `attack_model` to the world's pieces.
pub fn attack_step(
    advs: &Vec<Adversary>,
    foe: &mut Vec<Projectile>,
    timer: &mut i64,
    rng: &mut Rng,
    c: &Config,
    dt: i64,
)
    requires
        wf_config(*c),
        0 <= dt <= crate::world::DT_MAX,
        match c.attack {
            AttackPolicy::Stochastic { num, den } => *old(timer) == 0,
            AttackPolicy::Periodic { interval } => 0 <= *old(timer) < interval,
        },
        forall|i: int|
            0 <= i < advs@.len() ==> crate::world::wf_adversary(*c, #[trigger] advs@[i]),
    ensures
        (final(foe)@, *final(timer), final(rng).state) == attack_model(
            advs@,
            old(foe)@,
            *old(timer),
            old(rng).state,
            *c,
            dt,
        ),
{
    match &c.attack {
        AttackPolicy::Periodic { interval } => {
            let t = *timer + dt;
            if t >= *interval {
                let ghost foe0 = foe@;
                let n = advs.len();
                for i in 0..n
                    invariant
                        n == advs@.len(),
                        wf_config(*c),
                        forall|k: int|
                            0 <= k < advs@.len() ==> crate::world::wf_adversary(
                                *c,
                                #[trigger] advs@[k],
                            ),
                        foe@ == foe0 + volley_shots(*c, advs@.take(i as int)),
                {
                    let a = advs[i];
                    proof {
                        assert(advs@.take(i + 1).drop_last() =~= advs@.take(i as int));
                        assert(advs@.take(i + 1).last() == advs@[i as int]);
                    }
                    foe.push(
                        Projectile {
                            pos: Vec2i {
                                x: a.pos.x + c.adversary_shot_off.x,
                                y: a.pos.y + c.adversary_shot_off.y,
                            },
                            from_adversary: true,
                        },
                    );
                    proof {
                        assert(foe@ =~= foe0 + volley_shots(*c, advs@.take(i + 1)));
                    }
                }
                proof {
                    assert(advs@.take(n as int) =~= advs@);
                }
                *timer = 0;
            } else {
                *timer = t;
            }
        },
        AttackPolicy::Stochastic { num, den } => {
            let ghost foe0 = foe@;
            let ghost s0 = rng.state;
            let n = advs.len();
            for i in 0..n
                invariant
                    n == advs@.len(),
                    wf_config(*c),
                    c.attack == (AttackPolicy::Stochastic { num: *num, den: *den }),
                    forall|k: int|
                        0 <= k < advs@.len() ==> crate::world::wf_adversary(*c, #[trigger] advs@[k]),
                    foe@ == foe0 + stochastic_shots(advs@.take(i as int), s0, *c, *num, *den).0,
                    rng.state == stochastic_shots(advs@.take(i as int), s0, *c, *num, *den).1,
                    *den > 0,
            {
                let a = advs[i];
                proof {
                    assert(advs@.take(i + 1).drop_last() =~= advs@.take(i as int));
                    assert(advs@.take(i + 1).last() == advs@[i as int]);
                }
                let draw = rng.next_below(*den);
                if draw < *num {
                    foe.push(
                        Projectile {
                            pos: Vec2i {
                                x: a.pos.x + c.adversary_shot_off.x,
                                y: a.pos.y + c.adversary_shot_off.y,
                            },
                            from_adversary: true,
                        },
                    );
                    proof {
                        assert(foe@ =~= foe0 + stochastic_shots(
                            advs@.take(i + 1),
                            s0,
                            *c,
                            *num,
                            *den,
                        ).0);
                    }
                }
            }
            proof {
                assert(advs@.take(n as int) =~= advs@);
            }
        },
    }
}

} // verus!
