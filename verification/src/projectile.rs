//! The projectile system: every projectile advances horizontally by its
//! fixed per-tick velocity, and any projectile whose horizontal position
//! leaves `[0, screen_w)` is discarded.

use vstd::prelude::*;

use crate::entities::Projectile;
use crate::geom::{Vec2i, CFG_MAX, COORD_LIMIT};

verus! {

/// A projectile moved `dx` to the right.
pub open spec fn shifted(p: Projectile, dx: i64) -> Projectile {
    Projectile {
        pos: Vec2i { x: (p.pos.x + dx) as i64, y: p.pos.y },
        from_adversary: p.from_adversary,
    }
}

/// The projectiles after one advance-and-cull pass: each moves by `dx`,
/// and only those still within `[0, screen_w)` remain, in their original
/// order.
pub open spec fn advance_cull_model(s: Seq<Projectile>, dx: i64, screen_w: i64) -> Seq<Projectile>
    decreases s.len(),
{
    if s.len() == 0 {
        Seq::empty()
    } else {
        let rest = advance_cull_model(s.drop_last(), dx, screen_w);
        let q = shifted(s.last(), dx);
        if 0 <= q.pos.x < screen_w {
            rest.push(q)
        } else {
            rest
        }
    }
}

/// Every surviving projectile lies within the horizontal bounds, keeps
/// its owner tag, and keeps its height.
pub proof fn lemma_advance_cull_props(s: Seq<Projectile>, dx: i64, screen_w: i64, tag: bool, limit: i64)
    requires
        forall|i: int|
            0 <= i < s.len() ==> (#[trigger] s[i]).from_adversary == tag && -limit <= s[i].pos.y
                <= limit,
    ensures
        forall|j: int|
            0 <= j < advance_cull_model(s, dx, screen_w).len() ==> {
                let q = #[trigger] advance_cull_model(s, dx, screen_w)[j];
                &&& 0 <= q.pos.x < screen_w
                &&& q.from_adversary == tag
                &&& -limit <= q.pos.y <= limit
            },
    decreases s.len(),
{
    if s.len() > 0 {
        lemma_advance_cull_props(s.drop_last(), dx, screen_w, tag, limit);
        let rest = advance_cull_model(s.drop_last(), dx, screen_w);
        let q = shifted(s.last(), dx);
        assert(s[s.len() - 1] == s.last());
        if 0 <= q.pos.x < screen_w {
            assert(advance_cull_model(s, dx, screen_w) == rest.push(q));
            assert forall|j: int| 0 <= j < rest.push(q).len() implies {
                let r = #[trigger] rest.push(q)[j];
                &&& 0 <= r.pos.x < screen_w
                &&& r.from_adversary == tag
                &&& -limit <= r.pos.y <= limit
            } by {
                if j < rest.len() {
                    assert(rest.push(q)[j] == rest[j]);
                } else {
                    assert(rest.push(q)[j] == q);
                }
            }
        }
    }
}

/// Applies `advance_cull_model` in place.
pub fn advance_and_cull(shots: &mut Vec<Projectile>, dx: i64, screen_w: i64)
    requires
        -CFG_MAX <= dx <= CFG_MAX,
        0 < screen_w <= CFG_MAX,
        forall|i: int|
            0 <= i < old(shots)@.len() ==> -COORD_LIMIT <= (#[trigger] old(shots)@[i]).pos.x
                <= COORD_LIMIT,
    ensures
        final(shots)@ == advance_cull_model(old(shots)@, dx, screen_w),
{
    let ghost orig = shots@;
    let mut out: Vec<Projectile> = Vec::new();
    let n = shots.len();
    for i in 0..n
        invariant
            n == orig.len(),
            shots@ == orig,
            forall|k: int| 0 <= k < orig.len() ==> -COORD_LIMIT <= (#[trigger] orig[k]).pos.x <= COORD_LIMIT,
            -CFG_MAX <= dx <= CFG_MAX,
            out@ == advance_cull_model(orig.take(i as int), dx, screen_w),
    {
        let p = shots[i];
        let nx = p.pos.x + dx;
        proof {
            assert(orig.take(i + 1).drop_last() =~= orig.take(i as int));
            assert(orig.take(i + 1).last() == orig[i as int]);
        }
        if 0 <= nx && nx < screen_w {
            out.push(Projectile { pos: Vec2i { x: nx, y: p.pos.y }, from_adversary: p.from_adversary });
        }
    }
    proof {
        assert(orig.take(n as int) =~= orig);
    }
    *shots = out;
}

} // verus!
