//! Integer 2D points and the interchangeable overlap predicate used by
//! collision resolution. Lengths are fixed-point: tenths of a world unit.

use vstd::prelude::*;

verus! {

/// Upper bound on every configuration magnitude (sizes, speeds, timer
/// thresholds).
pub const CFG_MAX: i64 = 0x10_0000;

/// Coordinates a world is required to stay within between ticks; one tick
/// moves nothing further than `CFG_MAX`, so arithmetic on coordinates
/// within this bound cannot overflow `i64`.
pub const COORD_ROOM: i64 = 0x100_0000_0000;

/// Bound on coordinates stored inside a world (a projectile keeps the
/// height it was fired at, which may exceed `COORD_ROOM` by a few steps).
pub const COORD_LIMIT: i64 = 0x2000_0000_0000;

/// Largest coordinate magnitude the executable overlap test accepts
/// without risking `i128` overflow in the squared-distance computation.
pub const OVERLAP_LIMIT: i64 = 0x4_0000_0000_0000;

/// A 2D point or displacement in tenths of a world unit.
#[derive(Clone, Copy, PartialEq, Eq, Structural, Debug)]
pub struct Vec2i {
    pub x: i64,
    pub y: i64,
}

/// How two entity origins are tested for overlap: either their Euclidean
/// distance lies below a threshold, or the two axis-aligned `w` by `h`
/// boxes anchored at them intersect.
#[derive(Clone, Copy, PartialEq, Eq, Structural, Debug)]
pub enum OverlapKind {
    Distance { threshold: i64 },
    Rect { w: i64, h: i64 },
}

pub open spec fn wf_overlap_kind(k: OverlapKind) -> bool {
    match k {
        OverlapKind::Distance { threshold } => 0 < threshold <= CFG_MAX,
        OverlapKind::Rect { w, h } => 0 < w <= CFG_MAX && 0 < h <= CFG_MAX,
    }
}

/// The overlap predicate itself, over unbounded integers.
pub open spec fn overlaps(k: OverlapKind, a: Vec2i, b: Vec2i) -> bool {
    match k {
        OverlapKind::Distance { threshold } => (a.x - b.x) * (a.x - b.x) + (a.y - b.y) * (a.y
            - b.y) < threshold * threshold,
        OverlapKind::Rect { w, h } => a.x < b.x + w && b.x < a.x + w && a.y < b.y + h && b.y < a.y
            + h,
    }
}

pub open spec fn in_overlap_range(v: Vec2i) -> bool {
    &&& -OVERLAP_LIMIT <= v.x <= OVERLAP_LIMIT
    &&& -OVERLAP_LIMIT <= v.y <= OVERLAP_LIMIT
}

/// Decides `overlaps` for points within `OVERLAP_LIMIT`.
pub fn overlap_check(k: &OverlapKind, a: Vec2i, b: Vec2i) -> (r: bool)
    requires
        wf_overlap_kind(*k),
        in_overlap_range(a),
        in_overlap_range(b),
    ensures
        r == overlaps(*k, a, b),
{
    match k {
        OverlapKind::Distance { threshold } => {
            let dx: i128 = a.x as i128 - b.x as i128;
            let dy: i128 = a.y as i128 - b.y as i128;
            let t: i128 = *threshold as i128;
            assert(dx * dx <= 0x40_0000_0000_0000_0000_0000_0000i128) by (nonlinear_arith)
                requires
                    -0x8_0000_0000_0000i128 <= dx <= 0x8_0000_0000_0000i128,
            ;
            assert(dy * dy <= 0x40_0000_0000_0000_0000_0000_0000i128) by (nonlinear_arith)
                requires
                    -0x8_0000_0000_0000i128 <= dy <= 0x8_0000_0000_0000i128,
            ;
            assert(dx * dx >= 0) by (nonlinear_arith);
            assert(dy * dy >= 0) by (nonlinear_arith);
            assert(t * t <= 0x1_0000_0000_0000i128) by (nonlinear_arith)
                requires
                    0 <= t <= 0x10_0000i128,
            ;
            dx * dx + dy * dy < t * t
        },
        OverlapKind::Rect { w, h } => {
            a.x < b.x + *w && b.x < a.x + *w && a.y < b.y + *h && b.y < a.y + *h
        },
    }
}

} // verus!
