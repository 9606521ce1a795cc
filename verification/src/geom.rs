//! Integer 2D vectors, axis-aligned rectangles given by center and
//! half-extents, and the strict overlap test between two such rectangles.

use vstd::prelude::*;

use crate::SIZE_LIMIT;
use crate::STAGE_POS_LIMIT;

verus! {

/// A 2D vector (or point) with integer coordinates.
#[derive(Clone, Copy, PartialEq, Eq, Structural, Debug)]
pub struct Vec2i {
    pub x: i64,
    pub y: i64,
}

/// `x` clamped into `[lo, hi]`.
pub open spec fn clamp_spec(x: int, lo: int, hi: int) -> int {
    if x < lo {
        lo
    } else if x > hi {
        hi
    } else {
        x
    }
}

/// Clamp `x` into the non-empty interval `[lo, hi]`.
pub fn clamp_i64(x: i64, lo: i64, hi: i64) -> (r: i64)
    requires
        lo <= hi,
    ensures
        r == clamp_spec(x as int, lo as int, hi as int),
{
    if x < lo {
        lo
    } else if x > hi {
        hi
    } else {
        x
    }
}

/// Two rectangles, given by centers and half-extents, overlap with positive
/// area: on each axis the distance between centers is strictly below the sum
/// of the half-extents. Rectangles that merely touch do not overlap.
pub open spec fn rects_overlap(ca: Vec2i, ha: Vec2i, cb: Vec2i, hb: Vec2i) -> bool {
    &&& ca.x - cb.x < ha.x + hb.x
    &&& cb.x - ca.x < ha.x + hb.x
    &&& ca.y - cb.y < ha.y + hb.y
    &&& cb.y - ca.y < ha.y + hb.y
}

/// Strict axis-aligned overlap test between the rectangle centered at `ca`
/// with half-extents `ha` and the one centered at `cb` with half-extents `hb`.
pub fn overlaps(ca: Vec2i, ha: Vec2i, cb: Vec2i, hb: Vec2i) -> (r: bool)
    requires
        -STAGE_POS_LIMIT <= ca.x <= STAGE_POS_LIMIT,
        -STAGE_POS_LIMIT <= ca.y <= STAGE_POS_LIMIT,
        -STAGE_POS_LIMIT <= cb.x <= STAGE_POS_LIMIT,
        -STAGE_POS_LIMIT <= cb.y <= STAGE_POS_LIMIT,
        0 <= ha.x <= SIZE_LIMIT,
        0 <= ha.y <= SIZE_LIMIT,
        0 <= hb.x <= SIZE_LIMIT,
        0 <= hb.y <= SIZE_LIMIT,
    ensures
        r == rects_overlap(ca, ha, cb, hb),
{
    let sx = ha.x + hb.x;
    let sy = ha.y + hb.y;
    ca.x - cb.x < sx && cb.x - ca.x < sx && ca.y - cb.y < sy && cb.y - ca.y < sy
}

/// `n` halved, rounding towards negative infinity.
pub fn half_floor(n: i64) -> (r: i64)
    requires
        n != i64::MIN,
    ensures
        r == n as int / 2,
{
    if n >= 0 {
        let q = (n as u64) / 2u64;
        q as i64
    } else {
        let m = ((-n) as u64 + 1u64) / 2u64;
        proof {
            assert(-(m as int) == n as int / 2) by {
                assert(m == ((-n) + 1) as u64 / 2);
                assert((-n) + 1 == 2 * (m as int) + (((-n) + 1) % 2));
            };
        }
        -(m as i64)
    }
}

} // verus!
