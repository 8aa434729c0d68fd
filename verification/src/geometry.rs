//! Distances on the surface.

use vstd::prelude::*;

verus! {

/// Square of the distance between the points `(ax, ay)` and `(bx, by)`.
pub open spec fn dist2(ax: int, ay: int, bx: int, by: int) -> int {
    (ax - bx) * (ax - bx) + (ay - by) * (ay - by)
}

/// Absolute difference of two coordinates.
fn gap(a: i64, b: i64) -> (d: u128)
    requires
        -0x8000_0000 <= a <= 0xffff_ffff,
        -0x8000_0000 <= b <= 0xffff_ffff,
    ensures
        d == if a >= b { a - b } else { b - a },
        d <= 0x1_7fff_ffff,
{
    if a >= b {
        (a - b) as u128
    } else {
        (b - a) as u128
    }
}

/// Square of the distance between two points whose coordinates fit in 32
/// bits, signed or unsigned.
pub fn squared_distance(ax: i64, ay: i64, bx: i64, by: i64) -> (d2: u128)
    requires
        -0x8000_0000 <= ax <= 0xffff_ffff,
        -0x8000_0000 <= ay <= 0xffff_ffff,
        -0x8000_0000 <= bx <= 0xffff_ffff,
        -0x8000_0000 <= by <= 0xffff_ffff,
    ensures
        d2 == dist2(ax as int, ay as int, bx as int, by as int),
        d2 <= 2 * (0x1_7fff_ffff * 0x1_7fff_ffff),
{
    let dx: u128 = gap(ax, bx);
    let dy: u128 = gap(ay, by);
    proof {
        assert(dx * dx <= 0x1_7fff_ffff * 0x1_7fff_ffff) by (nonlinear_arith)
            requires
                dx <= 0x1_7fff_ffff,
        ;
        assert(dy * dy <= 0x1_7fff_ffff * 0x1_7fff_ffff) by (nonlinear_arith)
            requires
                dy <= 0x1_7fff_ffff,
        ;
        assert(dx * dx == (ax - bx) * (ax - bx)) by (nonlinear_arith)
            requires
                dx == ax - bx || dx == bx - ax,
        ;
        assert(dy * dy == (ay - by) * (ay - by)) by (nonlinear_arith)
            requires
                dy == ay - by || dy == by - ay,
        ;
    }
    dx * dx + dy * dy
}

} // verus!
