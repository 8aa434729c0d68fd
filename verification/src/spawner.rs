//! Where a new target may be put, and how long it may live.
//!
//! A position is drawn inside the surface, a margin away from its edges,
//! and is taken when it is far enough from every target that is on the
//! surface. The search is bounded: after a fixed number of rejected
//! positions the next one is taken as it comes, so placing a target never
//! fails, and targets may overlap where the surface is crowded.

use crate::config::{longest_life, shortest_life, Config};
use crate::geometry::{dist2, squared_distance};
use crate::rng::draw_between;
use crate::target::Target;
use macroquad::rand::RandGenerator;
use vstd::prelude::*;

verus! {

/// Number of positions that are tested for separation before one is taken
/// untested.
pub const RETRIES: u32 = 24;

/// The margin that is kept on a surface of the given size: the configured
/// margin, but at most 45 % of the width and of the height, so that the
/// range of positions never inverts.
pub open spec fn margin_spec(margin: int, width: int, height: int) -> int {
    let by_width = 9 * width / 20;
    let by_height = 9 * height / 20;
    if margin <= by_width && margin <= by_height {
        margin
    } else if by_width <= by_height {
        by_width
    } else {
        by_height
    }
}

/// `v` is a position that the spawner may choose along an axis of length
/// `extent` with margin `m`: anywhere between the margins, or the midpoint
/// where the margins leave no room.
pub open spec fn placed_on_axis(m: int, extent: int, v: int) -> bool {
    if extent > 2 * m {
        m <= v <= extent - m
    } else {
        v == extent / 2
    }
}

/// The point `(x, y)` is far enough from the target `t`: at least 2.2 times
/// the largest radius away from its centre.
pub open spec fn apart(max_r: int, x: int, y: int, t: Target) -> bool {
    25 * dist2(x, y, t.x as int, t.y as int) >= 121 * (max_r * max_r)
}

/// The point `(x, y)` is far enough from each of the targets.
pub open spec fn separated(max_r: int, targets: Seq<Target>, x: int, y: int) -> bool {
    forall|i: int| 0 <= i < targets.len() ==> apart(max_r, x, y, #[trigger] targets[i])
}

/// The position `(x, y)` that was drawn in attempt number `attempt`, counted
/// from zero, is taken: during the first `RETRIES` attempts if it is far
/// enough from each of the targets, and after them as it comes.
pub open spec fn taken(max_r: int, targets: Seq<Target>, x: int, y: int, attempt: int) -> bool {
    attempt >= RETRIES || separated(max_r, targets, x, y)
}

/// `t` is a target that the spawner may produce at the clock reading `now`
/// on a surface of the given size.
pub open spec fn spawned(cfg: Config, width: u32, height: u32, now: u64, t: Target) -> bool {
    let m = margin_spec(cfg.margin as int, width as int, height as int);
    &&& t.spawn_ms == now
    &&& shortest_life(cfg.target_life_ms as int) <= t.life_ms <= longest_life(
        cfg.target_life_ms as int,
    )
    &&& placed_on_axis(m, width as int, t.x as int)
    &&& placed_on_axis(m, height as int, t.y as int)
}

/// The margin to keep on a surface of the given size.
pub fn clamped_margin(margin: u32, width: u32, height: u32) -> (m: u32)
    ensures
        m == margin_spec(margin as int, width as int, height as int),
        m <= margin,
        20 * m <= 9 * width,
        20 * m <= 9 * height,
{
    let by_width: u32 = (9 * (width as u64) / 20) as u32;
    let by_height: u32 = (9 * (height as u64) / 20) as u32;
    if margin <= by_width && margin <= by_height {
        margin
    } else if by_width <= by_height {
        by_width
    } else {
        by_height
    }
}

/// Chooses a position along an axis of length `extent` with margin `m`.
/// Which position comes between the margins is up to the generator.
pub(crate) fn place_on_axis(generator: &RandGenerator, extent: u32, m: u32) -> (v: u32)
    ensures
        placed_on_axis(m as int, extent as int, v as int),
{
    if extent as u64 > 2 * (m as u64) {
        draw_between(generator, m, extent - m)
    } else {
        extent / 2
    }
}

/// Whether the point `(x, y)` is far enough from each of the targets.
pub fn is_separated(targets: &Vec<Target>, x: u32, y: u32, max_r: u32) -> (ok: bool)
    ensures
        ok == separated(max_r as int, targets@, x as int, y as int),
{
    let reach: u128 = max_r as u128;
    assert(reach * reach <= 0xffff_ffff * 0xffff_ffff) by (nonlinear_arith)
        requires
            reach <= 0xffff_ffff,
    ;
    let least: u128 = 121 * (reach * reach);
    let mut i: usize = 0;
    while i < targets.len()
        invariant
            i <= targets.len(),
            least == 121 * (max_r * max_r),
            forall|j: int| 0 <= j < i ==> apart(max_r as int, x as int, y as int, #[trigger] targets@[j]),
        decreases targets.len() - i,
    {
        let t: Target = targets[i];
        let d2: u128 = squared_distance(x as i64, y as i64, t.x as i64, t.y as i64);
        if 25 * d2 < least {
            assert(!apart(max_r as int, x as int, y as int, targets@[i as int]));
            return false;
        }
        i += 1;
    }
    true
}

/// Whether the position `(x, y)` that was drawn in attempt number `attempt`,
/// counted from zero, is taken.
pub fn is_taken(targets: &Vec<Target>, x: u32, y: u32, max_r: u32, attempt: u32) -> (ok: bool)
    ensures
        ok == taken(max_r as int, targets@, x as int, y as int, attempt as int),
{
    attempt >= RETRIES || is_separated(targets, x, y, max_r)
}

/// Produces a target for the clock reading `now`, to stand among
/// `targets`. The lifetime is drawn first; then positions are drawn, one
/// per attempt, until one is taken.
pub(crate) fn spawn(
    cfg: &Config,
    generator: &RandGenerator,
    targets: &Vec<Target>,
    now: u64,
    width: u32,
    height: u32,
) -> (t: Target)
    requires
        cfg.valid(),
    ensures
        spawned(*cfg, width, height, now, t),
        t.wf(),
{
    let m: u32 = clamped_margin(cfg.margin, width, height);
    let (shortest, longest) = cfg.life_bounds();
    let life: u32 = draw_between(generator, shortest, longest);
    let mut attempt: u32 = 0;
    loop
        invariant
            attempt <= RETRIES,
            m == margin_spec(cfg.margin as int, width as int, height as int),
            1 <= shortest_life(cfg.target_life_ms as int) <= life <= longest_life(
                cfg.target_life_ms as int,
            ),
        decreases RETRIES - attempt,
    {
        let x: u32 = place_on_axis(generator, width, m);
        let y: u32 = place_on_axis(generator, height, m);
        if is_taken(targets, x, y, cfg.max_r, attempt) {
            return Target { x, y, spawn_ms: now, life_ms: life };
        }
        attempt += 1;
    }
}

} // verus!
