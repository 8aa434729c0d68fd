//! The two animation curves: how large and how opaque a target is at a
//! given age.
//!
//! Both curves depend on the age only through `p`, the age divided by the
//! lifetime and clamped to `[0, 1]`. Here `p` is kept as the fraction
//! `progress / life`, so every formula below is exact up to one final
//! division, which rounds down.

use crate::config::Config;
use vstd::prelude::*;

verus! {

/// Opacity of a fully visible target, in thousandths.
pub const ALPHA_FULL: u32 = 1000;

/// Least opacity that a target ever has, in thousandths.
pub const ALPHA_FLOOR: u32 = 150;

/// Numerator of `p` over `life`: the age clamped to `[0, life]`.
pub open spec fn progress(age: int, life: int) -> int {
    if age < 0 {
        0
    } else if age > life {
        life
    } else {
        age
    }
}

/// Numerator of the triangle wave over `life`: `2p` in the first half of the
/// life and `2(1 - p)` in the second, for a clamped age `a`.
pub open spec fn triangle(a: int, life: int) -> int {
    if 2 * a < life {
        2 * a
    } else {
        2 * (life - a)
    }
}

/// Numerator of the eased wave over `life * life`: with `t` the triangle
/// wave, `1 - (1 - t)^2`.
pub open spec fn eased(a: int, life: int) -> int {
    life * life - (life - triangle(a, life)) * (life - triangle(a, life))
}

/// Radius of a target of the given age: `min_r` plus the share of
/// `max_r - min_r` that the eased wave gives, rounded down.
pub open spec fn radius_spec(min_r: int, max_r: int, age: int, life: int) -> int {
    min_r + (max_r - min_r) * eased(progress(age, life), life) / (life * life)
}

/// Opacity of a target of the given age, in thousandths: full while
/// `p < 0.85`, then `(1 - p) / 0.15`, never less than the floor.
pub open spec fn alpha_spec(age: int, life: int) -> int {
    let a = progress(age, life);
    if 20 * a < 17 * life {
        ALPHA_FULL as int
    } else {
        let fade = 20_000 * (life - a) / (3 * life);
        if fade < ALPHA_FLOOR {
            ALPHA_FLOOR as int
        } else if fade > ALPHA_FULL {
            ALPHA_FULL as int
        } else {
            fade
        }
    }
}

/// The eased wave in closed form: `4 p (1 - p)`, which lies in `[0, 1]`.
pub proof fn lemma_eased_closed_form(a: int, life: int)
    requires
        0 <= a <= life,
    ensures
        eased(a, life) == 4 * a * (life - a),
        0 <= eased(a, life) <= life * life,
{
    let t = triangle(a, life);
    let d = life - t;
    assert(d == life - 2 * a || d == 2 * a - life);
    assert(d * d == (life - 2 * a) * (life - 2 * a)) by (nonlinear_arith)
        requires
            d == life - 2 * a || d == 2 * a - life,
    ;
    assert(life * life - (life - 2 * a) * (life - 2 * a) == 4 * a * (life - a))
        by (nonlinear_arith);
    assert(0 <= 4 * a * (life - a)) by (nonlinear_arith)
        requires
            0 <= a <= life,
    ;
    assert((life - 2 * a) * (life - 2 * a) >= 0) by (nonlinear_arith);
}

/// Scaling a span by a fraction between 0 and 1 and rounding down stays
/// within the span.
proof fn lemma_share_in_span(span: int, num: int, den: int)
    requires
        0 <= span,
        0 <= num <= den,
        0 < den,
    ensures
        0 <= span * num / den <= span,
{
    assert(0 <= span * num <= span * den) by (nonlinear_arith)
        requires
            0 <= span,
            0 <= num <= den,
    ;
    vstd::arithmetic::div_mod::lemma_div_is_ordered(0, span * num, den);
    vstd::arithmetic::div_mod::lemma_div_is_ordered(span * num, span * den, den);
    vstd::arithmetic::div_mod::lemma_div_multiples_vanish(span, den);
    assert(span * den == den * span) by (nonlinear_arith);
    assert(0int / den == 0) by (nonlinear_arith)
        requires
            den > 0,
    ;
}

/// At every age the radius lies between the smallest and the largest
/// radius.
pub proof fn lemma_radius_in_range(min_r: int, max_r: int, age: int, life: int)
    requires
        min_r <= max_r,
        life > 0,
    ensures
        min_r <= radius_spec(min_r, max_r, age, life) <= max_r,
{
    let a = progress(age, life);
    lemma_eased_closed_form(a, life);
    assert(life * life > 0) by (nonlinear_arith)
        requires
            life > 0,
    ;
    lemma_share_in_span(max_r - min_r, eased(a, life), life * life);
}

/// The curve is continuous where its two branches meet: at half the
/// lifetime the rising and the falling branch of the triangle wave give the
/// same value, and the radius is the largest one.
pub proof fn lemma_radius_at_half(min_r: int, max_r: int, age: int, life: int)
    requires
        min_r <= max_r,
        life > 0,
        2 * age == life,
    ensures
        2 * age == 2 * (life - age) == triangle(age, life),
        radius_spec(min_r, max_r, age, life) == max_r,
{
    let a = progress(age, life);
    assert(a == age);
    assert(triangle(a, life) == life);
    assert((life - life) * (life - life) == 0) by (nonlinear_arith);
    assert(eased(a, life) == life * life);
    assert(life * life > 0) by (nonlinear_arith)
        requires
            life > 0,
    ;
    vstd::arithmetic::div_mod::lemma_div_multiples_vanish(max_r - min_r, life * life);
    assert((max_r - min_r) * (life * life) == (life * life) * (max_r - min_r))
        by (nonlinear_arith);
}

/// The radius has no jumps: between any two ages it changes by at most four
/// times the span of the radii per lifetime elapsed, and one unit of
/// rounding. In particular this holds across the middle of the life.
pub proof fn lemma_radius_continuous(min_r: int, max_r: int, age1: int, age2: int, life: int)
    requires
        min_r <= max_r,
        life > 0,
        0 <= age1 <= age2 <= life,
    ensures
        life * (radius_spec(min_r, max_r, age2, life) - radius_spec(min_r, max_r, age1, life))
            <= 4 * (max_r - min_r) * (age2 - age1) + life,
        life * (radius_spec(min_r, max_r, age1, life) - radius_spec(min_r, max_r, age2, life))
            <= 4 * (max_r - min_r) * (age2 - age1) + life,
{
    let span = max_r - min_r;
    let den = life * life;
    let e1 = eased(age1, life);
    let e2 = eased(age2, life);
    lemma_eased_closed_form(age1, life);
    lemma_eased_closed_form(age2, life);
    assert(den > 0) by (nonlinear_arith)
        requires
            life > 0,
            den == life * life,
    ;
    let q1 = span * e1 / den;
    let q2 = span * e2 / den;
    vstd::arithmetic::div_mod::lemma_fundamental_div_mod(span * e1, den);
    vstd::arithmetic::div_mod::lemma_fundamental_div_mod(span * e2, den);
    vstd::arithmetic::div_mod::lemma_mod_bound(span * e1, den);
    vstd::arithmetic::div_mod::lemma_mod_bound(span * e2, den);
    // den * (q2 - q1) differs from span * (e2 - e1) by less than den.
    assert(den * (q2 - q1) < span * (e2 - e1) + den) by (nonlinear_arith)
        requires
            span * e1 == den * q1 + (span * e1) % den,
            span * e2 == den * q2 + (span * e2) % den,
            0 <= (span * e1) % den < den,
            0 <= (span * e2) % den < den,
    ;
    assert(den * (q1 - q2) < span * (e1 - e2) + den) by (nonlinear_arith)
        requires
            span * e1 == den * q1 + (span * e1) % den,
            span * e2 == den * q2 + (span * e2) % den,
            0 <= (span * e1) % den < den,
            0 <= (span * e2) % den < den,
    ;
    // The eased wave changes by at most 4 * life per unit of age.
    let step = age2 - age1;
    assert(e2 - e1 == 4 * step * (life - age1 - age2)) by (nonlinear_arith)
        requires
            e1 == 4 * age1 * (life - age1),
            e2 == 4 * age2 * (life - age2),
            step == age2 - age1,
    ;
    assert(span * (e2 - e1) <= 4 * span * step * life && span * (e1 - e2) <= 4 * span * step
        * life) by (nonlinear_arith)
        requires
            e2 - e1 == 4 * step * (life - age1 - age2),
            0 <= span,
            0 <= step,
            0 <= age1,
            0 <= age2,
            age1 <= life,
            age2 <= life,
    ;
    assert(life * (q2 - q1) <= 4 * span * step + life) by (nonlinear_arith)
        requires
            den == life * life,
            life > 0,
            den * (q2 - q1) < span * (e2 - e1) + den,
            span * (e2 - e1) <= 4 * span * step * life,
    ;
    assert(life * (q1 - q2) <= 4 * span * step + life) by (nonlinear_arith)
        requires
            den == life * life,
            life > 0,
            den * (q1 - q2) < span * (e1 - e2) + den,
            span * (e1 - e2) <= 4 * span * step * life,
    ;
    assert(progress(age1, life) == age1 && progress(age2, life) == age2);
    assert(life * ((min_r + q2) - (min_r + q1)) == life * (q2 - q1)) by (nonlinear_arith);
    assert(life * ((min_r + q1) - (min_r + q2)) == life * (q1 - q2)) by (nonlinear_arith);
}

/// A target is fully opaque during the first 85 % of its life.
pub proof fn lemma_alpha_full_before_fade(age: int, life: int)
    requires
        life > 0,
        20 * age < 17 * life,
    ensures
        alpha_spec(age, life) == ALPHA_FULL,
{
}

/// A target that has reached the end of its life is at the floor.
pub proof fn lemma_alpha_floor_at_end(age: int, life: int)
    requires
        life > 0,
        age >= life,
    ensures
        alpha_spec(age, life) == ALPHA_FLOOR,
{
    assert(progress(age, life) == life);
    assert(20_000 * (life - life) == 0);
    assert(0int / (3 * life) == 0) by (nonlinear_arith)
        requires
            life > 0,
    ;
}

/// Radius of a target of age `age` that lives for `life` milliseconds.
pub fn radius_at(cfg: &Config, age: u64, life: u32) -> (radius: u32)
    requires
        cfg.min_r <= cfg.max_r,
        life > 0,
    ensures
        radius == radius_spec(cfg.min_r as int, cfg.max_r as int, age as int, life as int),
        cfg.min_r <= radius <= cfg.max_r,
        2 * age == life ==> radius == cfg.max_r,
{
    let whole: u128 = life as u128;
    let a: u128 = if age > life as u64 {
        whole
    } else {
        age as u128
    };
    let tri: u128 = if 2 * a < whole {
        2 * a
    } else {
        2 * (whole - a)
    };
    let rest: u128 = whole - tri;
    let span: u128 = (cfg.max_r - cfg.min_r) as u128;
    proof {
        lemma_eased_closed_form(a as int, whole as int);
        lemma_radius_in_range(cfg.min_r as int, cfg.max_r as int, age as int, life as int);
        if 2 * age == life {
            lemma_radius_at_half(cfg.min_r as int, cfg.max_r as int, age as int, life as int);
        }
        assert(0 < whole * whole <= 0xffff_ffff * 0xffff_ffff) by (nonlinear_arith)
            requires
                0 < whole <= 0xffff_ffff,
        ;
        assert(0 <= rest * rest <= whole * whole) by (nonlinear_arith)
            requires
                0 <= rest <= whole,
        ;
        assert(span * (whole * whole - rest * rest) <= 0xffff_ffff * (0xffff_ffff * 0xffff_ffff))
            by (nonlinear_arith)
            requires
                0 <= span <= 0xffff_ffff,
                0 <= whole * whole - rest * rest <= 0xffff_ffff * 0xffff_ffff,
        ;
    }
    let den: u128 = whole * whole;
    let num: u128 = den - rest * rest;
    let share: u128 = span * num / den;
    cfg.min_r + share as u32
}

/// Opacity, in thousandths, of a target of age `age` that lives for `life`
/// milliseconds.
pub fn alpha_at(age: u64, life: u32) -> (alpha: u32)
    requires
        life > 0,
    ensures
        alpha == alpha_spec(age as int, life as int),
        ALPHA_FLOOR <= alpha <= ALPHA_FULL,
        20 * age < 17 * life ==> alpha == ALPHA_FULL,
        age >= life ==> alpha == ALPHA_FLOOR,
{
    proof {
        if age >= life {
            lemma_alpha_floor_at_end(age as int, life as int);
        }
    }
    let whole: u64 = life as u64;
    let a: u64 = if age > whole {
        whole
    } else {
        age
    };
    if 20 * a < 17 * whole {
        ALPHA_FULL
    } else {
        let fade: u64 = 20_000 * (whole - a) / (3 * whole);
        if fade < ALPHA_FLOOR as u64 {
            ALPHA_FLOOR
        } else if fade > ALPHA_FULL as u64 {
            ALPHA_FULL
        } else {
            fade as u32
        }
    }
}

} // verus!
