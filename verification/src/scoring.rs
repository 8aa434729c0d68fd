//! Points and counters: what a hit is worth, what a miss or an expiry
//! costs, and the tallies of a session.
//!
//! The score never goes below zero: a penalty larger than the score leaves
//! zero. Counters and the score stop at the largest value of their type
//! rather than wrap.

use crate::config::Config;
use crate::curves::progress;
use vstd::prelude::*;

verus! {

/// The tallies of one session.
#[derive(Clone, Copy, Debug, PartialEq, Eq, Structural)]
pub struct Stats {
    /// Points so far.
    pub score: u64,
    /// Shots fired, hits and misses alike.
    pub shots: u32,
    /// Targets hit.
    pub kills: u32,
    /// Targets that died unhit.
    pub expired: u32,
    /// Sum of the ages, in milliseconds, at which the targets were hit.
    pub rt_sum_ms: u64,
    /// Number of ages summed in `rt_sum_ms`.
    pub rt_n: u32,
}

/// Something that changes the score.
pub enum ScoreEvent {
    /// A shot hit a target and earned this many points.
    Hit(u64),
    /// A shot hit nothing and is charged this penalty.
    Miss(u32),
    /// A target died unhit and is charged this penalty.
    Expired(u32),
}

/// `value + by`, stopping at `cap`.
pub open spec fn capped_add(value: int, by: int, cap: int) -> int {
    if value + by > cap {
        cap
    } else {
        value + by
    }
}

/// `score - penalty`, stopping at zero.
pub open spec fn floored_sub(score: int, penalty: int) -> int {
    if score - penalty < 0 {
        0
    } else {
        score - penalty
    }
}

/// Points for hitting a target at the given age: the base points plus the
/// share `1 - p` of the speed bonus, rounded to the nearest point, halves
/// upwards.
pub open spec fn points_spec(base: int, bonus: int, age: int, life: int) -> int {
    base + (2 * bonus * (life - progress(age, life)) + life) / (2 * life)
}

/// The score after one event: points are added, penalties are taken off
/// as far as the score goes.
pub open spec fn score_after(score: int, event: ScoreEvent) -> int {
    match event {
        ScoreEvent::Hit(points) => capped_add(score, points as int, u64::MAX as int),
        ScoreEvent::Miss(penalty) => floored_sub(score, penalty as int),
        ScoreEvent::Expired(penalty) => floored_sub(score, penalty as int),
    }
}

/// The score after a sequence of events, first to last.
pub open spec fn score_after_all(score: int, events: Seq<ScoreEvent>) -> int
    decreases events.len(),
{
    if events.len() == 0 {
        score
    } else {
        score_after(score_after_all(score, events.drop_last()), events.last())
    }
}

/// The score after `count` targets expired one after another: the
/// penalties add up before the floor applies.
pub open spec fn score_after_expiries(score: int, penalty: int, count: int) -> int {
    floored_sub(score, count * penalty)
}

impl Stats {
    /// The tallies at the start of a session: all zero.
    pub open spec fn zero() -> Stats {
        Stats { score: 0, shots: 0, kills: 0, expired: 0, rt_sum_ms: 0, rt_n: 0 }
    }

    /// The tallies after a shot was fired, before it is known what it hit.
    pub open spec fn after_shot(self) -> Stats {
        Stats { shots: capped_add(self.shots as int, 1, u32::MAX as int) as u32, ..self }
    }

    /// The tallies after a target of age `age` was hit for `points` points.
    pub open spec fn after_hit(self, points: u64, age: u64) -> Stats {
        Stats {
            score: score_after(self.score as int, ScoreEvent::Hit(points)) as u64,
            kills: capped_add(self.kills as int, 1, u32::MAX as int) as u32,
            rt_sum_ms: capped_add(self.rt_sum_ms as int, age as int, u64::MAX as int) as u64,
            rt_n: capped_add(self.rt_n as int, 1, u32::MAX as int) as u32,
            ..self
        }
    }

    /// The tallies after a shot hit nothing.
    pub open spec fn after_miss(self, penalty: u32) -> Stats {
        Stats { score: score_after(self.score as int, ScoreEvent::Miss(penalty)) as u64, ..self }
    }

    /// The tallies after `count` targets died unhit.
    pub open spec fn after_expiries(self, penalty: u32, count: int) -> Stats {
        Stats {
            score: score_after_expiries(self.score as int, penalty as int, count) as u64,
            expired: capped_add(self.expired as int, count, u32::MAX as int) as u32,
            ..self
        }
    }

    /// Counts a shot.
    pub fn record_shot(&mut self)
        ensures
            *final(self) == old(self).after_shot(),
    {
        self.shots = self.shots.saturating_add(1);
    }

    /// Counts a hit on a target of age `age`, worth `points` points.
    pub fn record_hit(&mut self, points: u64, age: u64)
        ensures
            *final(self) == old(self).after_hit(points, age),
    {
        self.kills = self.kills.saturating_add(1);
        self.rt_sum_ms = self.rt_sum_ms.saturating_add(age);
        self.rt_n = self.rt_n.saturating_add(1);
        self.score = self.score.saturating_add(points);
    }

    /// Charges the penalty for a shot that hit nothing.
    pub fn record_miss(&mut self, penalty: u32)
        ensures
            *final(self) == old(self).after_miss(penalty),
    {
        self.score = self.score.saturating_sub(penalty as u64);
    }

    /// Counts one target that died unhit and charges the penalty for it.
    pub fn record_expiry(&mut self, penalty: u32)
        ensures
            *final(self) == old(self).after_expiries(penalty, 1),
    {
        self.expired = self.expired.saturating_add(1);
        self.score = self.score.saturating_sub(penalty as u64);
    }
}

impl Default for Stats {
    fn default() -> (stats: Stats)
        ensures
            stats == Stats::zero(),
    {
        Stats { score: 0, shots: 0, kills: 0, expired: 0, rt_sum_ms: 0, rt_n: 0 }
    }
}

/// Points for hitting a target of age `age` that lives for `life`
/// milliseconds.
pub fn hit_points(cfg: &Config, age: u64, life: u32) -> (points: u64)
    requires
        life > 0,
    ensures
        points == points_spec(cfg.base_points as int, cfg.speed_bonus as int, age as int, life as int),
        cfg.base_points <= points <= cfg.base_points + cfg.speed_bonus,
        age == 0 ==> points == cfg.base_points + cfg.speed_bonus,
        age >= life ==> points == cfg.base_points,
{
    let whole: u64 = life as u64;
    let a: u64 = if age > whole {
        whole
    } else {
        age
    };
    let left: u64 = whole - a;
    let bonus: u64 = cfg.speed_bonus as u64;
    proof {
        lemma_points_in_range(
            cfg.base_points as int,
            cfg.speed_bonus as int,
            age as int,
            life as int,
        );
        if age == 0 {
            lemma_points_at_birth(cfg.base_points as int, cfg.speed_bonus as int, 0, life as int);
        }
        if age >= life {
            lemma_points_at_death(
                cfg.base_points as int,
                cfg.speed_bonus as int,
                age as int,
                life as int,
            );
        }
        assert(bonus * left <= 0xffff_ffff * 0xffff_ffff) by (nonlinear_arith)
            requires
                bonus <= 0xffff_ffff,
                left <= 0xffff_ffff,
        ;
        assert(2 * bonus * left == 2 * (bonus * left)) by (nonlinear_arith);
    }
    let share: u64 = ((2 * (bonus as u128 * left as u128) + whole as u128) / (2 * whole as u128)) as u64;
    cfg.base_points as u64 + share
}

/// A hit is worth at least the base points and at most the base points and
/// the whole speed bonus.
pub proof fn lemma_points_in_range(base: int, bonus: int, age: int, life: int)
    requires
        0 <= bonus,
        life > 0,
    ensures
        base <= points_spec(base, bonus, age, life) <= base + bonus,
{
    let left = life - progress(age, life);
    let num = 2 * bonus * left + life;
    assert(0 <= 2 * bonus * left <= 2 * bonus * life) by (nonlinear_arith)
        requires
            0 <= bonus,
            0 <= left <= life,
    ;
    assert(2 * bonus * life + life == (2 * life) * bonus + life) by (nonlinear_arith);
    vstd::arithmetic::div_mod::lemma_div_is_ordered(0, num, 2 * life);
    vstd::arithmetic::div_mod::lemma_div_is_ordered(num, (2 * life) * bonus + life, 2 * life);
    vstd::arithmetic::div_mod::lemma_fundamental_div_mod_converse(
        (2 * life) * bonus + life,
        2 * life,
        bonus,
        life,
    );
    assert(0int / (2 * life) == 0) by (nonlinear_arith)
        requires
            life > 0,
    ;
}

/// An immediate hit earns the base points and the whole speed bonus.
pub proof fn lemma_points_at_birth(base: int, bonus: int, age: int, life: int)
    requires
        0 <= bonus,
        life > 0,
        age <= 0,
    ensures
        points_spec(base, bonus, age, life) == base + bonus,
{
    assert(progress(age, life) == 0);
    assert(2 * bonus * life + life == (2 * life) * bonus + life) by (nonlinear_arith);
    vstd::arithmetic::div_mod::lemma_fundamental_div_mod_converse(
        (2 * life) * bonus + life,
        2 * life,
        bonus,
        life,
    );
}

/// A hit at the very end of the life earns the base points and nothing
/// more.
pub proof fn lemma_points_at_death(base: int, bonus: int, age: int, life: int)
    requires
        life > 0,
        age >= life,
    ensures
        points_spec(base, bonus, age, life) == base,
{
    assert(progress(age, life) == life);
    assert(2 * bonus * (life - life) == 0) by (nonlinear_arith);
    vstd::arithmetic::div_mod::lemma_fundamental_div_mod_converse(life, 2 * life, 0, life);
}

/// Whatever happens, in whatever order, a score that is not negative stays
/// so.
pub proof fn lemma_score_never_negative(score: int, events: Seq<ScoreEvent>)
    requires
        score >= 0,
    ensures
        score_after_all(score, events) >= 0,
    decreases events.len(),
{
    if events.len() > 0 {
        lemma_score_never_negative(score, events.drop_last());
    }
}

/// Charging for one more expiry after `count` of them, with the floor
/// applied each time, leaves what charging `count + 1` penalties at once
/// leaves.
pub proof fn lemma_expiries_add_up(score: int, penalty: u32, count: int)
    requires
        score >= 0,
        count >= 0,
    ensures
        score_after(score_after_expiries(score, penalty as int, count), ScoreEvent::Expired(penalty))
            == score_after_expiries(score, penalty as int, count + 1),
{
    assert((count + 1) * penalty == count * penalty + penalty) by (nonlinear_arith);
    assert(count * penalty >= 0) by (nonlinear_arith)
        requires
            penalty >= 0,
            count >= 0,
    ;
}

/// Counting one more expiry after `count` of them gives the tallies of
/// `count + 1` expiries.
pub proof fn lemma_after_expiries_step(stats: Stats, penalty: u32, count: int)
    requires
        count >= 0,
    ensures
        stats.after_expiries(penalty, count).after_expiries(penalty, 1) == stats.after_expiries(
            penalty,
            count + 1,
        ),
{
    lemma_expiries_add_up(stats.score as int, penalty, count);
    assert(1 * (penalty as int) == penalty);
    assert(count * penalty >= 0) by (nonlinear_arith)
        requires
            penalty >= 0,
            count >= 0,
    ;
}

/// No expiry leaves the tallies as they are.
pub proof fn lemma_after_no_expiry(stats: Stats, penalty: u32)
    ensures
        stats.after_expiries(penalty, 0) == stats,
{
    assert(0 * (penalty as int) == 0);
}

} // verus!
