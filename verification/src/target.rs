//! One target on the surface.

use crate::config::Config;
use crate::curves::{alpha_at, alpha_spec, radius_at, radius_spec};
use crate::geometry::{dist2, squared_distance};
use vstd::prelude::*;

verus! {

/// What the presentation layer needs to draw one target.
#[derive(Clone, Copy, Debug, PartialEq, Eq, Structural)]
pub struct Sprite {
    /// Horizontal position of the centre.
    pub x: u32,
    /// Vertical position of the centre.
    pub y: u32,
    /// Radius at the moment of drawing.
    pub radius: u32,
    /// Opacity at the moment of drawing, in thousandths.
    pub alpha: u32,
}

/// A circular target. Its centre is fixed; its radius and opacity follow
/// from its age.
#[derive(Clone, Copy, Debug, PartialEq, Eq, Structural)]
pub struct Target {
    /// Horizontal position of the centre.
    pub x: u32,
    /// Vertical position of the centre.
    pub y: u32,
    /// Clock reading, in milliseconds, at which the target appeared.
    pub spawn_ms: u64,
    /// Milliseconds that the target lives.
    pub life_ms: u32,
}

impl Target {
    /// A target lives for a positive time.
    pub open spec fn wf(self) -> bool {
        self.life_ms > 0
    }

    /// Milliseconds since the target appeared; zero while the clock reads
    /// less than the spawn time.
    pub open spec fn age_at(self, now: u64) -> int {
        if now >= self.spawn_ms {
            now - self.spawn_ms
        } else {
            0
        }
    }

    /// The target has lived out its lifetime: its age has reached it.
    pub open spec fn expired_at(self, now: u64) -> bool {
        now - self.spawn_ms >= self.life_ms
    }

    /// Radius of the target at the clock reading `now`.
    pub open spec fn radius_at(self, cfg: Config, now: u64) -> int {
        radius_spec(cfg.min_r as int, cfg.max_r as int, self.age_at(now), self.life_ms as int)
    }

    /// A shot at `(px, py)` at the clock reading `now` lands on the target:
    /// the point is no farther from the centre than the radius of the
    /// moment.
    pub open spec fn hit_by(self, cfg: Config, now: u64, px: i32, py: i32) -> bool {
        dist2(px as int, py as int, self.x as int, self.y as int) <= self.radius_at(cfg, now)
            * self.radius_at(cfg, now)
    }

    /// How the target looks at the clock reading `now`.
    pub open spec fn sprite_at(self, cfg: Config, now: u64) -> Sprite {
        Sprite {
            x: self.x,
            y: self.y,
            radius: self.radius_at(cfg, now) as u32,
            alpha: alpha_spec(self.age_at(now), self.life_ms as int) as u32,
        }
    }

    /// Age of the target at the clock reading `now`.
    pub fn age(&self, now: u64) -> (age: u64)
        ensures
            age == self.age_at(now),
    {
        if now >= self.spawn_ms {
            now - self.spawn_ms
        } else {
            0
        }
    }

    /// Whether the target has lived out its lifetime at the clock reading
    /// `now`.
    pub fn is_expired(&self, now: u64) -> (expired: bool)
        ensures
            expired == self.expired_at(now),
    {
        now >= self.spawn_ms && now - self.spawn_ms >= self.life_ms as u64
    }

    /// Whether a shot at `(px, py)` at the clock reading `now` lands on the
    /// target.
    pub fn is_hit(&self, cfg: &Config, now: u64, px: i32, py: i32) -> (hit: bool)
        requires
            cfg.min_r <= cfg.max_r,
            self.wf(),
        ensures
            hit == self.hit_by(*cfg, now, px, py),
    {
        let r: u128 = radius_at(cfg, self.age(now), self.life_ms) as u128;
        assert(r * r <= 0xffff_ffff * 0xffff_ffff) by (nonlinear_arith)
            requires
                r <= 0xffff_ffff,
        ;
        let d2: u128 = squared_distance(px as i64, py as i64, self.x as i64, self.y as i64);
        d2 <= r * r
    }

    /// Position, radius and opacity of the target at the clock reading
    /// `now`.
    pub fn sprite(&self, cfg: &Config, now: u64) -> (sprite: Sprite)
        requires
            cfg.min_r <= cfg.max_r,
            self.wf(),
        ensures
            sprite == self.sprite_at(*cfg, now),
    {
        let age: u64 = self.age(now);
        Sprite {
            x: self.x,
            y: self.y,
            radius: radius_at(cfg, age, self.life_ms),
            alpha: alpha_at(age, self.life_ms),
        }
    }
}

} // verus!
