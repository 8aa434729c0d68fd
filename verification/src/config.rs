//! Tunable constants of a session, and the check that they fit together.

use vstd::prelude::*;

verus! {

/// The constants of one session. They never change while it runs.
#[derive(Clone, Copy, Debug, PartialEq, Eq, Structural)]
pub struct Config {
    /// Length of a timed run, in milliseconds.
    pub duration_ms: u64,
    /// Number of targets that are on the surface at any time.
    pub target_count: usize,
    /// Base lifetime of a target in milliseconds; each target lives for this
    /// value scaled by a factor between 0.85 and 1.15.
    pub target_life_ms: u32,
    /// Distance kept between a target's centre and the surface's edges.
    pub margin: u32,
    /// Radius of a target at birth and at death.
    pub min_r: u32,
    /// Radius of a target at the middle of its life.
    pub max_r: u32,
    /// Points awarded for any hit.
    pub base_points: u32,
    /// Additional points for an immediate hit; decays linearly to nothing
    /// over the target's life.
    pub speed_bonus: u32,
    /// Points lost by a shot that hits nothing.
    pub miss_penalty: u32,
    /// Points lost when a target dies unhit.
    pub expire_penalty: u32,
}

/// What makes a configuration unusable.
#[derive(Clone, Copy, Debug, PartialEq, Eq, Structural)]
pub enum ConfigError {
    /// `target_count` is zero.
    NoTargets,
    /// `min_r` is larger than `max_r`.
    RadiiInverted,
    /// `target_life_ms` is zero, so no target could have a positive lifetime.
    ZeroLifetime,
    /// `target_life_ms` is so long that the longest lifetime it allows does
    /// not fit in 32 bits.
    LifetimeTooLong,
}

/// Shortest lifetime allowed by a base lifetime: the least whole number of
/// milliseconds that is at least 0.85 times the base.
pub open spec fn shortest_life(base: int) -> int {
    (17 * base + 19) / 20
}

/// Longest lifetime allowed by a base lifetime: the greatest whole number of
/// milliseconds that is at most 1.15 times the base.
pub open spec fn longest_life(base: int) -> int {
    (23 * base) / 20
}

impl Config {
    /// The first fault of the configuration, in the order of `ConfigError`'s
    /// variants, if it has one.
    pub open spec fn fault(self) -> Option<ConfigError> {
        if self.target_count == 0 {
            Some(ConfigError::NoTargets)
        } else if self.min_r > self.max_r {
            Some(ConfigError::RadiiInverted)
        } else if self.target_life_ms == 0 {
            Some(ConfigError::ZeroLifetime)
        } else if longest_life(self.target_life_ms as int) > u32::MAX {
            Some(ConfigError::LifetimeTooLong)
        } else {
            None
        }
    }

    /// A session can run on this configuration.
    pub open spec fn valid(self) -> bool {
        &&& self.target_count >= 1
        &&& self.min_r <= self.max_r
        &&& self.target_life_ms >= 1
        &&& longest_life(self.target_life_ms as int) <= u32::MAX
    }

    /// Checks the configuration and names its first fault.
    pub fn validate(&self) -> (outcome: Result<(), ConfigError>)
        ensures
            outcome is Ok <==> self.valid(),
            outcome matches Err(e) ==> self.fault() == Some(e),
    {
        if self.target_count == 0 {
            return Err(ConfigError::NoTargets);
        }
        if self.min_r > self.max_r {
            return Err(ConfigError::RadiiInverted);
        }
        if self.target_life_ms == 0 {
            return Err(ConfigError::ZeroLifetime);
        }
        let longest: u64 = 23 * (self.target_life_ms as u64) / 20;
        if longest > u32::MAX as u64 {
            return Err(ConfigError::LifetimeTooLong);
        }
        Ok(())
    }

    /// The two ends of the range from which a target's lifetime is drawn.
    pub fn life_bounds(&self) -> (bounds: (u32, u32))
        requires
            self.valid(),
        ensures
            bounds.0 == shortest_life(self.target_life_ms as int),
            bounds.1 == longest_life(self.target_life_ms as int),
            1 <= bounds.0 <= self.target_life_ms <= bounds.1,
    {
        let base: u64 = self.target_life_ms as u64;
        let low: u64 = (17 * base + 19) / 20;
        let high: u64 = 23 * base / 20;
        (low as u32, high as u32)
    }
}

impl Default for Config {
    /// A one-minute run with three targets that live for about 0.9 s.
    fn default() -> (cfg: Config)
        ensures
            cfg == (Config {
                duration_ms: 60_000,
                target_count: 3,
                target_life_ms: 900,
                margin: 80,
                min_r: 10,
                max_r: 28,
                base_points: 100,
                speed_bonus: 100,
                miss_penalty: 50,
                expire_penalty: 75,
            }),
            cfg.valid(),
    {
        Config {
            duration_ms: 60_000,
            target_count: 3,
            target_life_ms: 900,
            margin: 80,
            min_r: 10,
            max_r: 28,
            base_points: 100,
            speed_bonus: 100,
            miss_penalty: 50,
            expire_penalty: 75,
        }
    }
}

} // verus!
