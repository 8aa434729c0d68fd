//! Engine of a reflex trainer: circular targets appear on a rectangular
//! surface, grow and shrink over a short life, and are scored when the player
//! clicks them in time.
//!
//! All quantities are integers. Times are milliseconds on a monotonic clock,
//! lengths are surface units chosen by the caller (whole pixels, or a fixed
//! fraction of a pixel), and opacity is counted in thousandths.

pub mod config;
pub mod curves;
pub mod game;
pub mod geometry;
pub mod hud;
pub mod rng;
pub mod scoring;
pub mod spawner;
pub mod target;
