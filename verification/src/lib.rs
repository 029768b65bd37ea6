//! Core of a small arcade game: a player sprite moves in a 2D arena,
//! collectible targets spawn on a fixed cadence at random positions, and
//! colliding with a target removes it and increments the score.
//!
//! Everything here is the per-frame simulation: collision-driven scoring and
//! high-score bookkeeping, input-driven player movement, spawn-timer ticking,
//! and the text labels that mirror the scores. The host (window, rendering,
//! audio, input devices) feeds each frame's snapshots in as plain values and
//! applies the returned side-effect requests to the engine.
//!
//! Positions and arena dimensions are carried in milliunits (one thousandth
//! of a distance unit) and time in milliseconds, so that one frame's movement
//! at the fixed speed of 200 units per second is exactly representable:
//! 200 units/second equals 200 milliunits/millisecond.

pub mod events;
pub mod sampling;
pub mod state;
pub mod text;
pub mod update;
pub mod timer;
pub mod world;
