//! Pose engine for scene objects: fixed-point translation and scale,
//! scripted command playback, curved-slide control and input bindings.
//!
//! Units used throughout the library:
//! - time is counted in microseconds;
//! - positions and scale are counted in nanounits (one scene unit is
//!   `1_000_000_000`);
//! - speeds are counted in thousandths per second (a base speed of `8000`
//!   moves eight units per second), so that a speed times a time in
//!   microseconds is an amount in nanounits (or nanodegrees for turns).
pub mod animation;
pub mod camera;
pub mod config;
pub mod curve;
pub mod input;
pub mod model_pos;
pub mod motion;
pub mod scene;
pub mod space;
