//! Desktop companion pet: the state machine, vitals, physics and telemetry
//! parsing of a small desktop pet, each with a contract that states what it
//! does.
//!
//! Quantities that are fractional in nature are held in fixed point:
//! vitals in millionths of a point, positions and velocities in thousandths
//! of a pixel, durations in nanoseconds and vitals ticks in milliseconds.
//! CPU usage is kept as the exact ratio of busy time to time passed.

pub mod types;
pub mod text;
pub mod vitals;
pub mod fsm;
pub mod physics;
pub mod cpu;
pub mod dialogue;
pub mod battery;
pub mod git;
pub mod layer_surface;
pub mod config;
pub mod dashboard;
pub mod sprite;
pub mod emit;
