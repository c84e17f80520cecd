//! Timing model and control logic of a single-pin square-wave benchmark
//! for the Raspberry Pi Pico (RP2040) and Pico 2 (RP2350) boards.
//!
//! The crate holds everything about the benchmark that can be decided
//! without touching hardware: the per-board timing table, the calibrated
//! instruction sequences of the cycle-counted variants, the delay
//! strategies, the selection of a test variant and the state machine of
//! the toggle loop.

pub mod clock;
pub mod cpu;
pub mod platform;
pub mod primitives;
pub mod program;
pub mod report;
pub mod select;
pub mod strategy;
pub mod text;
pub mod toggle;

