//! Core of a factory-building game on an isometric grid: a fixed-rate tick
//! clock, the stages of a frame, and the interaction layer that turns input
//! into placement requests.
pub mod clock;
pub mod direction;
pub mod interaction;
pub mod schedule;
pub mod tile;
