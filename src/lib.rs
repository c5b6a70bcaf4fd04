//! Decision logic of a small two-dimensional N-body simulation: which bodies
//! interact, when two circles count as overlapping, when a body may be
//! integrated, how the positional correction loop is bounded, which body the
//! cursor holds, and in what order a tick applies its operations.
//!
//! The arithmetic on positions, velocities and forces is floating point and
//! lives with the host program; this library decides everything around it.
pub mod band;
pub mod latch;
pub mod motion;
pub mod partners;
pub mod schedule;
