//! Turns a stream of order-book depth snapshots into consistently scaled 3D
//! rows of bars stacked along a time axis, with a bounded render budget, and
//! keeps a camera on them.
//!
//! Every quantity is a fixed-point integer: prices and depths in millionths
//! of their unit, dimensionless factors in millionths of one.

pub mod camera;
pub mod fixed;
pub mod geometry;
pub mod row;
pub mod scales;
pub mod session;
