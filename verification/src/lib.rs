//! Fleet telemetry health analysis.
//!
//! The crate ingests a batch of robot telemetry readings, derives aggregate
//! fleet health metrics and threshold-based alerts, and assembles the result
//! into report text. Fractional quantities (battery percentage, CPU
//! temperature, averages) are carried as fixed-point integers in thousandths
//! of a unit, so every threshold comparison, mean, and rendered digit is
//! exact.

pub mod fleet;
pub mod numfmt;
pub mod report;
pub mod telemetry;
