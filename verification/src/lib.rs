//! Control and monitoring core of a Power Distribution Module (PDM) back-end.
//!
//! The library holds the authoritative in-memory model of eight switchable
//! output channels, the safety classifier that derives the system status from
//! telemetry, and the command pipeline that mutates the model only after the
//! hardware has acknowledged a command.
//!
//! Electrical quantities are carried as fixed-point integers: millivolts,
//! milliamperes, millidegrees Celsius, and microwatts for power. Timestamps
//! are milliseconds of wall-clock time supplied by the caller.

pub mod config;
pub mod hardware;
pub mod kernel;
pub mod models;
pub mod safety;
