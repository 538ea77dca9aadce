//! The safety classifier: a total, pure function from freshly sampled
//! telemetry and the configured thresholds to the system status.
//!
//! The rules, checked in this order:
//! - supply voltage outside its window, or temperature over its maximum:
//!   `Fault`;
//! - total current over 80% of its maximum, or temperature over 80% of its
//!   maximum: `Warning`;
//! - otherwise `Normal`.
//!
//! The 80% comparisons are exact: `x > 0.8 * max` is decided as
//! `5 * x > 4 * max` on the fixed-point integers.
//!
//! The classifier never yields `Emergency`: that status is forced by the
//! emergency-shutdown command path alone, and the command pipeline keeps it
//! until an operator resets.

use vstd::prelude::*;
use crate::config::SafetyConfig;
use crate::models::{SystemStatus, SCALAR_BOUND};

verus! {

/// The classifier's table as a spec-level function.
pub open spec fn spec_classify(
    input_voltage_mv: int,
    total_current_ma: int,
    temperature_mc: int,
    safety: SafetyConfig,
) -> SystemStatus {
    if input_voltage_mv < safety.min_input_voltage_mv || input_voltage_mv
        > safety.max_input_voltage_mv || temperature_mc > safety.max_temperature_mc {
        SystemStatus::Fault
    } else if 5 * total_current_ma > 4 * safety.max_total_current_ma || 5 * temperature_mc > 4
        * safety.max_temperature_mc {
        SystemStatus::Warning
    } else {
        SystemStatus::Normal
    }
}

/// Derives the system status from telemetry; agrees with [`spec_classify`]
/// on every input.
pub fn classify(
    input_voltage_mv: i64,
    total_current_ma: i64,
    temperature_mc: i64,
    safety: &SafetyConfig,
) -> (r: SystemStatus)
    requires
        safety.wf(),
        -SCALAR_BOUND <= input_voltage_mv <= SCALAR_BOUND,
        -SCALAR_BOUND <= total_current_ma <= SCALAR_BOUND,
        -SCALAR_BOUND <= temperature_mc <= SCALAR_BOUND,
    ensures
        r == spec_classify(
            input_voltage_mv as int,
            total_current_ma as int,
            temperature_mc as int,
            *safety,
        ),
        r != SystemStatus::Emergency,
{
    if input_voltage_mv < safety.min_input_voltage_mv || input_voltage_mv
        > safety.max_input_voltage_mv || temperature_mc > safety.max_temperature_mc {
        SystemStatus::Fault
    } else if 5 * total_current_ma > 4 * safety.max_total_current_ma || 5 * temperature_mc > 4
        * safety.max_temperature_mc {
        SystemStatus::Warning
    } else {
        SystemStatus::Normal
    }
}

} // verus!
