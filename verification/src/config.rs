//! Configuration of the PDM back-end: server binding, hardware transport,
//! safety thresholds and logging.
//!
//! The library only defines the configuration values and their defaults;
//! reading and writing a configuration file is serialization work that lives
//! outside the verified core.

use vstd::prelude::*;
use crate::models::SCALAR_BOUND;

verus! {

/// Hardware transport and polling settings.
#[derive(Clone, Debug)]
pub struct HardwareConfig {
    /// Serial port for PDM communication; `None` means auto-detect.
    pub serial_port: Option<String>,
    /// Serial baud rate.
    pub serial_baud_rate: u32,
    /// CAN bus interface name.
    pub can_interface: Option<String>,
    /// CAN bus bitrate, bits per second.
    pub can_bitrate: u32,
    /// Period of the system telemetry task, milliseconds.
    pub status_update_interval_ms: u64,
    /// Period of the channel telemetry task, milliseconds.
    pub monitoring_interval_ms: u64,
    /// Whether the simulated hardware back-end is in use.
    pub simulation_mode: bool,
}

/// Safety thresholds consulted by the classifier.
#[derive(Clone, Copy, Debug, PartialEq, Eq, Structural)]
pub struct SafetyConfig {
    /// Supply voltage above which the system is faulted, millivolts.
    pub max_input_voltage_mv: i64,
    /// Supply voltage below which the system is faulted, millivolts.
    pub min_input_voltage_mv: i64,
    /// Total current that must not be exceeded, milliamperes.
    pub max_total_current_ma: i64,
    /// Board temperature above which the system is faulted, millidegrees C.
    pub max_temperature_mc: i64,
    /// Default per-channel trip threshold, milliamperes.
    pub default_channel_current_limit_ma: i64,
    /// Per-command timeout for the emergency-shutdown path, seconds.
    pub emergency_shutdown_timeout_s: u64,
}

impl SafetyConfig {
    /// Thresholds are non-negative and small enough for the classifier's
    /// scaled comparisons to stay inside `i64`.
    pub open spec fn wf(self) -> bool {
        &&& 0 <= self.max_input_voltage_mv <= SCALAR_BOUND
        &&& 0 <= self.min_input_voltage_mv <= SCALAR_BOUND
        &&& 0 <= self.max_total_current_ma <= SCALAR_BOUND
        &&& 0 <= self.max_temperature_mc <= SCALAR_BOUND
        &&& 0 <= self.default_channel_current_limit_ma <= SCALAR_BOUND
    }
}

/// Logging settings; sinks and filtering live outside the verified core.
#[derive(Clone, Debug)]
pub struct LoggingConfig {
    /// Log level name: one of trace, debug, info, warn, error.
    pub level: String,
    /// Whether log lines also go to a file.
    pub log_to_file: bool,
    /// Path of the log file, if any.
    pub log_file_path: Option<String>,
}

/// The whole configuration.
#[derive(Clone, Debug)]
pub struct Config {
    /// host:port the API server binds to.
    pub server_address: String,
    /// Version string reported by the API.
    pub api_version: String,
    /// Hardware transport and polling settings.
    pub hardware: HardwareConfig,
    /// Safety thresholds.
    pub safety: SafetyConfig,
    /// Logging settings.
    pub logging: LoggingConfig,
}

impl Default for HardwareConfig {
    /// Defaults: auto-detected serial port at 115200 baud, `can0` at
    /// 500 kbit/s, telemetry every 100 ms and 50 ms, simulation on.
    fn default() -> (r: HardwareConfig)
        ensures
            r.serial_port is None,
            r.serial_baud_rate == 115_200,
            r.can_interface matches Some(i) && i@ == "can0"@,
            r.can_bitrate == 500_000,
            r.status_update_interval_ms == 100,
            r.monitoring_interval_ms == 50,
            r.simulation_mode,
    {
        HardwareConfig {
            serial_port: None,
            serial_baud_rate: 115_200,
            can_interface: Some(String::from_str("can0")),
            can_bitrate: 500_000,
            status_update_interval_ms: 100,
            monitoring_interval_ms: 50,
            simulation_mode: true,
        }
    }
}

impl Default for SafetyConfig {
    /// Defaults: supply window 10 V to 16 V, at most 100 A and 85 degrees C,
    /// 15 A per-channel limit, 5 s emergency-shutdown timeout.
    fn default() -> (r: SafetyConfig)
        ensures
            r == (SafetyConfig {
                max_input_voltage_mv: 16_000,
                min_input_voltage_mv: 10_000,
                max_total_current_ma: 100_000,
                max_temperature_mc: 85_000,
                default_channel_current_limit_ma: 15_000,
                emergency_shutdown_timeout_s: 5,
            }),
            r.wf(),
    {
        SafetyConfig {
            max_input_voltage_mv: 16_000,
            min_input_voltage_mv: 10_000,
            max_total_current_ma: 100_000,
            max_temperature_mc: 85_000,
            default_channel_current_limit_ma: 15_000,
            emergency_shutdown_timeout_s: 5,
        }
    }
}

impl Default for LoggingConfig {
    /// Defaults: level `info`, logging to `pdm_backend.log`.
    fn default() -> (r: LoggingConfig)
        ensures
            r.level@ == "info"@,
            r.log_to_file,
            r.log_file_path matches Some(p) && p@ == "pdm_backend.log"@,
    {
        LoggingConfig {
            level: String::from_str("info"),
            log_to_file: true,
            log_file_path: Some(String::from_str("pdm_backend.log")),
        }
    }
}

impl Default for Config {
    /// Defaults: bind `127.0.0.1:3030`, API version `1.0.0`, and the
    /// defaults of each section.
    fn default() -> (r: Config)
        ensures
            r.server_address@ == "127.0.0.1:3030"@,
            r.api_version@ == "1.0.0"@,
            r.hardware.serial_port is None,
            r.hardware.serial_baud_rate == 115_200,
            r.hardware.can_interface matches Some(i) && i@ == "can0"@,
            r.hardware.can_bitrate == 500_000,
            r.hardware.status_update_interval_ms == 100,
            r.hardware.monitoring_interval_ms == 50,
            r.hardware.simulation_mode,
            r.safety == (SafetyConfig {
                max_input_voltage_mv: 16_000,
                min_input_voltage_mv: 10_000,
                max_total_current_ma: 100_000,
                max_temperature_mc: 85_000,
                default_channel_current_limit_ma: 15_000,
                emergency_shutdown_timeout_s: 5,
            }),
            r.safety.wf(),
            r.logging.level@ == "info"@,
            r.logging.log_to_file,
    {
        Config {
            server_address: String::from_str("127.0.0.1:3030"),
            api_version: String::from_str("1.0.0"),
            hardware: HardwareConfig::default(),
            safety: SafetyConfig::default(),
            logging: LoggingConfig::default(),
        }
    }
}

} // verus!
