use pdm_backend::config::Config;
use pdm_backend::hardware::{base_current_ma, BrokerError, HardwareManager};
use pdm_backend::models::{ChannelStatus, PdmState, SystemStatus};

#[test]
fn test_hardware_manager_creation() {
    let config = Config::default();
    let hardware_manager = HardwareManager::new(config);

    assert!(hardware_manager.is_ok());
}

#[test]
fn test_config_default() {
    let config = Config::default();

    assert_eq!(config.server_address, "127.0.0.1:3030");
    assert_eq!(config.api_version, "1.0.0");
    assert!(config.hardware.simulation_mode);
    assert_eq!(config.safety.max_total_current_ma, 100_000);
}

#[test]
fn simulated_broker_acknowledges_commands() {
    let mgr = HardwareManager::new(Config::default()).unwrap();
    assert!(mgr.control_channel(3, true).is_ok());
    assert!(mgr.control_channel(3, false).is_ok());
    assert!(mgr.emergency_shutdown().is_ok());
}

#[test]
fn real_broker_reports_missing_transport() {
    let mut config = Config::default();
    config.hardware.simulation_mode = false;
    let mgr = HardwareManager::new(config).unwrap();
    assert_eq!(mgr.control_channel(3, true), Err(BrokerError::NotImplemented));
    assert_eq!(mgr.emergency_shutdown(), Err(BrokerError::NotImplemented));
    assert_eq!(
        BrokerError::NotImplemented.message(),
        "real hardware communication not implemented"
    );
}

#[test]
fn simulated_system_tick_lands_in_the_advertised_bands() {
    let mgr = HardwareManager::new(Config::default()).unwrap();
    let mut state = PdmState::new(0);
    state.update_channel(1, 13_200, 4_500, ChannelStatus::On, 1);

    let r = mgr.update_system_status(&mut state, 2);
    assert!(r.is_ok());
    // Supply rail: 13.8 V with at most 0.2 V of noise either way.
    assert!(state.input_voltage_mv >= 13_600 && state.input_voltage_mv <= 14_000);
    // Total current: the 4.5 A of channel 1 with at most 0.25 A of noise.
    assert!(state.total_current_ma >= 4_250 && state.total_current_ma <= 4_750);
    // Temperature: 25 C base plus load heating plus at most 2 C of noise.
    assert!(state.temperature_mc >= 26_350 && state.temperature_mc <= 28_350);
    // Nothing here crosses a default threshold.
    assert!(matches!(state.system_status, SystemStatus::Normal));
    assert_eq!(state.last_update_ms, 2);
}

#[test]
fn simulated_channel_sweep_reads_nominal_loads() {
    let mgr = HardwareManager::new(Config::default()).unwrap();
    let mut state = PdmState::new(0);
    state.update_channel(3, 13_000, 0, ChannelStatus::On, 1);

    let r = mgr.monitor_channels(&mut state, 2);
    assert!(r.is_ok());

    // The cooling fan on channel 3 reads its 8.5 A nominal draw with at
    // most 0.25 A of noise, near the supply rail.
    let fan = state.get_channel(3).unwrap();
    assert_eq!(fan.status, ChannelStatus::On);
    assert!(fan.current_ma >= 8_250 && fan.current_ma <= 8_750);
    assert!(
        fan.voltage_mv >= state.input_voltage_mv - 200 && fan.voltage_mv <= state.input_voltage_mv
    );

    // Every off channel reads zero.
    let pump = state.get_channel(1).unwrap();
    assert_eq!(pump.status, ChannelStatus::Off);
    assert_eq!(pump.voltage_mv, 0);
    assert_eq!(pump.current_ma, 0);
}

#[test]
fn nominal_loads_by_channel_id() {
    assert_eq!(base_current_ma(1), 4_200);
    assert_eq!(base_current_ma(2), 2_100);
    assert_eq!(base_current_ma(3), 8_500);
    assert_eq!(base_current_ma(4), 6_800);
    assert_eq!(base_current_ma(5), 1_500);
    assert_eq!(base_current_ma(6), 500);
    assert_eq!(base_current_ma(7), 500);
    assert_eq!(base_current_ma(8), 500);
}

#[test]
fn real_backend_tick_leaves_state_untouched() {
    let mut config = Config::default();
    config.hardware.simulation_mode = false;
    let mgr = HardwareManager::new(config).unwrap();
    let mut state = PdmState::new(0);

    assert!(mgr.update_system_status(&mut state, 5).is_ok());
    assert!(mgr.monitor_channels(&mut state, 5).is_ok());
    assert_eq!(state.input_voltage_mv, 12_000);
    assert_eq!(state.last_update_ms, 0);
}
