use pdm_backend::models::{ChannelStatus, PdmState, SystemStatus};

#[test]
fn test_pdm_state_creation() {
    let state = PdmState::new(0);

    // Should have 8 channels
    assert_eq!(state.channels.len(), 8);

    // All channels should start OFF
    for channel in state.channels.iter() {
        assert_eq!(channel.status, ChannelStatus::Off);
        assert_eq!(channel.voltage_mv, 0);
        assert_eq!(channel.current_ma, 0);
    }

    // System should start normal
    assert!(matches!(state.system_status, SystemStatus::Normal));
}

#[test]
fn test_channel_update() {
    let mut state = PdmState::new(0);

    // Update channel 1: 13.2 V, 4.5 A
    state.update_channel(1, 13_200, 4_500, ChannelStatus::On, 1);

    let channel = state.get_channel(1).unwrap();
    assert_eq!(channel.voltage_mv, 13_200);
    assert_eq!(channel.current_ma, 4_500);
    assert_eq!(channel.status, ChannelStatus::On);
}

#[test]
fn test_emergency_shutdown() {
    let mut state = PdmState::new(0);

    // Turn on some channels first
    state.update_channel(1, 13_200, 4_500, ChannelStatus::On, 1);
    state.update_channel(2, 13_100, 2_100, ChannelStatus::On, 2);

    // Emergency shutdown
    state.emergency_shutdown(3);

    // All channels should be OFF
    for channel in state.channels.iter() {
        assert_eq!(channel.status, ChannelStatus::Off);
        assert_eq!(channel.voltage_mv, 0);
        assert_eq!(channel.current_ma, 0);
    }

    assert_eq!(state.total_current_ma, 0);
}

#[test]
fn test_total_power_calculation() {
    let mut state = PdmState::new(0);
    state.input_voltage_mv = 13_800;
    state.total_current_ma = 10_000;

    let power = state.total_power();
    assert_eq!(power, 138_000_000); // 13.8 V * 10.0 A = 138 W
}

#[test]
fn cold_start_names_in_order() {
    let state = PdmState::new(0);
    let expected = [
        "FUEL PUMP",
        "IGNITION",
        "COOLING FAN",
        "HEADLIGHTS",
        "ECU MAIN",
        "SPARE 1",
        "SPARE 2",
        "SPARE 3",
    ];
    for i in 0..8usize {
        assert_eq!(state.channels[i].ch, (i + 1) as u8);
        assert_eq!(state.channels[i].name, expected[i]);
        assert_eq!(state.channels[i].current_limit_ma, 15_000);
        assert!(state.channels[i].fault.is_none());
    }
    assert_eq!(state.input_voltage_mv, 12_000);
    assert_eq!(state.temperature_mc, 25_000);
    assert_eq!(state.total_power(), 0);
}

#[test]
fn channel_update_advances_stamp() {
    let mut state = PdmState::new(0);
    state.update_channel(1, 13_200, 4_500, ChannelStatus::On, 42);
    assert_eq!(state.get_channel(1).unwrap().last_update_ms, 42);
    assert_eq!(state.last_update_ms, 42);
}

#[test]
fn stamps_never_go_backwards() {
    let mut state = PdmState::new(0);
    state.update_channel(1, 13_200, 4_500, ChannelStatus::On, 10);
    // A wall clock that stepped back must not rewind the stamp.
    state.update_channel(1, 13_000, 4_400, ChannelStatus::On, 5);
    assert_eq!(state.get_channel(1).unwrap().last_update_ms, 10);
    assert_eq!(state.last_update_ms, 10);
}

#[test]
fn out_of_range_channel_update_is_a_no_op() {
    let mut state = PdmState::new(0);
    state.update_channel(9, 13_200, 4_500, ChannelStatus::On, 7);
    state.update_channel(0, 13_200, 4_500, ChannelStatus::On, 7);
    for channel in state.channels.iter() {
        assert_eq!(channel.status, ChannelStatus::Off);
        assert_eq!(channel.voltage_mv, 0);
    }
    assert_eq!(state.last_update_ms, 0);
    assert!(state.get_channel(0).is_none());
    assert!(state.get_channel(9).is_none());
}

#[test]
fn raw_update_stores_measurements_as_provided() {
    // The raw mutator stores what it is handed, even an ill-formed
    // non-zero reading on an off channel; the telemetry path is what
    // normalizes (see the kernel tests).
    let mut state = PdmState::new(0);
    state.update_channel(2, 5_000, 5_000, ChannelStatus::Off, 1);
    let c = state.get_channel(2).unwrap();
    assert_eq!(c.voltage_mv, 5_000);
    assert_eq!(c.current_ma, 5_000);
}
