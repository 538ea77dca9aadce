//! The hardware broker: the narrow façade the kernel uses to talk to the
//! PDM hardware, with a simulated back-end for development and stubs where
//! the real transport would attach.
//!
//! The simulated back-end draws its measurement noise from the process-wide
//! random number generator; each noise term is bounded, and everything
//! computed from it is verified for every value the generator may yield.

use vstd::prelude::*;
use crate::config::Config;
use crate::kernel::apply_system_telemetry;
use crate::models::{
    stamp, stamp_ms, ChannelStatus, PdmState, SystemStatus, SystemTelemetry, MEASUREMENT_BOUND,
};
use crate::safety::spec_classify;

verus! {

/// Error returned by the hardware broker.
#[derive(Clone, Copy, Debug, PartialEq, Eq, Structural)]
pub enum BrokerError {
    /// The real hardware transport is not present in this build.
    NotImplemented,
}

impl BrokerError {
    /// Human-readable description of the error.
    pub fn message(&self) -> (r: String)
        ensures
            r@ == "real hardware communication not implemented"@,
    {
        String::from_str("real hardware communication not implemented")
    }
}

/// Draws one machine word from the process-wide generator.
/// Relies on `rand::random`: nothing is promised of the value.
#[verifier::external_body]
fn random_u32() -> u32 {
    rand::random::<u32>()
}

/// Uniformly-spread noise in `0..=bound`, folded down from one random draw.
fn noise_in(bound: u32) -> (r: u32)
    requires
        bound < 0xffff_ffff,
    ensures
        r <= bound,
{
    random_u32() % (bound + 1)
}

/// Nominal current draw of the load wired to the given channel id, used by
/// the simulated back-end. The ids carry the fixed labels: fuel pump,
/// ignition, cooling fan, headlights, ECU main, and the three spares.
pub open spec fn spec_base_current_ma(ch: u8) -> i64 {
    if ch == 1 {
        4_200
    } else if ch == 2 {
        2_100
    } else if ch == 3 {
        8_500
    } else if ch == 4 {
        6_800
    } else if ch == 5 {
        1_500
    } else {
        500
    }
}

/// Executable counterpart of [`spec_base_current_ma`].
pub fn base_current_ma(ch: u8) -> (r: i64)
    ensures
        r == spec_base_current_ma(ch),
{
    if ch == 1 {
        4_200
    } else if ch == 2 {
        2_100
    } else if ch == 3 {
        8_500
    } else if ch == 4 {
        6_800
    } else if ch == 5 {
        1_500
    } else {
        500
    }
}

/// One simulated system telemetry sample, as a pure function of the summed
/// On-channel current and the three bounded noise terms:
/// - supply voltage `13.8 V` plus noise in `[-0.2 V, +0.2 V]`;
/// - raw total current: the sum plus noise in `[-0.25 A, +0.25 A]`;
/// - temperature `25 C` plus `0.3 mC` per milliampere of (non-negative)
///   load plus noise in `[0 C, 2 C]`.
pub fn simulated_system_telemetry(
    on_current_ma: i64,
    noise_v_mv: u32,
    noise_i_ma: u32,
    noise_t_mc: u32,
) -> (t: SystemTelemetry)
    requires
        -8 * MEASUREMENT_BOUND <= on_current_ma <= 8 * MEASUREMENT_BOUND,
        noise_v_mv <= 400,
        noise_i_ma <= 500,
        noise_t_mc <= 2_000,
    ensures
        t.input_voltage_mv == 13_800 - 200 + noise_v_mv,
        t.raw_total_current_ma == on_current_ma - 250 + noise_i_ma,
        t.temperature_mc == 25_000 + 3 * (if on_current_ma >= 0 {
            on_current_ma as int
        } else {
            0
        }) / 10 + noise_t_mc,
        t.wf(),
{
    let input_voltage_mv: i64 = 13_800 - 200 + noise_v_mv as i64;
    let raw_total_current_ma: i64 = on_current_ma - 250 + noise_i_ma as i64;
    let load_ma: u64 = if on_current_ma >= 0 {
        on_current_ma as u64
    } else {
        0
    };
    let heat_mc: i64 = ((load_ma * 3) / 10) as i64;
    let temperature_mc: i64 = 25_000 + heat_mc + noise_t_mc as i64;
    SystemTelemetry { input_voltage_mv, raw_total_current_ma, temperature_mc }
}

/// The hardware broker. The back-end — simulated or real — is fixed at
/// construction from the configuration.
pub struct HardwareManager {
    /// The configuration the manager was built with.
    pub config: Config,
    /// Whether the simulated back-end is in use; cached from
    /// `config.hardware.simulation_mode`.
    pub simulation_mode: bool,
}

impl HardwareManager {
    /// Builds the broker; construction itself cannot fail.
    pub fn new(config: Config) -> (r: Result<HardwareManager, BrokerError>)
        ensures
            r matches Ok(m) && m.simulation_mode == config.hardware.simulation_mode && m.config
                == config,
    {
        let simulation_mode = config.hardware.simulation_mode;
        Ok(HardwareManager { config, simulation_mode })
    }

    /// Requests the hardware to close or open one channel's switch; returns
    /// only after acknowledgment. The simulated back-end always
    /// acknowledges; the real transport is not present in this build.
    pub fn control_channel(&self, channel: u8, enable: bool) -> (r: Result<(), BrokerError>)
        ensures
            self.simulation_mode <==> r is Ok,
            r matches Err(e) ==> e == BrokerError::NotImplemented,
    {
        if self.simulation_mode {
            Ok(())
        } else {
            self.send_real_channel_command(channel, enable)
        }
    }

    /// Requests the hardware to open all switches atomically, as a single
    /// broadcast. The simulated back-end always acknowledges; the real
    /// transport is not present in this build.
    pub fn emergency_shutdown(&self) -> (r: Result<(), BrokerError>)
        ensures
            self.simulation_mode <==> r is Ok,
            r matches Err(e) ==> e == BrokerError::NotImplemented,
    {
        if self.simulation_mode {
            Ok(())
        } else {
            self.send_real_emergency_shutdown()
        }
    }

    /// One tick of the system telemetry source against either back-end:
    /// the simulated back-end samples and applies system telemetry, the
    /// real one reports success without touching the state until a
    /// transport exists.
    pub fn update_system_status(&self, state: &mut PdmState, now_ms: u64) -> (r: Result<
        (),
        BrokerError,
    >)
        requires
            old(state).wf(),
            self.config.safety.wf(),
        ensures
            r is Ok,
            final(state).wf(),
            old(state).coherent() ==> final(state).coherent(),
            self.simulation_mode ==> self.system_telemetry_simulated(
                *old(state),
                *final(state),
                now_ms,
            ),
            !self.simulation_mode ==> *final(state) == *old(state),
    {
        if self.simulation_mode {
            self.simulate_system_status(state, now_ms);
            Ok(())
        } else {
            self.read_real_system_status()
        }
    }

    /// One sweep of the channel telemetry source against either back-end.
    pub fn monitor_channels(&self, state: &mut PdmState, now_ms: u64) -> (r: Result<
        (),
        BrokerError,
    >)
        requires
            old(state).wf(),
            -MEASUREMENT_BOUND + 200 <= old(state).input_voltage_mv <= MEASUREMENT_BOUND,
        ensures
            r is Ok,
            final(state).wf(),
            old(state).coherent() ==> final(state).coherent(),
            self.simulation_mode ==> Self::channel_readings_simulated(
                *old(state),
                *final(state),
                now_ms,
            ),
            !self.simulation_mode ==> *final(state) == *old(state),
    {
        if self.simulation_mode {
            self.simulate_channel_readings(state, now_ms);
            Ok(())
        } else {
            self.read_real_channel_status()
        }
    }

    /// What one simulated system-telemetry tick does to the state: the
    /// channels are untouched, the aggregate fields land in the simulator's
    /// bands around the summed On-channel current, and the system status is
    /// the classifier's verdict on exactly the written values — unless the
    /// state was in `Emergency`, which telemetry never clears.
    pub open spec fn system_telemetry_simulated(
        self,
        pre: PdmState,
        post: PdmState,
        now_ms: u64,
    ) -> bool {
        let sum = PdmState::on_current_sum(pre.channels@);
        let load = if sum >= 0 {
            sum
        } else {
            0
        };
        &&& post.channels@ == pre.channels@
        &&& 13_600 <= post.input_voltage_mv <= 14_000
        &&& sum - 250 <= post.total_current_ma <= sum + 250
        &&& 25_000 + 3 * load / 10 <= post.temperature_mc <= 25_000 + 3 * load / 10 + 2_000
        &&& post.system_status == (if pre.system_status == SystemStatus::Emergency {
            SystemStatus::Emergency
        } else {
            spec_classify(
                post.input_voltage_mv as int,
                post.total_current_ma as int,
                post.temperature_mc as int,
                self.config.safety,
            )
        })
        &&& post.last_update_ms == stamp(pre.last_update_ms, now_ms)
    }

    /// One tick of the simulated system telemetry: draws the bounded noise
    /// terms, forms the sample from the summed On-channel current, applies
    /// it and re-runs the classifier.
    pub fn simulate_system_status(&self, state: &mut PdmState, now_ms: u64)
        requires
            old(state).wf(),
            self.config.safety.wf(),
        ensures
            final(state).wf(),
            self.system_telemetry_simulated(*old(state), *final(state), now_ms),
            old(state).coherent() ==> final(state).coherent(),
    {
        let sum = state.on_current_sum_ma();
        let noise_v = noise_in(400);
        let noise_i = noise_in(500);
        let noise_t = noise_in(2_000);
        let sample = simulated_system_telemetry(sum, noise_v, noise_i, noise_t);
        apply_system_telemetry(state, sample, &self.config.safety, now_ms);
    }

    /// What one simulated channel sweep does to the state: statuses, faults,
    /// labels and limits are untouched; a conducting channel shows the
    /// supply voltage less a small drop and its load's nominal current plus
    /// noise; every other channel shows zeroed measurements; stamps are
    /// refreshed and the aggregate fields are untouched.
    pub open spec fn channel_readings_simulated(pre: PdmState, post: PdmState, now_ms: u64) -> bool {
        &&& post.channels@.len() == pre.channels@.len()
        &&& forall|i: int|
            0 <= i < pre.channels@.len() ==> {
                let c0 = pre.channels@[i];
                let c1 = #[trigger] post.channels@[i];
                &&& c1.ch == c0.ch
                &&& c1.name == c0.name
                &&& c1.status == c0.status
                &&& c1.current_limit_ma == c0.current_limit_ma
                &&& c1.fault == c0.fault
                &&& (c0.status == ChannelStatus::On ==> pre.input_voltage_mv - 200
                    <= c1.voltage_mv <= pre.input_voltage_mv && spec_base_current_ma(c0.ch) - 250
                    <= c1.current_ma <= spec_base_current_ma(c0.ch) + 250)
                &&& (c0.status != ChannelStatus::On ==> c1.voltage_mv == 0 && c1.current_ma == 0)
                &&& c1.last_update_ms == stamp(c0.last_update_ms, now_ms)
            }
        &&& post.input_voltage_mv == pre.input_voltage_mv
        &&& post.total_current_ma == pre.total_current_ma
        &&& post.temperature_mc == pre.temperature_mc
        &&& post.system_status == pre.system_status
        &&& post.last_update_ms == stamp(pre.last_update_ms, now_ms)
    }

    /// One sweep of the simulated channel telemetry: conducting channels
    /// read near the supply rail with their load's nominal current, all
    /// other channels read zero.
    pub fn simulate_channel_readings(&self, state: &mut PdmState, now_ms: u64)
        requires
            old(state).wf(),
            -MEASUREMENT_BOUND + 200 <= old(state).input_voltage_mv <= MEASUREMENT_BOUND,
        ensures
            final(state).wf(),
            Self::channel_readings_simulated(*old(state), *final(state), now_ms),
            old(state).coherent() ==> final(state).coherent(),
    {
        let input_mv: i64 = state.input_voltage_mv;
        let mut idx: usize = 0;
        while idx < 8
            invariant
                old(state).wf(),
                idx <= 8,
                state.channels@.len() == 8,
                input_mv == old(state).input_voltage_mv,
                -MEASUREMENT_BOUND + 200 <= input_mv <= MEASUREMENT_BOUND,
                forall|j: int|
                    0 <= j < idx ==> {
                        let c0 = old(state).channels@[j];
                        let c1 = #[trigger] state.channels@[j];
                        &&& c1.ch == c0.ch
                        &&& c1.name == c0.name
                        &&& c1.status == c0.status
                        &&& c1.current_limit_ma == c0.current_limit_ma
                        &&& c1.fault == c0.fault
                        &&& (c0.status == ChannelStatus::On ==> input_mv - 200 <= c1.voltage_mv
                            <= input_mv && spec_base_current_ma(c0.ch) - 250 <= c1.current_ma
                            <= spec_base_current_ma(c0.ch) + 250)
                        &&& (c0.status != ChannelStatus::On ==> c1.voltage_mv == 0
                            && c1.current_ma == 0)
                        &&& c1.last_update_ms == stamp(c0.last_update_ms, now_ms)
                        &&& c1.wf()
                    },
                forall|j: int| idx <= j < 8 ==> state.channels@[j] == old(state).channels@[j],
                state.input_voltage_mv == old(state).input_voltage_mv,
                state.total_current_ma == old(state).total_current_ma,
                state.temperature_mc == old(state).temperature_mc,
                state.system_status == old(state).system_status,
                state.last_update_ms == old(state).last_update_ms,
            decreases 8 - idx,
        {
            let on = state.channels[idx].status == ChannelStatus::On;
            if on {
                let ch_id = state.channels[idx].ch;
                let base = base_current_ma(ch_id);
                let noise_v = noise_in(200);
                let noise_i = noise_in(500);
                let c = &mut state.channels[idx];
                c.voltage_mv = input_mv - noise_v as i64;
                c.current_ma = base - 250 + noise_i as i64;
                c.last_update_ms = stamp_ms(c.last_update_ms, now_ms);
            } else {
                let c = &mut state.channels[idx];
                c.voltage_mv = 0;
                c.current_ma = 0;
                c.last_update_ms = stamp_ms(c.last_update_ms, now_ms);
            }
            idx = idx + 1;
        }
        state.last_update_ms = stamp_ms(state.last_update_ms, now_ms);
    }

    /// Would read system telemetry from the real transport; until one
    /// exists it reports success and leaves the state to be read untouched.
    fn read_real_system_status(&self) -> (r: Result<(), BrokerError>)
        ensures
            r is Ok,
    {
        Ok(())
    }

    /// Would read channel telemetry from the real transport; until one
    /// exists it reports success and leaves the state to be read untouched.
    fn read_real_channel_status(&self) -> (r: Result<(), BrokerError>)
        ensures
            r is Ok,
    {
        Ok(())
    }

    /// Would send one channel switch command over the real transport.
    fn send_real_channel_command(&self, _channel: u8, _enable: bool) -> (r: Result<
        (),
        BrokerError,
    >)
        ensures
            r == Result::<(), BrokerError>::Err(BrokerError::NotImplemented),
    {
        Err(BrokerError::NotImplemented)
    }

    /// Would send the emergency-shutdown broadcast over the real transport.
    fn send_real_emergency_shutdown(&self) -> (r: Result<(), BrokerError>)
        ensures
            r == Result::<(), BrokerError>::Err(BrokerError::NotImplemented),
    {
        Err(BrokerError::NotImplemented)
    }
}

} // verus!
