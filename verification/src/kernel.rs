//! The control kernel's pure core: command planning, write-after-ack state
//! mutation, and application of telemetry samples.
//!
//! The kernel's surroundings — timers, the reader-writer lock, the
//! asynchronous broker calls — live outside the library. They hand the
//! functions here the current state, the validated inputs and the broker's
//! verdict, and the functions here decide and mutate. A broker error never
//! mutates state.

use vstd::prelude::*;
use crate::config::SafetyConfig;
use crate::hardware::BrokerError;
use crate::models::{
    channel_shut_down, stamp, stamp_ms, ChannelAction, ChannelFault, ChannelStatus, PdmState,
    SystemStatus, SystemTelemetry, MEASUREMENT_BOUND,
};
use crate::safety::{classify, spec_classify};

verus! {

/// What the command dispatcher decides to do with a command, before any
/// hardware is touched.
#[derive(Clone, Copy, Debug, PartialEq, Eq, Structural)]
pub enum CommandPlan {
    /// The channel id is outside `1..=8`: reject, no hardware call.
    BadChannel,
    /// Setting a current limit is accepted but not implemented: report a
    /// structured non-success, no hardware call.
    NotImplemented,
    /// Ask the broker to switch the channel, then apply the mutation on
    /// acknowledgment.
    Switch { enable: bool },
}

/// Resolves a command against the current state: validates the channel id
/// and turns `Toggle` into a concrete switch request based on the channel's
/// present status.
pub fn plan_command(state: &PdmState, channel: u8, action: ChannelAction) -> (p: CommandPlan)
    requires
        state.wf(),
    ensures
        !(1 <= channel <= 8) ==> p == CommandPlan::BadChannel,
        (1 <= channel <= 8) ==> match action {
            ChannelAction::TurnOn => p == (CommandPlan::Switch { enable: true }),
            ChannelAction::TurnOff => p == (CommandPlan::Switch { enable: false }),
            ChannelAction::Toggle => p == (CommandPlan::Switch {
                enable: state.channels@[channel - 1].status == ChannelStatus::Off,
            }),
            ChannelAction::SetCurrentLimit(_) => p == CommandPlan::NotImplemented,
        },
{
    if !(channel >= 1 && channel <= 8) {
        return CommandPlan::BadChannel;
    }
    match action {
        ChannelAction::TurnOn => CommandPlan::Switch { enable: true },
        ChannelAction::TurnOff => CommandPlan::Switch { enable: false },
        ChannelAction::Toggle => {
            let c = &state.channels[(channel - 1) as usize];
            CommandPlan::Switch { enable: c.status == ChannelStatus::Off }
        },
        ChannelAction::SetCurrentLimit(_) => CommandPlan::NotImplemented,
    }
}

/// Relates the state before and after an acknowledged switch command: the
/// addressed channel is on or off as requested (switching off zeroes its
/// measurements), its fault is cleared, stamps are refreshed, and nothing
/// else changes.
pub open spec fn switched(
    pre: PdmState,
    post: PdmState,
    channel: u8,
    enable: bool,
    now_ms: u64,
) -> bool {
    let i = channel - 1;
    let c0 = pre.channels@[i];
    let c1 = post.channels@[i];
    &&& post.channels@.len() == pre.channels@.len()
    &&& c1.ch == c0.ch
    &&& c1.name == c0.name
    &&& c1.status == (if enable {
        ChannelStatus::On
    } else {
        ChannelStatus::Off
    })
    &&& c1.voltage_mv == (if enable {
        c0.voltage_mv
    } else {
        0
    })
    &&& c1.current_ma == (if enable {
        c0.current_ma
    } else {
        0
    })
    &&& c1.current_limit_ma == c0.current_limit_ma
    &&& c1.fault is None
    &&& c1.last_update_ms == stamp(c0.last_update_ms, now_ms)
    &&& forall|j: int|
        0 <= j < pre.channels@.len() && j != i ==> post.channels@[j] == pre.channels@[j]
    &&& post.input_voltage_mv == pre.input_voltage_mv
    &&& post.total_current_ma == pre.total_current_ma
    &&& post.temperature_mc == pre.temperature_mc
    &&& post.system_status == pre.system_status
    &&& post.last_update_ms == stamp(pre.last_update_ms, now_ms)
}

/// Applies the state mutation of a switch command after the broker call:
/// the state is mutated exactly when the broker acknowledged, and the
/// broker's verdict is handed back unchanged.
pub fn complete_command(
    state: &mut PdmState,
    channel: u8,
    enable: bool,
    broker_result: Result<(), BrokerError>,
    now_ms: u64,
) -> (r: Result<(), BrokerError>)
    requires
        old(state).wf(),
        1 <= channel <= 8,
    ensures
        r == broker_result,
        final(state).wf(),
        broker_result is Err ==> *final(state) == *old(state),
        broker_result is Ok ==> switched(*old(state), *final(state), channel, enable, now_ms),
        old(state).coherent() ==> final(state).coherent(),
        final(state).last_update_ms >= old(state).last_update_ms,
{
    if broker_result.is_ok() {
        let idx: usize = (channel - 1) as usize;
        let c = &mut state.channels[idx];
        c.status = if enable {
            ChannelStatus::On
        } else {
            ChannelStatus::Off
        };
        if !enable {
            c.voltage_mv = 0;
            c.current_ma = 0;
        }
        c.fault = None;
        c.last_update_ms = stamp_ms(c.last_update_ms, now_ms);
        state.last_update_ms = stamp_ms(state.last_update_ms, now_ms);
    }
    broker_result
}

/// Applies the state mutation of the emergency-shutdown command after the
/// broker call: on acknowledgment every channel is forced off and the
/// system status becomes `Emergency`; on a broker error the state is left
/// exactly as it was, because the model must reflect reality.
pub fn apply_emergency_shutdown(
    state: &mut PdmState,
    broker_result: Result<(), BrokerError>,
    now_ms: u64,
) -> (r: Result<(), BrokerError>)
    requires
        old(state).wf(),
    ensures
        r == broker_result,
        final(state).wf(),
        broker_result is Err ==> *final(state) == *old(state),
        broker_result is Ok ==> {
            &&& final(state).coherent()
            &&& forall|i: int|
                0 <= i < 8 ==> channel_shut_down(
                    old(state).channels@[i],
                    #[trigger] final(state).channels@[i],
                    now_ms,
                )
            &&& final(state).total_current_ma == 0
            &&& final(state).input_voltage_mv == old(state).input_voltage_mv
            &&& final(state).temperature_mc == old(state).temperature_mc
            &&& final(state).system_status == SystemStatus::Emergency
            &&& final(state).last_update_ms == stamp(old(state).last_update_ms, now_ms)
        },
{
    if broker_result.is_ok() {
        state.emergency_shutdown(now_ms);
        state.system_status = SystemStatus::Emergency;
    }
    broker_result
}

/// Quiesces the model after a reset-all command: every channel off, zeroed
/// and cleared of its fault, total current zero, and the system status back
/// to `Normal` — reset is the operator action that leaves `Emergency`.
/// Runs unconditionally: reset is a local cleanup, not a contract with the
/// hardware; per-channel transport errors are reported by the caller.
pub fn apply_reset_all(state: &mut PdmState, now_ms: u64)
    requires
        old(state).wf(),
    ensures
        final(state).wf(),
        final(state).coherent(),
        forall|i: int|
            0 <= i < 8 ==> channel_shut_down(
                old(state).channels@[i],
                #[trigger] final(state).channels@[i],
                now_ms,
            ),
        final(state).total_current_ma == 0,
        final(state).input_voltage_mv == old(state).input_voltage_mv,
        final(state).temperature_mc == old(state).temperature_mc,
        final(state).system_status == SystemStatus::Normal,
        final(state).last_update_ms == stamp(old(state).last_update_ms, now_ms),
{
    state.emergency_shutdown(now_ms);
    state.system_status = SystemStatus::Normal;
}

/// Applies one system telemetry sample (the system telemetry task): writes
/// the three aggregate fields, re-runs the safety classifier on exactly the
/// written values, and refreshes the stamp. The classifier's verdict never
/// overwrites `Emergency`; only a reset does.
pub fn apply_system_telemetry(
    state: &mut PdmState,
    sample: SystemTelemetry,
    safety: &SafetyConfig,
    now_ms: u64,
)
    requires
        old(state).wf(),
        sample.wf(),
        safety.wf(),
    ensures
        final(state).wf(),
        final(state).channels@ == old(state).channels@,
        final(state).input_voltage_mv == sample.input_voltage_mv,
        final(state).total_current_ma == sample.raw_total_current_ma,
        final(state).temperature_mc == sample.temperature_mc,
        final(state).system_status == (if old(state).system_status == SystemStatus::Emergency {
            SystemStatus::Emergency
        } else {
            spec_classify(
                sample.input_voltage_mv as int,
                sample.raw_total_current_ma as int,
                sample.temperature_mc as int,
                *safety,
            )
        }),
        final(state).last_update_ms == stamp(old(state).last_update_ms, now_ms),
        old(state).coherent() ==> final(state).coherent(),
{
    state.input_voltage_mv = sample.input_voltage_mv;
    state.total_current_ma = sample.raw_total_current_ma;
    state.temperature_mc = sample.temperature_mc;
    let status = classify(
        sample.input_voltage_mv,
        sample.raw_total_current_ma,
        sample.temperature_mc,
        safety,
    );
    if !(state.system_status == SystemStatus::Emergency) {
        state.system_status = status;
    }
    state.last_update_ms = stamp_ms(state.last_update_ms, now_ms);
}

/// Applies one channel telemetry reading (the channel telemetry task),
/// keeping the channel coherent whatever the reading carried: a reading
/// with status `Off` stores zeroed measurements and no fault (a non-zero
/// measurement on an off channel is ill-formed input and is discarded), a
/// reading with status `Fault` stores zeroed measurements and the reported
/// fault cause, a reading with status `On` stores its measurements and no
/// fault. An out-of-range id makes the call a no-op.
pub fn apply_channel_reading(
    state: &mut PdmState,
    channel: u8,
    voltage_mv: i64,
    current_ma: i64,
    status: ChannelStatus,
    fault: Option<ChannelFault>,
    now_ms: u64,
)
    requires
        old(state).wf(),
        -MEASUREMENT_BOUND <= voltage_mv <= MEASUREMENT_BOUND,
        -MEASUREMENT_BOUND <= current_ma <= MEASUREMENT_BOUND,
        status == ChannelStatus::Fault ==> fault is Some,
    ensures
        final(state).wf(),
        (1 <= channel <= 8) ==> {
            let c0 = old(state).channels@[channel - 1];
            let c1 = final(state).channels@[channel - 1];
            &&& c1.ch == c0.ch
            &&& c1.name == c0.name
            &&& c1.status == status
            &&& c1.voltage_mv == (if status == ChannelStatus::On {
                voltage_mv
            } else {
                0
            })
            &&& c1.current_ma == (if status == ChannelStatus::On {
                current_ma
            } else {
                0
            })
            &&& c1.current_limit_ma == c0.current_limit_ma
            &&& c1.fault == (if status == ChannelStatus::Fault {
                fault
            } else {
                Option::<ChannelFault>::None
            })
            &&& c1.coherent()
            &&& c1.last_update_ms == stamp(c0.last_update_ms, now_ms)
            &&& forall|j: int|
                0 <= j < 8 && j != channel - 1 ==> final(state).channels@[j] == old(
                    state,
                ).channels@[j]
            &&& final(state).input_voltage_mv == old(state).input_voltage_mv
            &&& final(state).total_current_ma == old(state).total_current_ma
            &&& final(state).temperature_mc == old(state).temperature_mc
            &&& final(state).system_status == old(state).system_status
            &&& final(state).last_update_ms == stamp(old(state).last_update_ms, now_ms)
        },
        !(1 <= channel <= 8) ==> *final(state) == *old(state),
        old(state).coherent() ==> final(state).coherent(),
{
    if channel >= 1 && channel <= 8 {
        let idx: usize = (channel - 1) as usize;
        let c = &mut state.channels[idx];
        c.status = status;
        match status {
            ChannelStatus::On => {
                c.voltage_mv = voltage_mv;
                c.current_ma = current_ma;
                c.fault = None;
            },
            ChannelStatus::Off => {
                c.voltage_mv = 0;
                c.current_ma = 0;
                c.fault = None;
            },
            ChannelStatus::Fault => {
                c.voltage_mv = 0;
                c.current_ma = 0;
                c.fault = fault;
            },
        }
        c.last_update_ms = stamp_ms(c.last_update_ms, now_ms);
        state.last_update_ms = stamp_ms(state.last_update_ms, now_ms);
    }
}

} // verus!
