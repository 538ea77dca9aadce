//! Data model of the PDM: per-channel state, the aggregate system state, and
//! the pure mutators that keep them consistent.
//!
//! Electrical quantities are fixed-point integers: millivolts, milliamperes,
//! millidegrees Celsius. Power is reported in microwatts. Timestamps are
//! wall-clock milliseconds supplied by the caller; every mutator keeps
//! `last_update_ms` monotonically non-decreasing.

use vstd::prelude::*;

verus! {

/// Upper bound on the magnitude of a stored per-channel measurement, so that
/// sums over the eight channels and scaled comparisons stay inside `i64`.
pub const MEASUREMENT_BOUND: i64 = 1_000_000_000_000;

/// Upper bound on the magnitude of an aggregate (system-level) quantity. It
/// leaves room for the sum of eight channel measurements plus noise, and for
/// the classifier's scaled comparisons, inside `i64`.
pub const SCALAR_BOUND: i64 = 10_000_000_000_000;

/// Default per-channel trip threshold: 15 A.
pub const DEFAULT_CURRENT_LIMIT_MA: i64 = 15_000;

/// Default supply-rail voltage before the first telemetry sample: 12 V.
pub const DEFAULT_INPUT_VOLTAGE_MV: i64 = 12_000;

/// Default board temperature before the first telemetry sample: 25 degrees C.
pub const DEFAULT_TEMPERATURE_MC: i64 = 25_000;

/// Status of a single output channel.
#[derive(Clone, Copy, Debug, PartialEq, Eq, Structural)]
pub enum ChannelStatus {
    On,
    Off,
    Fault,
}

/// Fault condition reported for a channel.
#[derive(Clone, Copy, Debug, PartialEq, Eq, Structural)]
pub enum ChannelFault {
    Overcurrent,
    Overvoltage,
    Undervoltage,
    ShortCircuit,
    OpenLoad,
    Overtemperature,
}

/// System-wide status derived by the safety classifier, or forced to
/// `Emergency` by the emergency-shutdown command path.
#[derive(Clone, Copy, Debug, PartialEq, Eq, Structural)]
pub enum SystemStatus {
    Normal,
    Warning,
    Fault,
    Emergency,
}

/// The timestamp written by a mutation: the wall clock if it moved forward,
/// otherwise the previous stamp, so stamps never decrease.
pub open spec fn stamp(prev_ms: u64, now_ms: u64) -> u64 {
    if now_ms >= prev_ms {
        now_ms
    } else {
        prev_ms
    }
}

/// Executable counterpart of [`stamp`].
pub fn stamp_ms(prev_ms: u64, now_ms: u64) -> (r: u64)
    ensures
        r == stamp(prev_ms, now_ms),
{
    if now_ms >= prev_ms {
        now_ms
    } else {
        prev_ms
    }
}

/// The fixed label of the channel with the given id.
pub open spec fn default_name(id: int) -> Seq<char> {
    if id == 1 {
        "FUEL PUMP"@
    } else if id == 2 {
        "IGNITION"@
    } else if id == 3 {
        "COOLING FAN"@
    } else if id == 4 {
        "HEADLIGHTS"@
    } else if id == 5 {
        "ECU MAIN"@
    } else if id == 6 {
        "SPARE 1"@
    } else if id == 7 {
        "SPARE 2"@
    } else {
        "SPARE 3"@
    }
}

/// Builds the fixed label of the channel with the given id.
pub fn default_channel_name(id: u8) -> (r: String)
    requires
        1 <= id <= 8,
    ensures
        r@ == default_name(id as int),
{
    if id == 1 {
        String::from_str("FUEL PUMP")
    } else if id == 2 {
        String::from_str("IGNITION")
    } else if id == 3 {
        String::from_str("COOLING FAN")
    } else if id == 4 {
        String::from_str("HEADLIGHTS")
    } else if id == 5 {
        String::from_str("ECU MAIN")
    } else if id == 6 {
        String::from_str("SPARE 1")
    } else if id == 7 {
        String::from_str("SPARE 2")
    } else {
        String::from_str("SPARE 3")
    }
}

/// One of the eight switchable outputs.
#[derive(Clone, Debug)]
pub struct Channel {
    /// Channel id, in `1..=8`; immutable after construction.
    pub ch: u8,
    /// Human-readable label; immutable after construction.
    pub name: String,
    /// Most recent voltage measurement, millivolts.
    pub voltage_mv: i64,
    /// Most recent current measurement, milliamperes.
    pub current_ma: i64,
    /// Switch status.
    pub status: ChannelStatus,
    /// Configured trip threshold, milliamperes.
    pub current_limit_ma: i64,
    /// Fault condition; present exactly when `status` is `Fault`.
    pub fault: Option<ChannelFault>,
    /// Wall-clock milliseconds of the last mutation of any field above.
    pub last_update_ms: u64,
}

impl Channel {
    /// Structural well-formedness: id in range, the label fixed by the id,
    /// and all measurements inside the fixed-point representation bounds.
    pub open spec fn wf(self) -> bool {
        &&& 1 <= self.ch <= 8
        &&& self.name@ == default_name(self.ch as int)
        &&& -MEASUREMENT_BOUND <= self.voltage_mv <= MEASUREMENT_BOUND
        &&& -MEASUREMENT_BOUND <= self.current_ma <= MEASUREMENT_BOUND
        &&& 0 <= self.current_limit_ma <= MEASUREMENT_BOUND
    }

    /// Measurement coherence, what a reader may rely on: a fault cause is
    /// recorded exactly when the channel is faulted, and a channel that is
    /// not conducting shows zeroed measurements.
    pub open spec fn coherent(self) -> bool {
        &&& (self.fault is Some <==> self.status == ChannelStatus::Fault)
        &&& (self.status != ChannelStatus::On ==> self.voltage_mv == 0 && self.current_ma == 0)
    }
}

/// A channel as constructed at process start: everything off and zeroed,
/// the default trip threshold, the fixed label for its id.
pub open spec fn fresh_channel(c: Channel, id: int, now_ms: u64) -> bool {
    &&& c.ch == id
    &&& c.name@ == default_name(id)
    &&& c.voltage_mv == 0
    &&& c.current_ma == 0
    &&& c.status == ChannelStatus::Off
    &&& c.current_limit_ma == DEFAULT_CURRENT_LIMIT_MA
    &&& c.fault is None
    &&& c.last_update_ms == now_ms
}

/// Relates a channel to itself after a telemetry write: the three telemetry
/// fields are set as provided, the stamp is refreshed, everything else kept.
pub open spec fn telemetry_written(
    pre: Channel,
    post: Channel,
    voltage_mv: i64,
    current_ma: i64,
    status: ChannelStatus,
    now_ms: u64,
) -> bool {
    &&& post.ch == pre.ch
    &&& post.name == pre.name
    &&& post.voltage_mv == voltage_mv
    &&& post.current_ma == current_ma
    &&& post.status == status
    &&& post.current_limit_ma == pre.current_limit_ma
    &&& post.fault == pre.fault
    &&& post.last_update_ms == stamp(pre.last_update_ms, now_ms)
}

/// Relates a channel to itself after a shutdown write: switched off with
/// zeroed measurements and no fault, the stamp refreshed, the rest kept.
pub open spec fn channel_shut_down(pre: Channel, post: Channel, now_ms: u64) -> bool {
    &&& post.ch == pre.ch
    &&& post.name == pre.name
    &&& post.voltage_mv == 0
    &&& post.current_ma == 0
    &&& post.status == ChannelStatus::Off
    &&& post.current_limit_ma == pre.current_limit_ma
    &&& post.fault is None
    &&& post.last_update_ms == stamp(pre.last_update_ms, now_ms)
}

/// Channel control actions accepted by the command API. The current-limit
/// value is in milliamperes.
#[derive(Clone, Copy, Debug, PartialEq, Eq, Structural)]
pub enum ChannelAction {
    TurnOn,
    TurnOff,
    Toggle,
    SetCurrentLimit(i64),
}

/// API request to control a channel.
#[derive(Clone, Copy, Debug, PartialEq, Eq, Structural)]
pub struct ChannelControlRequest {
    /// Channel id the command addresses.
    pub channel: u8,
    /// Requested action.
    pub action: ChannelAction,
}

/// API request for an emergency shutdown.
#[derive(Clone, Debug)]
pub struct EmergencyShutdownRequest {
    /// Operator-supplied reason, reported back and logged.
    pub reason: String,
}

/// One system telemetry sample as the hardware broker reports it.
#[derive(Clone, Copy, Debug, PartialEq, Eq, Structural)]
pub struct SystemTelemetry {
    /// Supply-rail voltage, millivolts.
    pub input_voltage_mv: i64,
    /// Total current as measured at the input, milliamperes.
    pub raw_total_current_ma: i64,
    /// Board temperature, millidegrees Celsius.
    pub temperature_mc: i64,
}

impl SystemTelemetry {
    /// Every field inside the aggregate fixed-point bounds.
    pub open spec fn wf(self) -> bool {
        &&& -SCALAR_BOUND <= self.input_voltage_mv <= SCALAR_BOUND
        &&& -SCALAR_BOUND <= self.raw_total_current_ma <= SCALAR_BOUND
        &&& -SCALAR_BOUND <= self.temperature_mc <= SCALAR_BOUND
    }
}

/// Commands of the hardware wire contract; concrete framing is the
/// transport's business.
#[derive(Clone, Copy, Debug, PartialEq, Eq, Structural)]
pub enum HardwareMessage {
    ChannelControl { channel: u8, enable: bool },
    SetCurrentLimit { channel: u8, limit_ma: i64 },
    EmergencyShutdown,
    RequestStatus,
}

/// Responses of the hardware wire contract.
#[derive(Clone, Debug)]
pub enum HardwareResponse {
    ChannelStatus {
        channel: u8,
        voltage_mv: i64,
        current_ma: i64,
        status: ChannelStatus,
        fault: Option<ChannelFault>,
    },
    SystemStatus { input_voltage_mv: i64, temperature_mc: i64, total_current_ma: i64 },
    CommandAck { success: bool, message: String },
}

/// The aggregate PDM state: the single source of truth that the control
/// kernel mutates and the API surface reads.
#[derive(Clone, Debug)]
pub struct PdmState {
    /// The eight channels; the channel with id `i` is at index `i - 1`.
    pub channels: Vec<Channel>,
    /// Supply-rail voltage, millivolts.
    pub input_voltage_mv: i64,
    /// Sum (with measurement noise) of current over conducting channels,
    /// milliamperes.
    pub total_current_ma: i64,
    /// Board temperature, millidegrees Celsius.
    pub temperature_mc: i64,
    /// System-wide status.
    pub system_status: SystemStatus,
    /// Wall-clock milliseconds of the last mutation of any field.
    pub last_update_ms: u64,
}

impl PdmState {
    /// Structural well-formedness: exactly eight well-formed channels, the
    /// channel with id `i` at index `i - 1`, and aggregate quantities inside
    /// the fixed-point representation bounds.
    pub open spec fn wf(self) -> bool {
        &&& self.channels@.len() == 8
        &&& forall|i: int|
            0 <= i < 8 ==> (#[trigger] self.channels@[i]).wf() && self.channels@[i].ch == i + 1
        &&& -SCALAR_BOUND <= self.input_voltage_mv <= SCALAR_BOUND
        &&& -SCALAR_BOUND <= self.total_current_ma <= SCALAR_BOUND
        &&& -SCALAR_BOUND <= self.temperature_mc <= SCALAR_BOUND
    }

    /// Every channel is measurement-coherent; what a reader holding the
    /// shared lock may rely on after any kernel mutation.
    pub open spec fn coherent(self) -> bool {
        forall|i: int| 0 <= i < self.channels@.len() ==> (#[trigger] self.channels@[i]).coherent()
    }

    /// Sum of `current_ma` over the channels whose status is `On`.
    pub open spec fn on_current_sum(channels: Seq<Channel>) -> int
        decreases channels.len(),
    {
        if channels.len() == 0 {
            0
        } else {
            Self::on_current_sum(channels.drop_last()) + if channels.last().status
                == ChannelStatus::On {
                channels.last().current_ma as int
            } else {
                0
            }
        }
    }

    /// Constructs the cold-start state: the eight named channels all off and
    /// zeroed, aggregate fields at their defaults, status `Normal`.
    pub fn new(now_ms: u64) -> (s: PdmState)
        ensures
            s.wf(),
            s.coherent(),
            forall|i: int| 0 <= i < 8 ==> fresh_channel(#[trigger] s.channels@[i], i + 1, now_ms),
            s.input_voltage_mv == DEFAULT_INPUT_VOLTAGE_MV,
            s.total_current_ma == 0,
            s.temperature_mc == DEFAULT_TEMPERATURE_MC,
            s.system_status == SystemStatus::Normal,
            s.last_update_ms == now_ms,
    {
        let mut channels: Vec<Channel> = Vec::new();
        let mut id: u8 = 1;
        while id <= 8
            invariant
                1 <= id <= 9,
                channels@.len() == id - 1,
                forall|j: int| 0 <= j < id - 1 ==> fresh_channel(#[trigger] channels@[j], j + 1, now_ms),
            decreases 9 - id,
        {
            let name = default_channel_name(id);
            channels.push(
                Channel {
                    ch: id,
                    name,
                    voltage_mv: 0,
                    current_ma: 0,
                    status: ChannelStatus::Off,
                    current_limit_ma: DEFAULT_CURRENT_LIMIT_MA,
                    fault: None,
                    last_update_ms: now_ms,
                },
            );
            id = id + 1;
        }
        PdmState {
            channels,
            input_voltage_mv: DEFAULT_INPUT_VOLTAGE_MV,
            total_current_ma: 0,
            temperature_mc: DEFAULT_TEMPERATURE_MC,
            system_status: SystemStatus::Normal,
            last_update_ms: now_ms,
        }
    }

    /// Looks a channel up by id; `None` exactly when the id is out of range.
    pub fn get_channel(&self, channel: u8) -> (r: Option<&Channel>)
        requires
            self.wf(),
        ensures
            (1 <= channel <= 8) ==> (r matches Some(c) && *c == self.channels@[channel - 1]),
            !(1 <= channel <= 8) ==> r is None,
    {
        if channel >= 1 && channel <= 8 {
            Some(&self.channels[(channel - 1) as usize])
        } else {
            None
        }
    }

    /// Writes a telemetry reading into one channel: voltage, current and
    /// status are set exactly as provided and the stamps are refreshed. An
    /// out-of-range id makes the call a no-op; the caller is expected to
    /// validate.
    pub fn update_channel(
        &mut self,
        channel: u8,
        voltage_mv: i64,
        current_ma: i64,
        status: ChannelStatus,
        now_ms: u64,
    )
        requires
            old(self).wf(),
            -MEASUREMENT_BOUND <= voltage_mv <= MEASUREMENT_BOUND,
            -MEASUREMENT_BOUND <= current_ma <= MEASUREMENT_BOUND,
        ensures
            final(self).wf(),
            (1 <= channel <= 8) ==> {
                &&& telemetry_written(
                    old(self).channels@[channel - 1],
                    final(self).channels@[channel - 1],
                    voltage_mv,
                    current_ma,
                    status,
                    now_ms,
                )
                &&& forall|j: int|
                    0 <= j < 8 && j != channel - 1 ==> final(self).channels@[j] == old(
                        self,
                    ).channels@[j]
                &&& final(self).input_voltage_mv == old(self).input_voltage_mv
                &&& final(self).total_current_ma == old(self).total_current_ma
                &&& final(self).temperature_mc == old(self).temperature_mc
                &&& final(self).system_status == old(self).system_status
                &&& final(self).last_update_ms == stamp(old(self).last_update_ms, now_ms)
            },
            !(1 <= channel <= 8) ==> *final(self) == *old(self),
            final(self).last_update_ms >= old(self).last_update_ms,
    {
        if channel >= 1 && channel <= 8 {
            let idx: usize = (channel - 1) as usize;
            let c = &mut self.channels[idx];
            c.voltage_mv = voltage_mv;
            c.current_ma = current_ma;
            c.status = status;
            c.last_update_ms = stamp_ms(c.last_update_ms, now_ms);
            self.last_update_ms = stamp_ms(self.last_update_ms, now_ms);
        }
    }

    /// Forces every channel off with zeroed measurements and no fault, and
    /// zeroes the total current. Does not touch `system_status`: deriving
    /// the system status is the safety classifier's and the command
    /// pipeline's responsibility.
    pub fn emergency_shutdown(&mut self, now_ms: u64)
        requires
            old(self).wf(),
        ensures
            final(self).wf(),
            final(self).coherent(),
            forall|i: int|
                0 <= i < 8 ==> channel_shut_down(
                    old(self).channels@[i],
                    #[trigger] final(self).channels@[i],
                    now_ms,
                ),
            final(self).total_current_ma == 0,
            final(self).input_voltage_mv == old(self).input_voltage_mv,
            final(self).temperature_mc == old(self).temperature_mc,
            final(self).system_status == old(self).system_status,
            final(self).last_update_ms == stamp(old(self).last_update_ms, now_ms),
            final(self).last_update_ms >= old(self).last_update_ms,
    {
        let mut idx: usize = 0;
        while idx < 8
            invariant
                old(self).wf(),
                idx <= 8,
                self.channels@.len() == 8,
                forall|j: int|
                    0 <= j < idx ==> channel_shut_down(
                        old(self).channels@[j],
                        #[trigger] self.channels@[j],
                        now_ms,
                    ),
                forall|j: int| idx <= j < 8 ==> self.channels@[j] == old(self).channels@[j],
                self.input_voltage_mv == old(self).input_voltage_mv,
                self.total_current_ma == old(self).total_current_ma,
                self.temperature_mc == old(self).temperature_mc,
                self.system_status == old(self).system_status,
                self.last_update_ms == old(self).last_update_ms,
            decreases 8 - idx,
        {
            let c = &mut self.channels[idx];
            c.status = ChannelStatus::Off;
            c.voltage_mv = 0;
            c.current_ma = 0;
            c.fault = None;
            c.last_update_ms = stamp_ms(c.last_update_ms, now_ms);
            idx = idx + 1;
        }
        self.total_current_ma = 0;
        self.last_update_ms = stamp_ms(self.last_update_ms, now_ms);
    }

    /// Sums `current_ma` over the channels whose status is `On`; exactly
    /// [`PdmState::on_current_sum`] of the channel sequence.
    pub fn on_current_sum_ma(&self) -> (r: i64)
        requires
            self.wf(),
        ensures
            r == Self::on_current_sum(self.channels@),
            -8 * MEASUREMENT_BOUND <= r <= 8 * MEASUREMENT_BOUND,
    {
        let mut sum: i64 = 0;
        let mut idx: usize = 0;
        while idx < 8
            invariant
                self.wf(),
                idx <= 8,
                sum == Self::on_current_sum(self.channels@.take(idx as int)),
                -(idx as int) * MEASUREMENT_BOUND <= sum <= (idx as int) * MEASUREMENT_BOUND,
            decreases 8 - idx,
        {
            proof {
                assert(self.channels@.take(idx + 1).drop_last() =~= self.channels@.take(
                    idx as int,
                ));
                assert(self.channels@.take(idx + 1).last() == self.channels@[idx as int]);
            }
            let c = &self.channels[idx];
            if c.status == ChannelStatus::On {
                sum = sum + c.current_ma;
            }
            idx = idx + 1;
        }
        proof {
            assert(self.channels@.take(8) =~= self.channels@);
        }
        sum
    }

    /// Total power drawn from the supply rail, microwatts: exactly
    /// `input_voltage_mv * total_current_ma`.
    pub fn total_power(&self) -> (r: i128)
        ensures
            r == self.input_voltage_mv * self.total_current_ma,
    {
        let v: i128 = self.input_voltage_mv as i128;
        let c: i128 = self.total_current_ma as i128;
        proof {
            assert(i128::MIN <= v * c <= i128::MAX) by (nonlinear_arith)
                requires
                    -0x8000_0000_0000_0000 <= v <= 0x7fff_ffff_ffff_ffff,
                    -0x8000_0000_0000_0000 <= c <= 0x7fff_ffff_ffff_ffff,
            ;
        }
        v * c
    }
}

/// Law: a well-formed state has exactly eight channels, and the channel at
/// index `i` carries id `i + 1` — so the channel set is `{1, …, 8}` in every
/// reachable state, since every constructor and mutator of [`PdmState`]
/// ensures well-formedness.
pub proof fn lemma_channel_set_fixed(s: PdmState)
    requires
        s.wf(),
    ensures
        s.channels@.len() == 8,
        forall|i: int| 0 <= i < 8 ==> (#[trigger] s.channels@[i]).ch == i + 1,
{
}

/// Law: in a coherent state — which every kernel mutation ensures — a reader
/// never observes a channel that is not conducting together with non-zero
/// measurements, nor a fault marker that disagrees with the status.
pub proof fn lemma_coherent_reader_view(s: PdmState, i: int)
    requires
        s.coherent(),
        0 <= i < s.channels@.len(),
    ensures
        s.channels@[i].status != ChannelStatus::On ==> s.channels@[i].voltage_mv == 0
            && s.channels@[i].current_ma == 0,
        s.channels@[i].fault is Some <==> s.channels@[i].status == ChannelStatus::Fault,
{
}

/// API response for a system status query.
#[derive(Clone, Debug)]
pub struct SystemStatusResponse {
    /// Snapshot of the PDM state taken under the shared lock.
    pub pdm_state: PdmState,
    /// Seconds since process start.
    pub uptime_seconds: u64,
    /// Version string of the API.
    pub api_version: String,
}

} // verus!
