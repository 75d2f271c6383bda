//! Autonomous driving interface.
//!
//! A self-driving stack implements [`AutonomyStack`]: the chassis feeds it
//! sensor samples through `ingest` and pulls control commands from
//! `next_command`. [`LaneKeepingStack`] is a proportional lane-keeper that
//! exercises the interface end to end without hardware.
use vstd::prelude::*;
use crate::error::Error;

verus! {

/// A timestamp in milliseconds since a monotonically increasing epoch.
pub type TimestampMs = u32;

/// Kinds of sensor feeding the autonomy stack.
#[derive(Debug, Clone, Copy, PartialEq, Eq, Structural)]
#[non_exhaustive]
pub enum SensorKind {
    /// Forward-facing camera.
    Camera,
    /// LiDAR point cloud summary.
    Lidar,
    /// Radar object track.
    Radar,
    /// GNSS / GPS fix.
    Gps,
    /// Wheel speed / odometry.
    Odometry,
}

/// A single sensor sample handed to the autonomy stack.
///
/// `value` is sensor-specific: for a lane-center offset it is the signed
/// lateral offset in centimeters (positive = right of center).
#[derive(Debug, Clone, Copy, PartialEq, Eq, Structural)]
pub struct SensorSample {
    /// Which sensor produced the sample.
    pub kind: SensorKind,
    /// Sample timestamp.
    pub timestamp: TimestampMs,
    /// Sensor-specific signed value.
    pub value: i32,
}

/// A vehicle control command produced by the autonomy stack.
///
/// Steering is a signed angle in deci-degrees (-300..=300); throttle and brake
/// are percentages (0..=100).
#[derive(Debug, Clone, Copy, PartialEq, Eq, Structural)]
pub struct ControlCommand {
    /// Desired steering angle, deci-degrees (positive = right).
    pub steer_deci_deg: i16,
    /// Throttle command, percent (0..=100).
    pub throttle_pct: u8,
    /// Brake command, percent (0..=100).
    pub brake_pct: u8,
    /// Sample timestamp the command is based on.
    pub timestamp: TimestampMs,
}

/// `steer` brought into the actuator range -300..=300.
pub open spec fn clamped_steer(steer: int) -> int {
    if steer < -300 {
        -300
    } else if steer > 300 {
        300
    } else {
        steer
    }
}

/// A percentage capped at 100.
pub open spec fn capped_pct(pct: u8) -> u8 {
    if pct > 100 {
        100
    } else {
        pct
    }
}

/// The command `ControlCommand::new` builds from its arguments.
pub open spec fn command_of(steer: i16, throttle: u8, brake: u8, timestamp: u32) -> ControlCommand {
    ControlCommand {
        steer_deci_deg: clamped_steer(steer as int) as i16,
        throttle_pct: capped_pct(throttle),
        brake_pct: capped_pct(brake),
        timestamp,
    }
}

/// Every actuator value of `c` lies in its documented range.
pub open spec fn command_in_range(c: ControlCommand) -> bool {
    &&& -300 <= c.steer_deci_deg <= 300
    &&& c.throttle_pct <= 100
    &&& c.brake_pct <= 100
}

impl ControlCommand {
    /// Maximum steering magnitude in deci-degrees (±30.0°).
    pub const MAX_STEER: i16 = 300;

    /// Clamps the steering value into the valid range.
    pub fn clamp_steer(steer: i16) -> (r: i16)
        ensures
            r as int == clamped_steer(steer as int),
    {
        if steer < -Self::MAX_STEER {
            -Self::MAX_STEER
        } else if steer > Self::MAX_STEER {
            Self::MAX_STEER
        } else {
            steer
        }
    }

    /// Constructs a command, clamping steering and bounding throttle/brake.
    pub fn new(steer_deci_deg: i16, throttle_pct: u8, brake_pct: u8, timestamp: TimestampMs) -> (r:
        ControlCommand)
        ensures
            r == command_of(steer_deci_deg, throttle_pct, brake_pct, timestamp),
            command_in_range(r),
    {
        let throttle = if throttle_pct > 100 {
            100
        } else {
            throttle_pct
        };
        let brake = if brake_pct > 100 {
            100
        } else {
            brake_pct
        };
        ControlCommand {
            steer_deci_deg: Self::clamp_steer(steer_deci_deg),
            throttle_pct: throttle,
            brake_pct: brake,
            timestamp,
        }
    }
}

/// A snapshot of vehicle state the stack may use for context.
#[derive(Debug, Clone, Copy, PartialEq, Eq, Structural)]
pub struct VehicleState {
    /// Current speed in centimeters per second.
    pub speed_cmps: u32,
    /// Current timestamp.
    pub timestamp: TimestampMs,
}

/// Errors from an autonomy stack integration.
#[derive(Debug, Clone, Copy, PartialEq, Eq, Structural)]
#[non_exhaustive]
pub enum AutonomyError {
    /// A generic core error.
    Core(Error),
    /// The stack's input buffer is full.
    InputFull,
    /// The sensor sample was malformed or out of range.
    InvalidSample,
    /// The stack is not in a state to emit commands.
    NotReady,
}

impl From<Error> for AutonomyError {
    fn from(e: Error) -> (r: AutonomyError)
        ensures
            r == AutonomyError::Core(e),
    {
        AutonomyError::Core(e)
    }
}

impl vstd::std_specs::convert::FromSpecImpl<Error> for AutonomyError {
    open spec fn obeys_from_spec() -> bool {
        true
    }

    open spec fn from_spec(e: Error) -> AutonomyError {
        AutonomyError::Core(e)
    }
}

/// The autonomy plugin contract.
///
/// The chassis feeds the stack sensor samples and periodically pulls the
/// resulting control command to send to the actuators. Each implementation
/// describes its behaviour through the specification functions below.
pub trait AutonomyStack: Sized {
    /// Whether the stack currently holds control.
    spec fn holds_control(&self) -> bool;

    /// The states for which the stack can compute its next command.
    spec fn accepts_state(&self, state: VehicleState) -> bool;

    /// What `ingest` returns for `sample`.
    spec fn ingest_result(&self, sample: SensorSample) -> Result<(), AutonomyError>;

    /// The stack after ingesting `sample`.
    spec fn after_ingest(&self, sample: SensorSample) -> Self;

    /// What `next_command` returns for `state`.
    spec fn command(&self, state: VehicleState) -> Result<Option<ControlCommand>, AutonomyError>;

    /// The stack after producing its command for `state`.
    spec fn after_command(&self, state: VehicleState) -> Self;

    /// Ingests one sensor sample.
    fn ingest(&mut self, sample: SensorSample) -> (r: Result<(), AutonomyError>)
        ensures
            r == old(self).ingest_result(sample),
            *final(self) == old(self).after_ingest(sample),
    ;

    /// Produces the next control command, if the stack has one ready.
    ///
    /// A stack may return `None` when it has not yet received enough data or
    /// has deliberately relinquished control (e.g. safe stop).
    fn next_command(&mut self, state: VehicleState) -> (r: Result<
        Option<ControlCommand>,
        AutonomyError,
    >)
        requires
            old(self).accepts_state(state),
        ensures
            r == old(self).command(state),
            *final(self) == old(self).after_command(state),
    ;

    /// Returns `true` if the stack currently holds control.
    fn has_control(&self) -> (r: bool)
        ensures
            r == self.holds_control(),
    ;
}

/// Maximum number of pending sensor samples buffered inside a stack.
pub const AUTONOMY_SAMPLE_BUFFER: usize = 16;

/// The state of a [`LaneKeepingStack`].
pub struct LaneKeeper {
    /// Most recent lane-center offset in centimeters, once one was seen.
    pub offset_cm: Option<i32>,
    /// Timestamp of that sample.
    pub timestamp: u32,
    /// Whether a lateral sample has been ingested.
    pub ready: bool,
    /// Steering deci-degrees per centimeter of offset.
    pub gain: i16,
    /// Target cruise speed in cm/s.
    pub cruise_cmps: u32,
}

/// Whether a sample informs lane keeping (only lateral perception does).
pub open spec fn is_lateral(kind: SensorKind) -> bool {
    kind == SensorKind::Camera || kind == SensorKind::Lidar
}

/// Steering for an offset: proportional to it, then clamped to the actuator
/// range.
pub open spec fn lane_steer(offset: i32, gain: i16) -> int {
    clamped_steer(offset * gain)
}

/// Throttle for cruising: the speed deficit as a percentage of cruise speed.
pub open spec fn lane_throttle(cruise: u32, speed: u32) -> int {
    if speed < cruise {
        ((cruise - speed) * 100) / (cruise as int)
    } else {
        0
    }
}

/// The lane keeper after ingesting `sample`.
pub open spec fn lane_ingest(m: LaneKeeper, sample: SensorSample) -> LaneKeeper {
    if is_lateral(sample.kind) {
        LaneKeeper {
            offset_cm: Some(sample.value),
            timestamp: sample.timestamp,
            ready: true,
            ..m
        }
    } else {
        m
    }
}

/// The command for an offset, a gain, a throttle and a timestamp.
pub open spec fn lane_output(offset: i32, gain: i16, throttle: int, timestamp: u32) -> ControlCommand {
    command_of(lane_steer(offset, gain) as i16, throttle as u8, 0, timestamp)
}

/// The command the lane keeper issues in `state`.
pub open spec fn lane_command(m: LaneKeeper, state: VehicleState) -> Option<ControlCommand> {
    match m.offset_cm {
        Some(offset) if m.ready => Some(
            lane_output(
                offset,
                m.gain,
                lane_throttle(m.cruise_cmps, state.speed_cmps),
                m.timestamp,
            ),
        ),
        _ => None,
    }
}

/// The states in which the cruise arithmetic stays within `u32`.
pub open spec fn lane_accepts(m: LaneKeeper, state: VehicleState) -> bool {
    m.offset_cm is Some && m.ready && state.speed_cmps < m.cruise_cmps ==> (m.cruise_cmps
        - state.speed_cmps) * 100 <= u32::MAX
}

/// A reference self-driving stack: a proportional lane-keeper.
///
/// It tracks the most recent lane-center offset sample (in centimeters) and
/// commands steering proportional to that offset, adding throttle while the
/// vehicle is slower than the cruise speed.
pub struct LaneKeepingStack {
    last_offset_cm: Option<i32>,
    last_timestamp: TimestampMs,
    ready: bool,
    gain: i16,
    cruise_cmps: u32,
}

impl View for LaneKeepingStack {
    type V = LaneKeeper;

    closed spec fn view(&self) -> LaneKeeper {
        LaneKeeper {
            offset_cm: self.last_offset_cm,
            timestamp: self.last_timestamp,
            ready: self.ready,
            gain: self.gain,
            cruise_cmps: self.cruise_cmps,
        }
    }
}

impl LaneKeepingStack {
    /// Creates a lane-keeping stack with the given gain and cruise speed.
    pub fn new(gain: i16, cruise_cmps: u32) -> (r: Self)
        ensures
            r@ == (LaneKeeper { offset_cm: None, timestamp: 0, ready: false, gain, cruise_cmps }),
    {
        LaneKeepingStack { last_offset_cm: None, last_timestamp: 0, ready: false, gain, cruise_cmps }
    }
}

/// The quotient `d * 100 / c` is a percentage when `d <= c`.
proof fn lemma_deficit_percentage(d: int, c: int)
    requires
        0 < d <= c,
    ensures
        0 <= (d * 100) / c <= 100,
{
    assert(d * 100 <= c * 100) by (nonlinear_arith)
        requires
            d <= c,
            0 < d,
    ;
    assert((d * 100) / c <= 100) by (nonlinear_arith)
        requires
            d * 100 <= c * 100,
            c > 0,
    ;
    assert(0 <= (d * 100) / c) by (nonlinear_arith)
        requires
            d > 0,
            c > 0,
    ;
}

/// `offset * gain`, clamped to the actuator range.
fn proportional_steer(offset: i32, gain: i16) -> (r: i16)
    ensures
        r as int == lane_steer(offset, gain),
{
    assert(-0x4000_0000_0000 <= offset * gain <= 0x4000_0000_0000) by (nonlinear_arith);
    let product: i64 = offset as i64 * (gain as i64);
    if product < -300 {
        -300
    } else if product > 300 {
        300
    } else {
        product as i16
    }
}

/// The speed deficit as a percentage of the target speed, or 0 at or above it.
fn cruise_throttle(target: u32, speed: u32) -> (r: u8)
    requires
        speed < target ==> (target - speed) * 100 <= u32::MAX,
    ensures
        r as int == lane_throttle(target, speed),
        r <= 100,
{
    if speed < target {
        let deficit = target - speed;
        proof {
            lemma_deficit_percentage(deficit as int, target as int);
        }
        ((deficit * 100) / target) as u8
    } else {
        0
    }
}

impl AutonomyStack for LaneKeepingStack {
    open spec fn holds_control(&self) -> bool {
        self@.ready && self@.offset_cm is Some
    }

    open spec fn accepts_state(&self, state: VehicleState) -> bool {
        lane_accepts(self@, state)
    }

    open spec fn ingest_result(&self, sample: SensorSample) -> Result<(), AutonomyError> {
        Ok(())
    }

    closed spec fn after_ingest(&self, sample: SensorSample) -> Self {
        if is_lateral(sample.kind) {
            LaneKeepingStack {
                last_offset_cm: Some(sample.value),
                last_timestamp: sample.timestamp,
                ready: true,
                ..*self
            }
        } else {
            *self
        }
    }

    open spec fn command(&self, state: VehicleState) -> Result<Option<ControlCommand>, AutonomyError> {
        Ok(lane_command(self@, state))
    }

    open spec fn after_command(&self, state: VehicleState) -> Self {
        *self
    }

    fn ingest(&mut self, sample: SensorSample) -> (r: Result<(), AutonomyError>)
        ensures
            final(self)@ == lane_ingest(old(self)@, sample),
    {
        if sample.kind != SensorKind::Camera && sample.kind != SensorKind::Lidar {
            // Only lateral-perception sensors inform lane keeping.
            return Ok(());
        }
        self.last_offset_cm = Some(sample.value);
        self.last_timestamp = sample.timestamp;
        self.ready = true;
        Ok(())
    }

    fn next_command(&mut self, state: VehicleState) -> (r: Result<
        Option<ControlCommand>,
        AutonomyError,
    >) {
        let offset = match self.last_offset_cm {
            Some(o) => o,
            None => return Ok(None),
        };
        if !self.ready {
            return Ok(None);
        }
        // Steering proportional to offset; positive offset (right) steers right.
        let steer = proportional_steer(offset, self.gain);
        // Simple cruise: add throttle if below target speed, else coast.
        let throttle = cruise_throttle(self.cruise_cmps, state.speed_cmps);
        Ok(Some(ControlCommand::new(steer, throttle, 0, self.last_timestamp)))
    }

    fn has_control(&self) -> (r: bool) {
        self.ready && self.last_offset_cm.is_some()
    }
}

/// Every command the lane keeper issues lies within the actuator ranges, and
/// it never brakes.
pub proof fn lemma_lane_command_in_range(m: LaneKeeper, state: VehicleState)
    ensures
        lane_command(m, state) matches Some(c) ==> command_in_range(c) && c.brake_pct == 0,
{
}

/// With a positive gain, the lane keeper steers toward the lane center: right
/// for a positive offset, left for a negative one, and straight when centered.
pub proof fn lemma_lane_steers_toward_center(offset: i32, gain: i16)
    requires
        gain > 0,
    ensures
        offset > 0 ==> lane_steer(offset, gain) > 0,
        offset < 0 ==> lane_steer(offset, gain) < 0,
        offset == 0 ==> lane_steer(offset, gain) == 0,
{
    assert(offset > 0 ==> offset * gain > 0) by (nonlinear_arith)
        requires
            gain > 0,
    ;
    assert(offset < 0 ==> offset * gain < 0) by (nonlinear_arith)
        requires
            gain > 0,
    ;
}

/// `d * 100 / c` is the percentage `d` is of `c`, rounded down, and stays a
/// percentage through the command's throttle bound.
proof fn lemma_floor_percentage(d: int, c: u32)
    requires
        0 < d <= c,
    ensures
        ((d * 100) / (c as int)) * c <= d * 100 < ((d * 100) / (c as int) + 1) * c,
        capped_pct(((d * 100) / (c as int)) as u8) == (d * 100) / (c as int),
{
    let t = (d * 100) / (c as int);
    lemma_deficit_percentage(d, c as int);
    assert(t * c <= d * 100 < (t + 1) * c) by (nonlinear_arith)
        requires
            c > 0,
            t == (d * 100) / (c as int),
    ;
}

/// Cruise throttle is the speed deficit as a percentage of the cruise speed,
/// rounded down: below cruise speed the commanded throttle `t` satisfies
/// `t * cruise <= (cruise - speed) * 100 < (t + 1) * cruise`, so scaling the
/// cruise speed and the vehicle speed together leaves it unchanged; at or above
/// cruise speed there is no throttle. A lane keeper that has seen a lateral
/// sample always issues a command.
pub proof fn lemma_lane_throttle_is_deficit_percentage(s: LaneKeepingStack, state: VehicleState)
    ensures
        s@.offset_cm is Some && s@.ready ==> s.command(state) matches Ok(Some(_)),
        s.command(state) matches Ok(Some(c)) ==> {
            &&& state.speed_cmps < s@.cruise_cmps ==> c.throttle_pct * s@.cruise_cmps <= (s@.cruise_cmps
                - state.speed_cmps) * 100 < (c.throttle_pct + 1) * s@.cruise_cmps
            &&& state.speed_cmps >= s@.cruise_cmps ==> c.throttle_pct == 0
        },
{
    if state.speed_cmps < s@.cruise_cmps {
        lemma_floor_percentage(s@.cruise_cmps - state.speed_cmps, s@.cruise_cmps);
    }
}

} // verus!
