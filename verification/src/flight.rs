//! Vehicle-to-cloud telemetry over a Beam-style transport.
//!
//! [`encode_frame`] serializes a [`TelemetryFrame`] into a small fixed
//! little-endian layout, and [`FlightControlBridge`] hands each encoded frame
//! to a [`BeamTransport`].
use vstd::prelude::*;
use vstd::string::*;
use crate::safety::InterlockState;
use crate::wire::{from_le16, from_le32, le16, le32, lemma_le16_round_trip, lemma_le32_round_trip, put_le16, put_le32};

verus! {

/// One telemetry sample sent off-vehicle.
#[derive(Debug, Clone, Copy, PartialEq, Eq, Structural)]
pub struct TelemetryFrame {
    /// Monotonic ECU timestamp (ms).
    pub timestamp_ms: u32,
    /// Vehicle speed in centimetres per second.
    pub speed_cmps: u32,
    /// Current steering command in deci-degrees (signed).
    pub steer_deci_deg: i16,
    /// `true` while the autonomy interlock is armed (actuator authority granted).
    pub autonomy_armed: bool,
    /// A 16-bit free-form event code (e.g. an interlock transition).
    pub event_code: u16,
}

impl TelemetryFrame {
    /// Builds a frame from the core vehicle state plus the interlock state.
    pub fn from_state(
        timestamp_ms: u32,
        speed_cmps: u32,
        steer_deci_deg: i16,
        interlock: InterlockState,
        event_code: u16,
    ) -> (r: Self)
        ensures
            r == (TelemetryFrame {
                timestamp_ms,
                speed_cmps,
                steer_deci_deg,
                autonomy_armed: interlock == InterlockState::Armed,
                event_code,
            }),
    {
        TelemetryFrame {
            timestamp_ms,
            speed_cmps,
            steer_deci_deg,
            autonomy_armed: matches!(interlock, InterlockState::Armed),
            event_code,
        }
    }
}

/// Errors a Beam transport can report.
#[derive(Debug, Clone, Copy, PartialEq, Eq, Structural)]
pub enum BeamError {
    /// The underlying 5G/Beam link is unavailable (out of coverage, detached).
    LinkDown,
    /// The payload exceeded the transport's maximum MTU.
    TooLarge,
    /// A transient send failure; safe to retry.
    Transient,
}

/// The text that describes each transport error.
pub open spec fn beam_error_message(e: BeamError) -> Seq<char> {
    match e {
        BeamError::LinkDown => "beam: link down"@,
        BeamError::TooLarge => "beam: payload too large"@,
        BeamError::Transient => "beam: transient send failure"@,
    }
}

impl BeamError {
    /// Human-readable description of the error.
    pub fn message(&self) -> (r: String)
        ensures
            r@ == beam_error_message(*self),
    {
        match self {
            BeamError::LinkDown => String::from_str("beam: link down"),
            BeamError::TooLarge => String::from_str("beam: payload too large"),
            BeamError::Transient => String::from_str("beam: transient send failure"),
        }
    }
}

/// A transport that carries encoded telemetry payloads off-vehicle.
///
/// Each implementation states, through `sent`, which outcomes a send can have.
pub trait BeamTransport: Sized {
    /// Whether `after` and `r` are a possible outcome of sending `payload`
    /// from this state. By default any outcome is possible.
    open spec fn sent(&self, payload: Seq<u8>, after: Self, r: Result<(), BeamError>) -> bool {
        true
    }

    /// Pushes one encoded telemetry payload. Returns `Err` on transport failure.
    fn send(&mut self, payload: &[u8]) -> (r: Result<(), BeamError>)
        ensures
            old(self).sent(payload@, *final(self), r),
    ;
}

/// Maximum encoded frame size in bytes.
pub const MAX_FRAME_BYTES: usize = 64;

/// Length of the fixed-layout record that follows the frame header.
pub const FRAME_RECORD_LEN: u16 = 13;

/// The two's-complement bits of a steering angle.
pub open spec fn steer_bits(steer: i16) -> u16 {
    steer as u16
}

/// The byte that carries the armed flag.
pub open spec fn flag_byte(armed: bool) -> u8 {
    if armed {
        1
    } else {
        0
    }
}

/// The encoded frame: magic `TPT`, version 1, the record length (13) as
/// 16-bit little-endian, then timestamp, speed, steering, armed flag and event
/// code, all little-endian.
pub open spec fn frame_wire(f: TelemetryFrame) -> Seq<u8> {
    seq![0x54u8, 0x50u8, 0x54u8, 0x01u8] + le16(FRAME_RECORD_LEN) + le32(f.timestamp_ms) + le32(
        f.speed_cmps,
    ) + le16(steer_bits(f.steer_deci_deg)) + seq![flag_byte(f.autonomy_armed)] + le16(
        f.event_code,
    )
}

/// The two's-complement bits of a steering angle.
fn steer_to_bits(steer: i16) -> (r: u16)
    ensures
        r == steer_bits(steer),
{
    steer as u16
}

/// Encodes a telemetry frame into `out` and returns the encoded prefix.
///
/// The bytes of `out` past the encoded prefix are left as they were.
pub fn encode_frame<'a>(frame: &TelemetryFrame, out: &'a mut [u8; MAX_FRAME_BYTES]) -> (r: &'a [u8])
    ensures
        r@ == frame_wire(*frame),
        r@.len() == 19,
        final(out)@ == frame_wire(*frame) + old(out)@.skip(19),
{
    // Magic + version: 'T' 'P' 'T' 0x01, then the little-endian record size.
    out[0] = 0x54u8;
    out[1] = 0x50u8;
    out[2] = 0x54u8;
    out[3] = 0x01u8;
    put_le16(out, 4, FRAME_RECORD_LEN);
    // Fixed-layout record: timestamp, speed, steer, armed flag, event code.
    put_le32(out, 6, frame.timestamp_ms);
    put_le32(out, 10, frame.speed_cmps);
    put_le16(out, 14, steer_to_bits(frame.steer_deci_deg));
    out[16] = if frame.autonomy_armed {
        1u8
    } else {
        0u8
    };
    put_le16(out, 17, frame.event_code);
    assert(out@ =~= frame_wire(*frame) + old(out)@.skip(19));
    &out[0..19]
}

/// The steering angle whose two's-complement bits are `bits`.
pub open spec fn bits_steer(bits: u16) -> i16 {
    bits as i16
}

/// A steering angle survives its two's-complement bits.
pub proof fn lemma_steer_bits_round_trip(steer: i16)
    ensures
        bits_steer(steer_bits(steer)) == steer,
{
    assert((steer as u16) as i16 == steer) by (bit_vector);
}

/// Every field of a frame can be read back from its encoding at the offsets
/// of the documented layout.
pub proof fn lemma_frame_wire_fields(f: TelemetryFrame)
    ensures
        frame_wire(f).len() == 19,
        frame_wire(f).take(4) == seq![0x54u8, 0x50u8, 0x54u8, 0x01u8],
        from_le16(frame_wire(f)[4], frame_wire(f)[5]) == FRAME_RECORD_LEN,
        from_le32(frame_wire(f)[6], frame_wire(f)[7], frame_wire(f)[8], frame_wire(f)[9])
            == f.timestamp_ms,
        from_le32(frame_wire(f)[10], frame_wire(f)[11], frame_wire(f)[12], frame_wire(f)[13])
            == f.speed_cmps,
        bits_steer(from_le16(frame_wire(f)[14], frame_wire(f)[15])) == f.steer_deci_deg,
        frame_wire(f)[16] == flag_byte(f.autonomy_armed),
        from_le16(frame_wire(f)[17], frame_wire(f)[18]) == f.event_code,
{
    let w = frame_wire(f);
    lemma_le16_round_trip(FRAME_RECORD_LEN);
    lemma_le32_round_trip(f.timestamp_ms);
    lemma_le32_round_trip(f.speed_cmps);
    lemma_le16_round_trip(steer_bits(f.steer_deci_deg));
    lemma_le16_round_trip(f.event_code);
    lemma_steer_bits_round_trip(f.steer_deci_deg);
    assert(w.take(4) =~= seq![0x54u8, 0x50u8, 0x54u8, 0x01u8]);
}

/// Publishes telemetry frames over a [`BeamTransport`].
pub struct FlightControlBridge<T: BeamTransport> {
    transport: T,
    buf: [u8; MAX_FRAME_BYTES],
}

impl<T: BeamTransport> FlightControlBridge<T> {
    /// The wrapped transport.
    pub closed spec fn link(&self) -> T {
        self.transport
    }

    /// Wraps a Beam transport as a telemetry bridge.
    pub fn new(transport: T) -> (r: Self)
        ensures
            r.link() == transport,
    {
        FlightControlBridge { transport, buf: [0u8; MAX_FRAME_BYTES] }
    }

    /// Encodes and transmits a single telemetry frame: the transport is handed
    /// exactly the encoded frame, and its answer is returned.
    pub fn publish(&mut self, frame: &TelemetryFrame) -> (r: Result<(), BeamError>)
        ensures
            old(self).link().sent(frame_wire(*frame), final(self).link(), r),
    {
        let payload = encode_frame(frame, &mut self.buf);
        self.transport.send(payload)
    }

    /// Returns a reference to the underlying transport.
    pub fn transport(&self) -> (r: &T)
        ensures
            *r == self.link(),
    {
        &self.transport
    }

    /// Returns a mutable reference to the underlying transport.
    pub fn transport_mut(&mut self) -> (r: &mut T)
        ensures
            *r == old(self).link(),
            final(self).link() == *final(r),
    {
        &mut self.transport
    }
}

} // verus!
