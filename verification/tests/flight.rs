use tpt_chassis::flight::{
    encode_frame, BeamError, BeamTransport, FlightControlBridge, TelemetryFrame, MAX_FRAME_BYTES,
};
use tpt_chassis::safety::InterlockState;

/// A recording transport used to assert what the bridge emits.
struct Sink {
    last: [u8; MAX_FRAME_BYTES],
    len: usize,
}

impl Default for Sink {
    fn default() -> Self {
        Sink {
            last: [0u8; MAX_FRAME_BYTES],
            len: 0,
        }
    }
}

impl BeamTransport for Sink {
    fn send(&mut self, payload: &[u8]) -> Result<(), BeamError> {
        self.len = payload.len().min(MAX_FRAME_BYTES);
        self.last[..self.len].copy_from_slice(&payload[..self.len]);
        Ok(())
    }
}

#[test]
fn encode_round_trips_layout() {
    let frame = TelemetryFrame::from_state(1_234, 5_600, -45, InterlockState::Armed, 0xA001);
    let mut buf = [0u8; MAX_FRAME_BYTES];
    let wire = encode_frame(&frame, &mut buf);
    // Header: magic "TPT" + version 0x01, then 2-byte little-endian payload size.
    assert_eq!(&wire[..3], b"TPT");
    assert_eq!(wire[3], 0x01);
    assert_eq!(u16::from_le_bytes([wire[4], wire[5]]), 13);
    // Payload: timestamp(4) + speed(4) + steer(2) + armed(1) + event(2) = 13 bytes.
    assert_eq!(wire.len(), 6 + 13);
    assert_eq!(u32::from_le_bytes(wire[6..10].try_into().unwrap()), 1_234);
    assert_eq!(u32::from_le_bytes(wire[10..14].try_into().unwrap()), 5_600);
    assert_eq!(i16::from_le_bytes(wire[14..16].try_into().unwrap()), -45);
    assert_eq!(wire[16], 1);
    assert_eq!(u16::from_le_bytes(wire[17..19].try_into().unwrap()), 0xA001);
}

#[test]
fn bridge_publishes_well_formed_payload() {
    let mut bridge = FlightControlBridge::new(Sink::default());
    let frame = TelemetryFrame::from_state(9, 100, 7, InterlockState::Disarmed, 0);
    assert_eq!(bridge.publish(&frame), Ok(()));
}

#[test]
fn bridge_hands_transport_the_encoded_frame() {
    let mut bridge = FlightControlBridge::new(Sink::default());
    let frame = TelemetryFrame::from_state(0x0102_0304, 0x0A0B_0C0D, 0x1234, InterlockState::Disarmed, 0xBEEF);
    bridge.publish(&frame).unwrap();
    let sink = bridge.transport();
    assert_eq!(sink.len, 19);
    assert_eq!(
        &sink.last[..19],
        &[
            0x54, 0x50, 0x54, 0x01, 13, 0, 0x04, 0x03, 0x02, 0x01, 0x0D, 0x0C, 0x0B, 0x0A, 0x34,
            0x12, 0, 0xEF, 0xBE
        ]
    );
    bridge.transport_mut().len = 0;
    assert_eq!(bridge.transport().len, 0);
}

#[test]
fn encode_leaves_tail_of_buffer() {
    let frame = TelemetryFrame::from_state(1, 2, -1, InterlockState::Armed, 3);
    assert!(frame.autonomy_armed);
    let mut buf = [0xAAu8; MAX_FRAME_BYTES];
    let n = encode_frame(&frame, &mut buf).len();
    assert_eq!(n, 19);
    assert_eq!(&buf[14..16], &[0xFF, 0xFF]);
    assert!(buf[19..].iter().all(|b| *b == 0xAA));
}

#[test]
fn beam_error_messages() {
    assert_eq!(BeamError::LinkDown.message(), "beam: link down");
    assert_eq!(BeamError::TooLarge.message(), "beam: payload too large");
    assert_eq!(BeamError::Transient.message(), "beam: transient send failure");
}
