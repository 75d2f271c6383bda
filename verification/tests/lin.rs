use tpt_chassis::bus::{BusError, VehicleBus};
use tpt_chassis::lin::{validate_frame, LinBus, LinFrame, LinId, LinTransceiver, LIN_MAX_DLC};
use tpt_chassis::Error;

#[test]
fn lin_id_rejects_overflow() {
    assert!(LinId::new(0x40).is_none());
    assert!(LinId::new(0x3F).is_some());
}

#[test]
fn protected_pid_matches_known_values() {
    // P0 = ID0 ^ ID1 ^ ID2 ^ ID4 (bit6), P1 = !(ID1 ^ ID3 ^ ID4 ^ ID5) (bit7).
    assert_eq!(LinId::new(0x00).unwrap().protected(), 0x80);
    assert_eq!(LinId::new(0x01).unwrap().protected(), 0xC1);
    assert_eq!(LinId::new(0x20).unwrap().protected(), 0x20);
}

#[test]
fn checksum_is_inverted_modulo_sum() {
    let id = LinId::new(0x10).unwrap();
    let f = LinFrame::new(id, &[0x01, 0x02, 0x03]).unwrap();
    let mut sum: u16 = 0;
    for b in f.data() {
        sum += *b as u16;
        if sum > 0xFF {
            sum -= 0xFF;
        }
    }
    assert_eq!(f.checksum(), !(sum as u8));
}

#[test]
fn lin_frame_rejects_oversize_payload() {
    let id = LinId::new(0x05).unwrap();
    let data = [0u8; LIN_MAX_DLC + 1];
    assert!(LinFrame::new(id, &data).is_none());
}

#[test]
fn validate_frame_ok() {
    let id = LinId::new(0x02).unwrap();
    assert_eq!(validate_frame(&LinFrame::new(id, &[9]).unwrap()), Ok(()));
}

/// A transceiver that records whether `send` was invoked.
struct CountingTransceiver {
    sent: bool,
}

impl LinTransceiver for CountingTransceiver {
    fn is_master(&self) -> bool {
        true
    }
    fn send(&mut self, _frame: LinFrame) -> Result<(), BusError> {
        self.sent = true;
        Ok(())
    }
    fn recv(&mut self) -> Result<LinFrame, BusError> {
        Err(BusError::RxQueueEmpty)
    }
    fn has_received(&self) -> bool {
        false
    }
    fn can_send(&self) -> bool {
        true
    }
}

#[test]
fn lin_transmit_invalid_frame_errors_before_send() {
    let mut bus = LinBus::new(CountingTransceiver { sent: false });
    let id = LinId::new(0x05).unwrap();
    let f = LinFrame::from_raw(id, [0u8; LIN_MAX_DLC], (LIN_MAX_DLC + 1) as u8);
    assert_eq!(bus.transmit(f), Err(BusError::InvalidFrame));
    assert!(!bus.transceiver().sent);
}

#[test]
fn lin_transmit_valid_frame_reaches_transceiver() {
    let mut bus = LinBus::new(CountingTransceiver { sent: false });
    let id = LinId::new(0x05).unwrap();
    let f = LinFrame::new(id, &[1, 2, 3]).unwrap();
    assert_eq!(bus.transmit(f), Ok(()));
    assert!(bus.transceiver().sent);
}

#[test]
fn checksum_carries_overflow_and_inverts() {
    // 0xFF + 0x02 = 0x101 -> carry folded back: 0x02; inverted: 0xFD.
    let f = LinFrame::new(LinId::new(0x01).unwrap(), &[0xFF, 0x02]).unwrap();
    assert_eq!(f.checksum(), 0xFD);
    let empty = LinFrame::new(LinId::new(0x01).unwrap(), &[]).unwrap();
    assert_eq!(empty.checksum(), 0xFF);
}

#[test]
fn lin_validate_rejects_long_frame_and_reports_master() {
    let id = LinId::new(0x3F).unwrap();
    assert_eq!(id.raw(), 0x3F);
    let f = LinFrame::from_raw(id, [0u8; LIN_MAX_DLC], 9);
    assert_eq!(validate_frame(&f), Err(Error::InvalidArgument));
    let bus = LinBus::new(CountingTransceiver { sent: false });
    assert!(bus.is_master());
}
