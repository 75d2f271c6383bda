use tpt_chassis::bus::{BusError, Frame, VehicleBus};
use tpt_chassis::someip::{
    validate_message, SomeIpBus, SomeIpHeader, SomeIpMessage, SomeIpMessageId,
    SomeIpMessageType, SomeIpRequestId, SomeIpReturnCode, SomeIpTransceiver,
    SOMEIP_HEADER_LEN, SOMEIP_MAX_PAYLOAD,
};
use tpt_chassis::Error;

fn sample_header() -> SomeIpHeader {
    SomeIpHeader {
        message_id: SomeIpMessageId {
            service: 0x1234,
            method: 0x0001,
        },
        request_id: SomeIpRequestId {
            client: 0xAB,
            session: 0x0001,
        },
        interface_version: 0x01,
        message_type: SomeIpMessageType::Request,
        return_code: SomeIpReturnCode::EOk,
    }
}

#[test]
fn message_type_round_trips() {
    for mt in [
        SomeIpMessageType::Request,
        SomeIpMessageType::RequestNoReturn,
        SomeIpMessageType::Notification,
        SomeIpMessageType::Response,
        SomeIpMessageType::Error,
    ] {
        assert_eq!(SomeIpMessageType::from_u8(mt.to_u8()), Some(mt));
    }
}

#[test]
fn return_code_round_trips() {
    for rc in [
        SomeIpReturnCode::EOk,
        SomeIpReturnCode::NotOk,
        SomeIpReturnCode::WrongProtocolVersion,
    ] {
        assert_eq!(SomeIpReturnCode::from_u8(rc.to_u8()), Some(rc));
    }
}

#[test]
fn header_encode_decode_round_trips() {
    let h = sample_header();
    let mut buf = [0u8; SOMEIP_HEADER_LEN];
    h.encode(&mut buf).unwrap();
    let decoded = SomeIpHeader::decode(&buf).unwrap();
    assert_eq!(decoded, h);
    assert_eq!(decoded.message_id.to_u32(), 0x1234_0001);
}

#[test]
fn message_encode_decode_round_trips() {
    let h = sample_header();
    let msg = SomeIpMessage::new(h, &[0xDE, 0xAD, 0xBE, 0xEF]).unwrap();
    let mut buf = [0u8; 64];
    let n = msg.encode(&mut buf).unwrap();
    assert_eq!(n, SOMEIP_HEADER_LEN + 4);
    let decoded = SomeIpMessage::decode(&buf[..n]).unwrap();
    assert_eq!(decoded.payload(), &[0xDE, 0xAD, 0xBE, 0xEF]);
    assert_eq!(decoded.header().message_id, h.message_id);
}

#[test]
fn oversize_payload_rejected() {
    let h = sample_header();
    let data = [0u8; SOMEIP_MAX_PAYLOAD + 1];
    assert!(SomeIpMessage::new(h, &data).is_none());
}

#[test]
fn length_field_accounts_for_request_and_header() {
    assert_eq!(SomeIpHeader::length_field(0), 8);
    assert_eq!(SomeIpHeader::length_field(4), 12);
}

#[test]
fn validate_rejects_zero_service_request() {
    let h = SomeIpHeader {
        message_id: SomeIpMessageId {
            service: 0,
            method: 0,
        },
        ..sample_header()
    };
    let msg = SomeIpMessage::new(h, &[]).unwrap();
    assert_eq!(validate_message(&msg), Err(Error::InvalidArgument));
}

#[test]
fn header_wire_layout_is_big_endian() {
    let h = sample_header();
    let mut buf = [0u8; SOMEIP_HEADER_LEN];
    h.encode(&mut buf).unwrap();
    assert_eq!(&buf[0..4], &[0x12, 0x34, 0x00, 0x01]);
    assert_eq!(&buf[8..12], &[0x00, 0xAB, 0x00, 0x01]);
    assert_eq!(&buf[12..16], &[0x01, 0x01, 0x00, 0x00]);
    let mut short = [0u8; SOMEIP_HEADER_LEN - 1];
    assert!(h.encode(&mut short).is_none());
    assert!(SomeIpHeader::decode(&short).is_none());
}

#[test]
fn message_encode_writes_length_field_and_checks_room() {
    let msg = SomeIpMessage::new(sample_header(), &[7, 8, 9]).unwrap();
    let mut buf = [0u8; 19];
    assert_eq!(msg.encode(&mut buf), Some(19));
    assert_eq!(&buf[4..8], &[0, 0, 0, 11]);
    assert_eq!(&buf[16..19], &[7, 8, 9]);
    let mut small = [0u8; 18];
    assert_eq!(msg.encode(&mut small), None);
    assert_eq!(msg.len(), 19);
    // A notification with service 0 is valid; only requests need a service.
    let h = SomeIpHeader {
        message_id: SomeIpMessageId { service: 0, method: 0x8001 },
        message_type: SomeIpMessageType::Notification,
        ..sample_header()
    };
    assert_eq!(validate_message(&SomeIpMessage::new(h, &[]).unwrap()), Ok(()));
}

#[test]
fn ids_pack_into_words() {
    let id = SomeIpMessageId::from_u32(0xBEEF_0042);
    assert_eq!(id.service, 0xBEEF);
    assert_eq!(id.method, 0x0042);
    let rq = SomeIpRequestId { client: 0x0102, session: 0x0304 };
    assert_eq!(rq.to_u32(), 0x0102_0304);
    assert_eq!(SomeIpRequestId::from_u32(0x0102_0304), rq);
    assert_eq!(SomeIpMessageType::from_u8(0x03), None);
    assert_eq!(SomeIpReturnCode::from_u8(0x03), None);
}

struct Recorder {
    last: Option<SomeIpMessage>,
}

impl SomeIpTransceiver for Recorder {
    fn send(&mut self, message: SomeIpMessage) -> Result<(), BusError> {
        self.last = Some(message);
        Ok(())
    }
    fn recv(&mut self) -> Result<SomeIpMessage, BusError> {
        self.last.take().ok_or(BusError::RxQueueEmpty)
    }
    fn has_received(&self) -> bool {
        self.last.is_some()
    }
    fn can_send(&self) -> bool {
        true
    }
}

#[test]
fn someip_bus_forwards_to_transceiver() {
    let mut bus = SomeIpBus::new(Recorder { last: None });
    assert!(!bus.can_receive());
    let msg = SomeIpMessage::new(sample_header(), &[1]).unwrap();
    bus.transmit(msg).unwrap();
    assert!(bus.can_receive());
    assert_eq!(bus.receive().unwrap().payload(), &[1]);
    assert_eq!(bus.receive(), Err(BusError::RxQueueEmpty));
}

#[test]
fn decoding_an_encoded_message_gives_the_same_message() {
    let msg = SomeIpMessage::new(sample_header(), &[1, 2, 3, 4, 5, 6, 7]).unwrap();
    let mut buf = [0xFFu8; 40];
    let n = msg.encode(&mut buf).unwrap();
    // Trailing bytes after the message do not change what is decoded.
    let decoded = SomeIpMessage::decode(&buf).unwrap();
    assert_eq!(n, SOMEIP_HEADER_LEN + 7);
    assert_eq!(decoded, msg);
}
