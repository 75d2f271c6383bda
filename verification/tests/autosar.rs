use tpt_chassis::autosar::{DioChannel, DioDriver, DioLevel, Signal, SimDio};
use tpt_chassis::Error;

#[test]
fn dio_round_trips() {
    let mut dio = SimDio::new();
    let ch = DioChannel::new(0, 3).unwrap();
    assert_eq!(dio.read_channel(ch).unwrap(), DioLevel::Low);
    dio.write_channel(ch, DioLevel::High).unwrap();
    assert_eq!(dio.read_channel(ch).unwrap(), DioLevel::High);
    assert_eq!(dio.port_word(0) & (1 << 3), 1 << 3);
}

#[test]
fn dio_rejects_bad_pin() {
    assert!(DioChannel::new(0, 32).is_none());
    let mut dio = SimDio::new();
    // Port 16 is out of range for the 16-entry bank.
    assert_eq!(
        dio.write_channel(DioChannel::new(16, 0).unwrap(), DioLevel::High),
        Err(Error::InvalidArgument)
    );
}

#[test]
fn signal_pack_unpack() {
    let s = Signal::new(4, 8).unwrap();
    let packed = s.pack(0, 0xAB).unwrap();
    assert_eq!(s.unpack(packed), 0xAB);
    assert_eq!(packed, 0xAB << 4);
}

#[test]
fn signal_rejects_overflow_value() {
    let s = Signal::new(0, 4).unwrap();
    assert!(s.pack(0, 0x10).is_none()); // 0x10 needs 5 bits
    assert!(s.pack(0, 0x0F).is_some());
}

#[test]
fn signal_layout_validation() {
    assert!(Signal::new(0, 0).is_none());
    assert!(Signal::new(60, 8).is_none());
    assert!(Signal::new(0, 64).is_some());
}

#[test]
fn dio_write_then_read_leaves_other_pins() {
    let mut dio = SimDio::default();
    let a = DioChannel::new(2, 0).unwrap();
    let b = DioChannel::new(2, 31).unwrap();
    dio.write_channel(a, DioLevel::High).unwrap();
    dio.write_channel(b, DioLevel::High).unwrap();
    dio.write_channel(a, DioLevel::Low).unwrap();
    assert_eq!(dio.read_channel(a).unwrap(), DioLevel::Low);
    assert_eq!(dio.read_channel(b).unwrap(), DioLevel::High);
    assert_eq!(dio.port_word(2), 0x8000_0000);
    assert_eq!(dio.read_channel(DioChannel::new(16, 0).unwrap()), Err(Error::InvalidArgument));
}

#[test]
fn signal_pack_preserves_other_bits() {
    let s = Signal::new(8, 4).unwrap();
    let packed = s.pack(0xFFFF_FFFF_FFFF_FFFF, 0x3).unwrap();
    assert_eq!(packed, 0xFFFF_FFFF_FFFF_F3FF);
    assert_eq!(s.unpack(packed), 0x3);
    let full = Signal::new(0, 64).unwrap();
    assert_eq!(full.pack(0, u64::MAX), Some(u64::MAX));
    assert_eq!(full.unpack(0x0123_4567_89AB_CDEF), 0x0123_4567_89AB_CDEF);
}

#[test]
fn dio_level_bool_conversions() {
    assert!(DioLevel::High.as_bool());
    assert!(!DioLevel::Low.as_bool());
    assert_eq!(DioLevel::from_bool(true), DioLevel::High);
    assert_eq!(DioLevel::from_bool(false), DioLevel::Low);
    assert_eq!(DioChannel::new(1, 5).unwrap().bit(), 5);
}
