use tpt_chassis::bus::BusError;
use tpt_chassis::{Error, LICENSE, VERSION};

#[test]
fn version_is_non_empty() {
    assert!(!VERSION.is_empty());
}

#[test]
fn license_identifier_matches_manifest() {
    assert_eq!(LICENSE, "MIT OR Apache-2.0");
}

#[test]
fn error_display_is_readable() {
    let printed = Error::Unsupported.message();
    assert!(printed.len() <= 32);
    assert!(printed.starts_with("operation not supported"));
}

#[test]
fn error_messages_name_each_error() {
    assert_eq!(Error::ResourceExhausted.message(), "resource exhausted");
    assert_eq!(Error::InvalidArgument.message(), "invalid argument");
    assert_eq!(BusError::TxQueueFull.message(), "bus: transmit queue full");
    assert_eq!(BusError::RxQueueEmpty.message(), "bus: receive queue empty");
    assert_eq!(BusError::InvalidFrame.message(), "bus: invalid frame");
    assert_eq!(BusError::BusOff.message(), "bus: bus-off fault state");
    assert_eq!(
        BusError::Core(Error::Unsupported).message(),
        "bus: operation not supported"
    );
    assert_eq!(BusError::from(Error::InvalidArgument), BusError::Core(Error::InvalidArgument));
}
