use tpt_chassis::tooling::{crate_manifest, signal_accessors, SignalEntry, CRATE_MAIN, SIGNAL_MODULE_HEADER};

#[test]
fn manifest_names_the_crate() {
    let m = crate_manifest("brake_ecu");
    assert!(m.starts_with("[package]\nname = \"brake_ecu\"\nversion = \"0.1.0\"\n"));
    assert!(m.contains("edition = \"2021\""));
    assert!(m.ends_with("tpt-chassis = { path = \"..\", version = \"0.1.0\" }\n"));
    assert!(CRATE_MAIN.starts_with("fn main() {"));
}

#[test]
fn signal_accessors_render_each_entry() {
    let entries = vec![
        SignalEntry {
            name: Some(String::from("WHEEL_SPEED")),
            start_bit: Some(8),
            length_bits: Some(16),
            can_id: Some(0x1A0),
        },
        SignalEntry {
            name: None,
            start_bit: None,
            length_bits: Some(260),
            can_id: Some(-1),
        },
    ];
    let code = signal_accessors(&entries);
    let expected = String::from(SIGNAL_MODULE_HEADER)
        + "/// `WHEEL_SPEED`: CAN 0x1A0, start bit 8, 16 bits.\n"
        + "pub fn WHEEL_SPEED() -> Signal {\n    Signal::new(8, 16).expect(\"invalid signal layout for WHEEL_SPEED\")\n}\n\n"
        + "/// `signal`: CAN 0xFFFFFFFF, start bit 0, 4 bits.\n"
        + "pub fn signal() -> Signal {\n    Signal::new(0, 4).expect(\"invalid signal layout for signal\")\n}\n\n";
    assert_eq!(code, expected);
    assert_eq!(signal_accessors(&[]), SIGNAL_MODULE_HEADER);
}
