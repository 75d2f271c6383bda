use tpt_chassis::isotp::{
    encode_message, flow_control_frame, IsoTpError, IsoTpEvent, IsoTpLink,
};

#[test]
fn single_frame_round_trips() {
    let msg = [0x22, 0xF1, 0x90];
    let mut frames = [[0u8; 8]; 8];
    let n = encode_message(&msg, &mut frames).unwrap();
    assert_eq!(n, 1);

    let mut link: IsoTpLink<64> = IsoTpLink::new();
    match link.feed(&frames[0]).unwrap() {
        IsoTpEvent::Complete(got) => assert_eq!(got, &msg),
        _ => panic!("expected complete"),
    }
}

#[test]
fn multi_frame_reassembles() {
    // 20-byte message -> FF (6 bytes) + 2 CF (7 + 7).
    let msg: [u8; 20] = core::array::from_fn(|i| i as u8);
    let mut frames = [[0u8; 8]; 8];
    let n = encode_message(&msg, &mut frames).unwrap();
    assert_eq!(n, 3);

    let mut link: IsoTpLink<64> = IsoTpLink::new();
    // FF -> need flow control.
    match link.feed(&frames[0]).unwrap() {
        IsoTpEvent::NeedFlowControl => {}
        other => panic!("expected NeedFlowControl, got {:?}", other),
    }
    // Sender would expect a flow-control frame here.
    let _fc = flow_control_frame(0, 0);
    // CF #1 (SN=1).
    match link.feed(&frames[1]).unwrap() {
        IsoTpEvent::Incomplete => {}
        other => panic!("expected Incomplete, got {:?}", other),
    }
    // CF #2 (SN=2).
    match link.feed(&frames[2]).unwrap() {
        IsoTpEvent::Complete(got) => assert_eq!(got, &msg),
        other => panic!("expected Complete, got {:?}", other),
    }
}

#[test]
fn wrong_sequence_number_is_rejected() {
    let msg: [u8; 20] = core::array::from_fn(|i| i as u8);
    let mut frames = [[0u8; 8]; 8];
    encode_message(&msg, &mut frames).unwrap();

    let mut link: IsoTpLink<64> = IsoTpLink::new();
    let _ = link.feed(&frames[0]).unwrap(); // FF
    // Corrupt the sequence number of the first CF to 5 (expected 1).
    let mut bad = frames[1];
    bad[0] = 0x25;
    assert_eq!(link.feed(&bad), Err(IsoTpError::WrongSequence));
}

#[test]
fn consecutive_without_first_is_rejected() {
    let mut link: IsoTpLink<64> = IsoTpLink::new();
    let cf = [0x21, 1, 2, 3, 4, 5, 6, 7];
    assert_eq!(link.feed(&cf), Err(IsoTpError::UnexpectedFrame));
}

#[test]
fn flow_control_frame_layout() {
    assert_eq!(flow_control_frame(8, 20), [0x30, 8, 20, 0, 0, 0, 0, 0]);
}

#[test]
fn encode_rejects_oversize_and_short_buffers() {
    let big = [0u8; 4096];
    let mut frames = [[0u8; 8]; 8];
    assert_eq!(encode_message(&big, &mut frames), Err(IsoTpError::Overflow));
    let msg = [1u8; 20];
    let mut two = [[0u8; 8]; 2];
    assert_eq!(encode_message(&msg, &mut two), Err(IsoTpError::BufferTooSmall));
    assert_eq!(two[0][0], 0x10);
    assert_eq!(two[0][1], 20);
    assert_eq!(two[1][0], 0x21);
}

#[test]
fn segmented_message_reassembles_through_link() {
    // 6 + 7 * 3 = 27 bytes: a first frame and three full consecutive frames.
    let msg: [u8; 27] = core::array::from_fn(|i| (i * 3) as u8);
    let mut frames = [[0u8; 8]; 8];
    let n = encode_message(&msg, &mut frames).unwrap();
    assert_eq!(n, 4);
    let mut link: IsoTpLink<64> = IsoTpLink::new();
    let mut done = false;
    for f in &frames[..n] {
        if let IsoTpEvent::Complete(got) = link.feed(f).unwrap() {
            assert_eq!(got, &msg[..]);
            done = true;
        }
    }
    assert!(done);
}

#[test]
fn feed_rejects_short_frames_and_unknown_pci() {
    let mut link: IsoTpLink<64> = IsoTpLink::default();
    assert_eq!(link.feed(&[]), Err(IsoTpError::InvalidPci));
    assert_eq!(link.feed(&[0x40, 0, 0, 0, 0, 0, 0, 0]), Err(IsoTpError::InvalidPci));
    // A single frame announcing more bytes than it carries.
    assert_eq!(link.feed(&[0x07, 1, 2]), Err(IsoTpError::InvalidPci));
    // A first frame longer than the reassembly buffer.
    let mut small: IsoTpLink<8> = IsoTpLink::new();
    assert_eq!(small.feed(&[0x10, 20, 1, 2, 3, 4, 5, 6]), Err(IsoTpError::Overflow));
}

fn round_trip(msg: &[u8]) {
    let mut frames = [[0u8; 8]; 16];
    let n = encode_message(msg, &mut frames).unwrap();
    let mut link: IsoTpLink<128> = IsoTpLink::new();
    for (i, f) in frames[..n].iter().enumerate() {
        match link.feed(f).unwrap() {
            IsoTpEvent::Complete(got) => {
                assert_eq!(i + 1, n);
                assert_eq!(got, msg);
                return;
            }
            IsoTpEvent::NeedFlowControl => assert_eq!(i, 0),
            IsoTpEvent::Incomplete => assert!(i > 0 && i + 1 < n),
        }
    }
    panic!("message did not complete");
}

#[test]
fn padded_last_frame_reassembles() {
    // 8 bytes: a first frame with 6 and a consecutive frame with 2 and padding.
    let eight: [u8; 8] = core::array::from_fn(|i| (i + 1) as u8);
    round_trip(&eight);
    // 21 bytes: the last consecutive frame holds 1 byte and 6 of padding.
    let twenty_one: [u8; 21] = core::array::from_fn(|i| (0xA0 + i) as u8);
    round_trip(&twenty_one);
    // 100 bytes, no length of the form 6 + 7k.
    let hundred: [u8; 100] = core::array::from_fn(|i| (i * 7) as u8);
    round_trip(&hundred);
}
