use tpt_chassis::agl::{
    journal_from_file, patch_slot_image, AglCanTransceiver, AglOtaStorage, AGL_LOOPBACK_DEPTH,
    DEFAULT_IFACE, DEFAULT_ROOT,
};
use tpt_chassis::bus::{BusError, VehicleBus};
use tpt_chassis::can::{CanBus, CanFrame, CanId, CanTransceiver};
use tpt_chassis::ota::{OtaError, SlotState};

#[test]
fn agl_can_socket_loopback() {
    let mut bus = CanBus::new(AglCanTransceiver::new("vcan0"));
    let id = CanId::standard(0x7DF).unwrap();
    let frame = CanFrame::new(id, &[0x02, 0x10, 0x01]).unwrap();
    bus.transmit(frame).unwrap();
    assert!(bus.can_receive());
    let got = bus.receive().unwrap();
    assert_eq!(got.data(), &[0x02, 0x10, 0x01]);
}

#[test]
fn agl_loopback_is_fifo_and_bounded() {
    let mut t = AglCanTransceiver::new(DEFAULT_IFACE);
    assert_eq!(t.iface(), "can0");
    let id = CanId::standard(0x100).unwrap();
    for i in 0..AGL_LOOPBACK_DEPTH {
        assert!(t.can_send());
        t.send(CanFrame::new(id, &[i as u8]).unwrap()).unwrap();
    }
    assert!(!t.can_send());
    assert_eq!(t.send(CanFrame::new(id, &[0xFF]).unwrap()), Err(BusError::TxQueueFull));
    for i in 0..AGL_LOOPBACK_DEPTH {
        assert_eq!(t.recv().unwrap().data(), &[i as u8]);
    }
    assert!(!t.has_received());
    assert_eq!(t.recv(), Err(BusError::RxQueueEmpty));
}

#[test]
fn agl_storage_names_files_under_root() {
    let s = AglOtaStorage::new(4096);
    assert_eq!(s.root(), DEFAULT_ROOT);
    assert_eq!(s.slot_capacity(), 4096);
    assert_eq!(s.slot_file(0), "slot0.img");
    assert_eq!(s.slot_file(1), "slot1.img");
    assert_eq!(s.slot_file(255), "slot255.img");
    let t = AglOtaStorage::with_root("/tmp/ota", 16);
    assert_eq!(t.root(), "/tmp/ota");
}

#[test]
fn slot_image_patch_stays_within_capacity() {
    let mut image = vec![0u8; 8];
    assert_eq!(patch_slot_image(&mut image, 2, &[1, 2, 3]), Ok(()));
    assert_eq!(image, vec![0, 0, 1, 2, 3, 0, 0, 0]);
    assert_eq!(patch_slot_image(&mut image, 6, &[9, 9, 9]), Err(OtaError::Storage));
    assert_eq!(patch_slot_image(&mut image, usize::MAX, &[9]), Err(OtaError::Storage));
    assert_eq!(image, vec![0, 0, 1, 2, 3, 0, 0, 0]);
    assert_eq!(patch_slot_image(&mut image, 5, &[7, 7, 7]), Ok(()));
    assert_eq!(image, vec![0, 0, 1, 2, 3, 7, 7, 7]);
}

#[test]
fn journal_file_decoding() {
    assert_eq!(journal_from_file(None), Ok(SlotState::ActiveSlot0));
    assert_eq!(journal_from_file(Some([0x01, 0x01])), Ok(SlotState::Pending { candidate: 1 }));
    assert_eq!(
        journal_from_file(Some(SlotState::Testing { active: 1, fallback: 0 }.encode())),
        Ok(SlotState::Testing { active: 1, fallback: 0 })
    );
    assert_eq!(journal_from_file(Some([0x07, 0x00])), Err(OtaError::Storage));
}
