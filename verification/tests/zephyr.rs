use tpt_chassis::bus::{BusError, VehicleBus};
use tpt_chassis::can::{CanBus, CanFrame, CanId, CanTransceiver};
use tpt_chassis::ota::{
    DemoSigner, OtaEngine, OtaError, OtaStorage, SignatureScheme, SlotState, UpdatePackage,
    OTA_MAX_PAYLOAD, OTA_SIGNATURE_LEN,
};
use tpt_chassis::zephyr::{RamSlot, ZephyrOtaStorage, RAM_SLOT_CAP};

struct LoopbackTransceiver {
    tx: CanFrame,
    has: bool,
}

impl CanTransceiver for LoopbackTransceiver {
    fn send(&mut self, frame: CanFrame) -> Result<(), BusError> {
        self.tx = frame;
        self.has = true;
        Ok(())
    }
    fn recv(&mut self) -> Result<CanFrame, BusError> {
        if self.has {
            self.has = false;
            Ok(self.tx)
        } else {
            Err(BusError::RxQueueEmpty)
        }
    }
    fn has_received(&self) -> bool {
        self.has
    }
    fn can_send(&self) -> bool {
        true
    }
}

fn signed_package(signer: &DemoSigner, payload: &[u8]) -> (UpdatePackage, [u8; OTA_SIGNATURE_LEN]) {
    let pkg = UpdatePackage {
        slot: 1,
        payload_len: payload.len() as u32,
    };
    let mut signed = [0u8; UpdatePackage::HEADER_LEN + OTA_MAX_PAYLOAD];
    pkg.encode_header(&mut signed[..UpdatePackage::HEADER_LEN]);
    signed[UpdatePackage::HEADER_LEN..UpdatePackage::HEADER_LEN + payload.len()]
        .copy_from_slice(payload);
    let mut sig = [0u8; OTA_SIGNATURE_LEN];
    signer.sign(
        &signed[..UpdatePackage::HEADER_LEN + payload.len()],
        &mut sig,
    );
    (pkg, sig)
}

#[test]
fn zephyr_can_bus_loopback() {
    let mut bus = CanBus::new(LoopbackTransceiver {
        tx: CanFrame::new(CanId::standard(0).unwrap(), &[]).unwrap(),
        has: false,
    });
    let id = CanId::standard(0x321).unwrap();
    let frame = CanFrame::new(id, &[0xAA, 0xBB]).unwrap();
    bus.transmit(frame).unwrap();
    assert!(bus.can_receive());
    let got = bus.receive().unwrap();
    assert_eq!(got.data(), &[0xAA, 0xBB]);
    assert_eq!(got.id().raw(), 0x321);
}

#[test]
fn zephyr_ota_stage_promote_commit() {
    let signer = DemoSigner::new(0xBEEF);
    let mut storage = ZephyrOtaStorage::new();
    let mut engine = OtaEngine::new(&mut storage, signer);

    let payload = [0x5A; 32];
    let (pkg, sig) = signed_package(&signer, &payload);

    engine.stage(&pkg, &payload, &sig).unwrap();
    assert!(matches!(
        engine.state().unwrap(),
        SlotState::Pending { candidate: 1 }
    ));
    let active = engine.promote().unwrap();
    assert_eq!(active, 1);
    let active = engine.commit().unwrap();
    assert_eq!(active, 1);
    assert_eq!(engine.state().unwrap(), SlotState::ActiveSlot1);
}

#[test]
fn zephyr_ota_power_loss_rolls_back() {
    let signer = DemoSigner::new(0xBEEF);
    let mut storage = ZephyrOtaStorage::new();
    let mut engine = OtaEngine::new(&mut storage, signer);

    let payload = [0x12; 16];
    let (pkg, sig) = signed_package(&signer, &payload);

    engine.stage(&pkg, &payload, &sig).unwrap();
    engine.promote().unwrap();
    // Simulate reboot: fresh engine over the same storage.
    let mut engine2 = OtaEngine::new(&mut storage, signer);
    let active = engine2.recover().unwrap();
    assert_eq!(active, 0);
    assert_eq!(engine2.state().unwrap(), SlotState::ActiveSlot0);
}

#[test]
fn zephyr_ram_slots_read_back_writes() {
    let mut storage = ZephyrOtaStorage::default();
    assert_eq!(storage.slot_capacity(), RAM_SLOT_CAP);
    storage.write_slot(1, 10, &[1, 2, 3]).unwrap();
    let mut buf = [0u8; 5];
    storage.read_slot(1, 9, &mut buf).unwrap();
    assert_eq!(buf, [0, 1, 2, 3, 0]);
    // The other slot is untouched.
    storage.read_slot(0, 9, &mut buf).unwrap();
    assert_eq!(buf, [0; 5]);
    assert_eq!(storage.write_slot(2, 0, &[1]), Err(OtaError::Storage));
    assert_eq!(storage.write_slot(0, RAM_SLOT_CAP - 1, &[1, 2]), Err(OtaError::Storage));
    assert_eq!(storage.read_slot(0, RAM_SLOT_CAP, &mut buf), Err(OtaError::Storage));
    assert_eq!(storage.read_state(), Ok(SlotState::ActiveSlot0));
    storage.write_state(SlotState::Pending { candidate: 0 }).unwrap();
    assert_eq!(storage.read_state(), Ok(SlotState::Pending { candidate: 0 }));
    assert_eq!(RamSlot::new().data[0], 0);
}
