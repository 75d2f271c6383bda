use tpt_chassis::ota::{
    package_image, signing_input, DemoSigner, OtaEngine, OtaError, OtaStorage, SignatureScheme,
    SlotState, UpdatePackage, OTA_MAX_PAYLOAD, OTA_SIGNATURE_LEN,
};

const SLOT_CAP: usize = 256;

struct MemStorage {
    slots: [[u8; SLOT_CAP]; 2],
    state: SlotState,
}

impl MemStorage {
    fn new() -> Self {
        MemStorage {
            slots: [[0u8; SLOT_CAP]; 2],
            state: SlotState::ActiveSlot0,
        }
    }
}

impl OtaStorage for MemStorage {
    fn write_slot(&mut self, slot: u8, offset: usize, data: &[u8]) -> Result<(), OtaError> {
        let s = self.slots.get_mut(slot as usize).ok_or(OtaError::Storage)?;
        if offset + data.len() > s.len() {
            return Err(OtaError::Storage);
        }
        s[offset..offset + data.len()].copy_from_slice(data);
        Ok(())
    }

    fn read_slot(&self, slot: u8, offset: usize, buf: &mut [u8]) -> Result<(), OtaError> {
        let s = self.slots.get(slot as usize).ok_or(OtaError::Storage)?;
        if offset + buf.len() > s.len() {
            return Err(OtaError::Storage);
        }
        buf.copy_from_slice(&s[offset..offset + buf.len()]);
        Ok(())
    }

    fn slot_capacity(&self) -> usize {
        SLOT_CAP
    }

    fn write_state(&mut self, state: SlotState) -> Result<(), OtaError> {
        self.state = state;
        Ok(())
    }

    fn read_state(&self) -> Result<SlotState, OtaError> {
        Ok(self.state)
    }
}

fn make_package(
    signer: &DemoSigner,
    slot: u8,
    payload: &[u8],
) -> ([u8; OTA_SIGNATURE_LEN], UpdatePackage) {
    let pkg = UpdatePackage {
        slot,
        payload_len: payload.len() as u32,
    };
    let mut signed = [0u8; UpdatePackage::HEADER_LEN + OTA_MAX_PAYLOAD];
    pkg.encode_header(&mut signed[..UpdatePackage::HEADER_LEN]);
    signed[UpdatePackage::HEADER_LEN..UpdatePackage::HEADER_LEN + payload.len()]
        .copy_from_slice(payload);
    let mut sig = [0u8; OTA_SIGNATURE_LEN];
    signer.sign(
        &signed[..UpdatePackage::HEADER_LEN + payload.len()],
        &mut sig,
    );
    (sig, pkg)
}

#[test]
fn slot_state_round_trips() {
    for st in [
        SlotState::ActiveSlot0,
        SlotState::ActiveSlot1,
        SlotState::Pending { candidate: 1 },
        SlotState::Testing {
            active: 1,
            fallback: 0,
        },
    ] {
        assert_eq!(SlotState::decode(st.encode()), Some(st));
    }
    assert_eq!(SlotState::decode([0xFF, 0x00]), None);
}

#[test]
fn stage_then_promote_commit_activates_new_slot() {
    let signer = DemoSigner::new(0xCAFE);
    let mut store = MemStorage::new();
    let mut engine = OtaEngine::new(&mut store, signer);

    let payload = [0xAB; 16];
    let (sig, pkg) = make_package(&signer, 1, &payload);
    engine.stage(&pkg, &payload, &sig).unwrap();

    let active = engine.promote().unwrap();
    assert_eq!(active, 1);
    let active = engine.commit().unwrap();
    assert_eq!(active, 1);
    assert_eq!(engine.state().unwrap(), SlotState::ActiveSlot1);
}

#[test]
fn corrupted_signature_is_rejected() {
    let signer = DemoSigner::new(0xCAFE);
    let mut store = MemStorage::new();
    let mut engine = OtaEngine::new(&mut store, signer);

    let payload = [0xAB; 16];
    let (_sig, pkg) = make_package(&signer, 1, &payload);
    let mut bad_sig = [0u8; OTA_SIGNATURE_LEN];
    bad_sig[0] = 0xFF;
    assert_eq!(
        engine.stage(&pkg, &payload, &bad_sig),
        Err(OtaError::BadSignature)
    );
}

#[test]
fn bad_magic_package_rejected() {
    assert!(UpdatePackage::decode_header(&[0, 0, 0, 0, 1, 0, 0, 0, 0, 0]).is_none());
}

#[test]
fn power_loss_during_pending_promotes_on_recover() {
    let signer = DemoSigner::new(0xCAFE);
    let mut store = MemStorage::new();
    let mut engine = OtaEngine::new(&mut store, signer);

    let payload = [0x12; 16];
    let (sig, pkg) = make_package(&signer, 1, &payload);
    engine.stage(&pkg, &payload, &sig).unwrap();
    // Simulate reboot mid-pending: a fresh engine recovers the state.
    let mut engine2 = OtaEngine::new(&mut store, signer);
    let active = engine2.recover().unwrap();
    assert_eq!(active, 1);
    assert!(matches!(
        engine2.state().unwrap(),
        SlotState::Testing { active: 1, .. }
    ));
}

#[test]
fn power_loss_during_testing_rolls_back() {
    let signer = DemoSigner::new(0xCAFE);
    let mut store = MemStorage::new();
    let mut engine = OtaEngine::new(&mut store, signer);

    let payload = [0x12; 16];
    let (sig, pkg) = make_package(&signer, 1, &payload);
    engine.stage(&pkg, &payload, &sig).unwrap();
    engine.promote().unwrap();
    // Reboot during testing -> rollback to slot 0.
    let mut engine2 = OtaEngine::new(&mut store, signer);
    let active = engine2.recover().unwrap();
    assert_eq!(active, 0);
    assert_eq!(engine2.state().unwrap(), SlotState::ActiveSlot0);
}

#[test]
fn forced_rollback_returns_to_previous_slot() {
    let signer = DemoSigner::new(0xCAFE);
    let mut store = MemStorage::new();
    let mut engine = OtaEngine::new(&mut store, signer);

    let payload = [0x99; 16];
    let (sig, pkg) = make_package(&signer, 1, &payload);
    engine.stage(&pkg, &payload, &sig).unwrap();
    engine.promote().unwrap();
    let rolled = engine.rollback().unwrap();
    assert_eq!(rolled, 1);
    assert_eq!(engine.state().unwrap(), SlotState::ActiveSlot0);
}

#[test]
fn header_encodes_magic_version_slot_and_length() {
    let pkg = UpdatePackage {
        slot: 1,
        payload_len: 0x0102_0304,
    };
    let mut out = [0xEEu8; 12];
    pkg.encode_header(&mut out);
    assert_eq!(out, [0x54, 0x50, 0x54, 0x31, 1, 1, 1, 2, 3, 4, 0xEE, 0xEE]);
    assert_eq!(UpdatePackage::decode_header(&out), Some(pkg));
    // Slot numbers other than 0 and 1 do not decode.
    let mut bad = out;
    bad[5] = 2;
    assert_eq!(UpdatePackage::decode_header(&bad), None);
    assert_eq!(UpdatePackage::decode_header(&out[..9]), None);
}

#[test]
fn stage_rejects_bad_packages() {
    let signer = DemoSigner::new(0xCAFE);
    let mut store = MemStorage::new();
    let mut engine = OtaEngine::new(&mut store, signer);
    let payload = [0x01; 16];
    // Length field disagrees with the payload.
    let (sig, mut pkg) = make_package(&signer, 1, &payload);
    pkg.payload_len = 15;
    assert_eq!(engine.stage(&pkg, &payload, &sig), Err(OtaError::BadPackage));
    // A payload larger than a slot.
    let big = [0x02; SLOT_CAP + 1];
    let (sig, pkg) = make_package(&signer, 1, &big);
    assert_eq!(engine.stage(&pkg, &big, &sig), Err(OtaError::PayloadTooLarge));
    // Nothing staged yet: there is no candidate and nothing under test.
    assert_eq!(engine.promote(), Err(OtaError::NoCandidate));
    assert_eq!(engine.commit(), Err(OtaError::InvalidState));
    assert_eq!(engine.rollback(), Err(OtaError::InvalidState));
    assert_eq!(engine.state(), Ok(SlotState::ActiveSlot0));
    assert_eq!(engine.recover(), Ok(0));
}

#[test]
fn demo_signer_verifies_its_own_signatures_only() {
    let signer = DemoSigner::new(0x1234);
    let other = DemoSigner::new(0x4321);
    let data = b"firmware image";
    let mut sig = [0u8; OTA_SIGNATURE_LEN];
    signer.sign(data, &mut sig);
    assert!(signer.verify(data, &sig));
    assert!(!other.verify(data, &sig));
    let mut tampered = sig;
    tampered[31] ^= 1;
    assert!(!signer.verify(data, &tampered));
}

#[test]
fn slot_state_names_active_slot() {
    assert_eq!(SlotState::ActiveSlot0.active_slot(), 0);
    assert_eq!(SlotState::ActiveSlot1.active_slot(), 1);
    assert_eq!(SlotState::Testing { active: 1, fallback: 0 }.active_slot(), 1);
    assert_eq!(SlotState::Pending { candidate: 1 }.encode(), [0x01, 0x01]);
    assert_eq!(SlotState::Testing { active: 1, fallback: 0 }.encode(), [0x02, 0x02]);
    assert_eq!(OtaError::BadSignature.message(), "ota: signature verification failed");
}

#[test]
fn package_image_is_header_payload_signature() {
    let signer = DemoSigner::new(0xCAFE);
    let payload = [7u8, 8, 9];
    let pkg = UpdatePackage {
        slot: 1,
        payload_len: 3,
    };
    let signed = signing_input(&pkg, &payload);
    assert_eq!(signed, vec![0x54, 0x50, 0x54, 0x31, 1, 1, 0, 0, 0, 3, 7, 8, 9]);
    let (sig, _) = make_package(&signer, 1, &payload);
    assert!(signer.verify(&signed, &sig));
    let image = package_image(&pkg, &payload, &sig);
    assert_eq!(image.len(), 13 + OTA_SIGNATURE_LEN);
    assert_eq!(&image[..13], &signed[..]);
    assert_eq!(&image[13..], &sig[..]);
}

#[test]
fn staged_payload_lands_in_candidate_slot() {
    let signer = DemoSigner::new(0xCAFE);
    let mut store = MemStorage::new();
    let payload = [0x42; 16];
    let (sig, pkg) = make_package(&signer, 1, &payload);
    {
        let mut engine = OtaEngine::new(&mut store, signer);
        engine.stage(&pkg, &payload, &sig).unwrap();
    }
    let mut buf = [0u8; 18];
    store.read_slot(1, 0, &mut buf).unwrap();
    assert_eq!(&buf[..16], &payload[..]);
    assert_eq!(&buf[16..], &[0, 0]);
    store.read_slot(0, 0, &mut buf).unwrap();
    assert_eq!(buf, [0u8; 18]);
}

/// Storage whose slots refuse every write.
struct WornFlash {
    state: SlotState,
}

impl OtaStorage for WornFlash {
    fn write_slot(&mut self, _slot: u8, _offset: usize, _data: &[u8]) -> Result<(), OtaError> {
        Err(OtaError::Storage)
    }

    fn read_slot(&self, _slot: u8, _offset: usize, buf: &mut [u8]) -> Result<(), OtaError> {
        buf.fill(0);
        Ok(())
    }

    fn slot_capacity(&self) -> usize {
        SLOT_CAP
    }

    fn write_state(&mut self, state: SlotState) -> Result<(), OtaError> {
        self.state = state;
        Ok(())
    }

    fn read_state(&self) -> Result<SlotState, OtaError> {
        Ok(self.state)
    }
}

#[test]
fn failed_slot_write_is_reported() {
    let signer = DemoSigner::new(0xCAFE);
    let mut store = WornFlash {
        state: SlotState::ActiveSlot0,
    };
    let mut engine = OtaEngine::new(&mut store, signer);
    let payload = [0x33; 8];
    let (sig, pkg) = make_package(&signer, 1, &payload);
    assert_eq!(engine.stage(&pkg, &payload, &sig), Err(OtaError::WriteFailed));
    assert_eq!(engine.state(), Ok(SlotState::ActiveSlot0));
}

#[test]
fn package_for_a_slot_above_one_is_refused() {
    let signer = DemoSigner::new(0xCAFE);
    let mut store = MemStorage::new();
    let mut engine = OtaEngine::new(&mut store, signer);
    let payload = [0x33; 8];
    let (sig, pkg) = make_package(&signer, 2, &payload);
    assert_eq!(engine.stage(&pkg, &payload, &sig), Err(OtaError::BadPackage));
    assert_eq!(engine.state(), Ok(SlotState::ActiveSlot0));
}

#[test]
fn staging_over_the_running_slot_is_refused() {
    let signer = DemoSigner::new(0xCAFE);
    let mut store = MemStorage::new();
    let payload = [0x5A; 8];
    let (sig, pkg) = make_package(&signer, 0, &payload);
    {
        let mut engine = OtaEngine::new(&mut store, signer);
        assert_eq!(engine.stage(&pkg, &payload, &sig), Err(OtaError::InvalidState));
        assert_eq!(engine.state(), Ok(SlotState::ActiveSlot0));
    }
    let mut buf = [0u8; 8];
    store.read_slot(0, 0, &mut buf).unwrap();
    assert_eq!(buf, [0u8; 8]);
}
