//! OTA storage for Zephyr RTOS targets, backed by RAM image slots.
//!
//! The same [`crate::ota::OtaEngine`] runs over this backend on the target or
//! under emulation; it keeps two fixed-capacity image slots and the journal.
use vstd::prelude::*;
use crate::ota::{OtaError, OtaStorage, SlotState, overwrite};

verus! {

/// Capacity of each A/B image slot.
pub const RAM_SLOT_CAP: usize = 1024;

/// A fixed-capacity, allocation-free image slot.
pub struct RamSlot {
    /// The slot contents.
    pub data: [u8; 1024],
}

impl RamSlot {
    /// Creates a zero-filled slot.
    pub fn new() -> (r: Self)
        ensures
            r.data@ == Seq::new(1024, |i: int| 0u8),
    {
        let r = RamSlot { data: [0u8; 1024] };
        assert(r.data@ =~= Seq::new(1024, |i: int| 0u8));
        r
    }
}

impl Default for RamSlot {
    fn default() -> (r: Self)
        ensures
            r.data@ == Seq::new(1024, |i: int| 0u8),
    {
        Self::new()
    }
}

/// Accesses of `len` bytes at `offset` that stay within a slot.
pub open spec fn in_slot(slot: u8, offset: nat, len: nat) -> bool {
    slot <= 1 && offset + len <= RAM_SLOT_CAP
}

/// OTA storage with two RAM image slots and an in-memory journal.
pub struct ZephyrOtaStorage {
    slot0: RamSlot,
    slot1: RamSlot,
    state: SlotState,
}

impl ZephyrOtaStorage {
    /// Creates a backend with zero-filled slots and slot 0 active.
    pub fn new() -> (r: Self)
        ensures
            r.journal() == SlotState::ActiveSlot0,
            r.capacity() == RAM_SLOT_CAP,
            r.image(0) == Seq::new(1024, |i: int| 0u8),
            r.image(1) == Seq::new(1024, |i: int| 0u8),
    {
        ZephyrOtaStorage { slot0: RamSlot::new(), slot1: RamSlot::new(), state: SlotState::ActiveSlot0 }
    }

    fn write_into(target: &mut RamSlot, offset: usize, data: &[u8])
        requires
            offset + data@.len() <= RAM_SLOT_CAP,
        ensures
            final(target).data@ == overwrite(old(target).data@, offset as nat, data@),
    {
        let mut i: usize = 0;
        while i < data.len()
            invariant
                i <= data@.len(),
                offset + data@.len() <= RAM_SLOT_CAP,
                target.data@ == old(target).data@.take(offset as int) + data@.take(i as int)
                    + old(target).data@.skip(offset + i),
            decreases data@.len() - i,
        {
            target.data[offset + i] = data[i];
            i = i + 1;
            assert(target.data@ =~= old(target).data@.take(offset as int) + data@.take(i as int)
                + old(target).data@.skip(offset + i));
        }
        assert(data@.take(i as int) =~= data@);
    }

    fn read_from(source: &RamSlot, offset: usize, buf: &mut [u8])
        requires
            offset + old(buf)@.len() <= RAM_SLOT_CAP,
        ensures
            final(buf)@ == source.data@.subrange(offset as int, offset + old(buf)@.len()),
    {
        let mut i: usize = 0;
        while i < buf.len()
            invariant
                i <= buf@.len(),
                buf@.len() == old(buf)@.len(),
                offset + buf@.len() <= RAM_SLOT_CAP,
                buf@ == source.data@.subrange(offset as int, offset + i) + old(buf)@.skip(i as int),
            decreases buf@.len() - i,
        {
            let ghost prev = buf@;
            buf[i] = source.data[offset + i];
            assert(buf@ == prev.update(i as int, source.data@[offset + i]));
            i = i + 1;
            assert(buf@ =~= source.data@.subrange(offset as int, offset + i) + old(buf)@.skip(i as int));
        }
        assert(buf@ =~= source.data@.subrange(offset as int, offset + old(buf)@.len()));
    }
}

impl Default for ZephyrOtaStorage {
    fn default() -> (r: Self)
        ensures
            r.journal() == SlotState::ActiveSlot0,
    {
        Self::new()
    }
}

impl OtaStorage for ZephyrOtaStorage {
    closed spec fn journal(&self) -> SlotState {
        self.state
    }

    closed spec fn capacity(&self) -> nat {
        RAM_SLOT_CAP as nat
    }

    open spec fn slot_writable(&self, slot: u8, offset: nat, len: nat) -> bool {
        in_slot(slot, offset, len)
    }

    open spec fn slot_readable(&self, slot: u8, offset: nat, len: nat) -> bool {
        in_slot(slot, offset, len)
    }

    open spec fn journal_readable(&self) -> bool {
        true
    }

    open spec fn journal_writable(&self) -> bool {
        true
    }

    /// The two RAM slots; there is no slot past the second.
    closed spec fn image(&self, slot: u8) -> Seq<u8> {
        if slot == 0 {
            self.slot0.data@
        } else if slot == 1 {
            self.slot1.data@
        } else {
            Seq::empty()
        }
    }

    fn write_slot(&mut self, slot: u8, offset: usize, data: &[u8]) -> (r: Result<(), OtaError>)
        ensures
            r is Ok <==> in_slot(slot, offset as nat, data@.len()),
            r is Err ==> r == Err::<(), OtaError>(OtaError::Storage) && (*final(self)).image(0) == (*old(self)).image(0)
                && (*final(self)).image(1) == (*old(self)).image(1),
            r is Ok ==> (*final(self)).image(slot) == overwrite((*old(self)).image(slot), offset as nat, data@)
                && (*final(self)).image((1 - slot) as u8) == (*old(self)).image((1 - slot) as u8),
    {
        if slot > 1 || data.len() > RAM_SLOT_CAP || offset > RAM_SLOT_CAP - data.len() {
            return Err(OtaError::Storage);
        }
        if slot == 0 {
            Self::write_into(&mut self.slot0, offset, data);
        } else {
            Self::write_into(&mut self.slot1, offset, data);
        }
        Ok(())
    }

    fn read_slot(&self, slot: u8, offset: usize, buf: &mut [u8]) -> (r: Result<(), OtaError>)
        ensures
            r is Ok <==> in_slot(slot, offset as nat, old(buf)@.len()),
            r is Err ==> r == Err::<(), OtaError>(OtaError::Storage) && final(buf)@ == old(buf)@,
            r is Ok ==> final(buf)@ == self.image(slot).subrange(offset as int, offset + old(buf)@.len()),
    {
        if slot > 1 || buf.len() > RAM_SLOT_CAP || offset > RAM_SLOT_CAP - buf.len() {
            return Err(OtaError::Storage);
        }
        if slot == 0 {
            Self::read_from(&self.slot0, offset, buf);
        } else {
            Self::read_from(&self.slot1, offset, buf);
        }
        Ok(())
    }

    fn slot_capacity(&self) -> (r: usize) {
        RAM_SLOT_CAP
    }

    fn write_state(&mut self, state: SlotState) -> (r: Result<(), OtaError>)
        ensures
            r is Ok,
            (*final(self)).image(0) == (*old(self)).image(0),
            (*final(self)).image(1) == (*old(self)).image(1),
    {
        self.state = state;
        Ok(())
    }

    fn read_state(&self) -> (r: Result<SlotState, OtaError>)
        ensures
            r == Ok::<SlotState, OtaError>(self.journal()),
    {
        Ok(self.state)
    }
}

} // verus!
