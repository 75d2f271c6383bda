//! Automotive Grade Linux backends.
//!
//! - [`AglCanTransceiver`] is a SocketCAN-style transceiver whose frames loop
//!   back to its own receive queue (the reference binding has no kernel
//!   socket), bounded at [`AGL_LOOPBACK_DEPTH`] frames.
//! - [`AglOtaStorage`] describes file-backed A/B storage: each slot is a file
//!   `slot<N>.img` and the journal is `state.bin` under a root directory. The
//!   byte-level work on those files is done by [`patch_slot_image`] and
//!   [`journal_from_file`]; the file access itself is the caller's.
use vstd::prelude::*;
use vstd::string::*;
use std::collections::VecDeque;
use crate::bus::BusError;
use crate::can::{CanFrame, CanTransceiver};
use crate::ota::{OtaError, SlotState, decoded_state};
use crate::text::{decimal, decimal_text};

verus! {

/// Default SocketCAN interface name.
pub const DEFAULT_IFACE: &'static str = "can0";

/// Number of frames the loopback queue holds before transmits are refused.
pub const AGL_LOOPBACK_DEPTH: usize = 64;

/// A SocketCAN transceiver bound to a named interface.
pub struct AglCanTransceiver {
    iface: String,
    loopback: VecDeque<CanFrame>,
}

impl AglCanTransceiver {
    /// The interface name, as text.
    pub closed spec fn iface_name(&self) -> Seq<char> {
        self.iface@
    }

    /// The frames waiting to be received, oldest first.
    pub closed spec fn queued(&self) -> Seq<CanFrame> {
        self.loopback@
    }

    /// Creates a transceiver for the given SocketCAN interface.
    pub fn new(iface: &str) -> (r: Self)
        ensures
            r.iface_name() == iface@,
            r.queued() == Seq::<CanFrame>::empty(),
    {
        AglCanTransceiver { iface: String::from_str(iface), loopback: VecDeque::new() }
    }

    /// Returns the interface name this transceiver targets.
    pub fn iface(&self) -> (r: &str)
        ensures
            r@ == self.iface_name(),
    {
        self.iface.as_str()
    }
}

impl CanTransceiver for AglCanTransceiver {
    /// A frame is queued when the loopback has room, else refused; the
    /// interface is untouched.
    open spec fn sends(&self, frame: CanFrame, after: Self, r: Result<(), BusError>) -> bool {
        &&& after.iface_name() == self.iface_name()
        &&& if self.queued().len() >= AGL_LOOPBACK_DEPTH {
            r == Err::<(), BusError>(BusError::TxQueueFull) && after.queued() == self.queued()
        } else {
            r == Ok::<(), BusError>(()) && after.queued() == self.queued().push(frame)
        }
    }

    /// The oldest queued frame is taken, if there is one.
    open spec fn receives(&self, after: Self, r: Result<CanFrame, BusError>) -> bool {
        &&& after.iface_name() == self.iface_name()
        &&& if self.queued().len() == 0 {
            r == Err::<CanFrame, BusError>(BusError::RxQueueEmpty) && after.queued() == self.queued()
        } else {
            r == Ok::<CanFrame, BusError>(self.queued()[0]) && after.queued() == self.queued().drop_first()
        }
    }

    open spec fn pending(&self) -> bool {
        self.queued().len() > 0
    }

    open spec fn ready(&self) -> bool {
        self.queued().len() < AGL_LOOPBACK_DEPTH
    }

    /// Queues the frame on the loopback, unless it already holds
    /// [`AGL_LOOPBACK_DEPTH`] frames.
    fn send(&mut self, frame: CanFrame) -> (r: Result<(), BusError>)
    {
        if self.loopback.len() >= AGL_LOOPBACK_DEPTH {
            return Err(BusError::TxQueueFull);
        }
        self.loopback.push_back(frame);
        Ok(())
    }

    /// Takes the oldest looped-back frame.
    fn recv(&mut self) -> (r: Result<CanFrame, BusError>)
    {
        match self.loopback.pop_front() {
            Some(frame) => Ok(frame),
            None => Err(BusError::RxQueueEmpty),
        }
    }

    fn has_received(&self) -> (r: bool) {
        self.loopback.len() > 0
    }

    fn can_send(&self) -> (r: bool) {
        self.loopback.len() < AGL_LOOPBACK_DEPTH
    }
}

/// Frames sent on an AGL transceiver come back from it in the order they were
/// sent: from an empty loopback, sending `a` then `b` and receiving twice
/// yields `a` then `b` and leaves the loopback empty.
pub proof fn lemma_agl_loopback_fifo(
    t0: AglCanTransceiver,
    a: CanFrame,
    b: CanFrame,
    t1: AglCanTransceiver,
    r1: Result<(), BusError>,
    t2: AglCanTransceiver,
    r2: Result<(), BusError>,
    t3: AglCanTransceiver,
    r3: Result<CanFrame, BusError>,
    t4: AglCanTransceiver,
    r4: Result<CanFrame, BusError>,
)
    requires
        t0.queued().len() == 0,
        t0.sends(a, t1, r1),
        t1.sends(b, t2, r2),
        t2.receives(t3, r3),
        t3.receives(t4, r4),
    ensures
        r1 is Ok && r2 is Ok,
        r3 == Ok::<CanFrame, BusError>(a),
        r4 == Ok::<CanFrame, BusError>(b),
        t4.queued().len() == 0,
{
    assert(t2.queued() =~= seq![a, b]);
}

/// Default directory of the A/B slot files.
pub const DEFAULT_ROOT: &'static str = "/var/lib/tpt-chassis";

/// File name of the update journal inside the storage root.
pub const STATE_FILE: &'static str = "state.bin";

/// File-backed A/B storage: the root directory and the size of each slot.
pub struct AglOtaStorage {
    root: String,
    slot_capacity: usize,
}

/// The file name of a slot image: `slot<N>.img`.
pub open spec fn slot_file_text(slot: u8) -> Seq<char> {
    "slot"@ + decimal_text(slot as nat) + ".img"@
}

impl AglOtaStorage {
    /// The root directory, as text.
    pub closed spec fn root_text(&self) -> Seq<char> {
        self.root@
    }

    /// The size in bytes of each slot.
    pub closed spec fn capacity(&self) -> nat {
        self.slot_capacity as nat
    }

    /// Creates storage rooted at [`DEFAULT_ROOT`] with the given slot capacity.
    pub fn new(slot_capacity: usize) -> (r: Self)
        ensures
            r.root_text() == DEFAULT_ROOT@,
            r.capacity() == slot_capacity,
    {
        Self::with_root(DEFAULT_ROOT, slot_capacity)
    }

    /// Creates storage rooted at a specific directory.
    pub fn with_root(root: &str, slot_capacity: usize) -> (r: Self)
        ensures
            r.root_text() == root@,
            r.capacity() == slot_capacity,
    {
        AglOtaStorage { root: String::from_str(root), slot_capacity }
    }

    /// The root directory.
    pub fn root(&self) -> (r: &str)
        ensures
            r@ == self.root_text(),
    {
        self.root.as_str()
    }

    /// The size in bytes of each slot.
    pub fn slot_capacity(&self) -> (r: usize)
        ensures
            r == self.capacity(),
    {
        self.slot_capacity
    }

    /// The file name, inside the root, of the image in `slot`.
    pub fn slot_file(&self, slot: u8) -> (r: String)
        ensures
            r@ == slot_file_text(slot),
    {
        let mut name = String::from_str("slot");
        name.append(decimal(slot as u32).as_str());
        name.append(".img");
        name
    }
}

/// Patches `data` into a slot image at `offset`.
///
/// Fails with [`OtaError::Storage`], leaving the image untouched, when the
/// data would run past the end of the image.
pub fn patch_slot_image(image: &mut Vec<u8>, offset: usize, data: &[u8]) -> (r: Result<(), OtaError>)
    ensures
        offset + data@.len() > old(image)@.len() ==> r == Err::<(), OtaError>(OtaError::Storage)
            && final(image)@ == old(image)@,
        offset + data@.len() <= old(image)@.len() ==> r == Ok::<(), OtaError>(())
            && final(image)@ == old(image)@.take(offset as int) + data@ + old(image)@.skip(
            offset + data@.len(),
        ),
{
    let n = image.len();
    if offset > n || data.len() > n - offset {
        return Err(OtaError::Storage);
    }
    let mut i: usize = 0;
    while i < data.len()
        invariant
            n == image@.len(),
            offset + data@.len() <= image@.len(),
            image@.len() == old(image)@.len(),
            i <= data@.len(),
            forall|k: int| 0 <= k < offset ==> image@[k] == old(image)@[k],
            forall|k: int| 0 <= k < i ==> image@[offset + k] == data@[k],
            forall|k: int| offset + data@.len() <= k < image@.len() ==> image@[k] == old(image)@[k],
        decreases data.len() - i,
    {
        image.set(offset + i, data[i]);
        i = i + 1;
    }
    assert(image@ =~= old(image)@.take(offset as int) + data@ + old(image)@.skip(
        offset + data@.len(),
    ));
    Ok(())
}

/// The journal kept in the state file: `None` when there is no file yet, else
/// its first two bytes.
pub open spec fn journal_of_file(contents: Option<(u8, u8)>) -> Result<SlotState, OtaError> {
    match contents {
        None => Ok(SlotState::ActiveSlot0),
        Some((b0, b1)) => match decoded_state(b0, b1) {
            Some(s) => Ok(s),
            None => Err(OtaError::Storage),
        },
    }
}

/// Decodes the journal from the state file's first two bytes; a missing file
/// means slot 0 is active, and bytes that name no state are a storage error.
pub fn journal_from_file(contents: Option<[u8; 2]>) -> (r: Result<SlotState, OtaError>)
    ensures
        r == journal_of_file(
            match contents {
                None => None,
                Some(b) => Some((b@[0], b@[1])),
            },
        ),
{
    match contents {
        None => Ok(SlotState::ActiveSlot0),
        Some(bytes) => match SlotState::decode(bytes) {
            Some(s) => Ok(s),
            None => Err(OtaError::Storage),
        },
    }
}

} // verus!
