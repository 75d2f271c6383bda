//! CAN bus abstraction.
//!
//! The [`CanFrame`] and [`CanFdFrame`] types and the [`CanBus`] / [`CanFdBus`]
//! interfaces, which validate frames before handing them to a transceiver
//! (a peripheral driver or a simulator).
use vstd::prelude::*;
use vstd::slice::slice_subrange;
use crate::bus::{BusError, Frame, VehicleBus};
use crate::error::Error;

verus! {

/// Maps a frame-validation failure onto the bus transport enum.
fn invalid_frame_err(e: Error) -> (r: BusError)
    ensures
        r == (if e == Error::InvalidArgument { BusError::InvalidFrame } else { BusError::Core(e) }),
{
    match e {
        Error::InvalidArgument => BusError::InvalidFrame,
        other => BusError::Core(other),
    }
}

/// Maximum payload length of a classical CAN frame (bytes).
pub const CAN_MAX_DLC: usize = 8;

/// Maximum payload length of a CAN FD frame (bytes).
pub const CANFD_MAX_DLC: usize = 64;

/// The largest valid standard (11-bit) CAN identifier.
pub const STANDARD_MAX: u32 = 0x7FF;

/// The largest valid extended (29-bit) CAN identifier.
pub const EXTENDED_MAX: u32 = 0x1FFFFFFF;

/// A CAN identifier: an 11-bit standard or a 29-bit extended arbitration ID.
#[derive(Debug, Clone, Copy, PartialEq, Eq, Structural)]
pub struct CanId {
    raw: u32,
    extended: bool,
}

impl CanId {
    /// The largest valid standard (11-bit) CAN identifier.
    pub const STANDARD_MAX: u32 = 0x7FF;
    /// The largest valid extended (29-bit) CAN identifier.
    pub const EXTENDED_MAX: u32 = 0x1FFFFFFF;

    /// The raw arbitration ID value.
    pub closed spec fn raw_value(self) -> u32 {
        self.raw
    }

    /// Whether the identifier is extended (29-bit).
    pub closed spec fn is_ext(self) -> bool {
        self.extended
    }

    /// Creates a standard (11-bit) CAN identifier; `None` if `id` exceeds 11 bits.
    pub fn standard(id: u32) -> (r: Option<CanId>)
        ensures
            r is Some <==> id <= STANDARD_MAX,
            r matches Some(c) ==> c.raw_value() == id && !c.is_ext(),
    {
        if id <= STANDARD_MAX {
            Some(CanId { raw: id, extended: false })
        } else {
            None
        }
    }

    /// Creates an extended (29-bit) CAN identifier; `None` if `id` exceeds 29 bits.
    pub fn extended(id: u32) -> (r: Option<CanId>)
        ensures
            r is Some <==> id <= EXTENDED_MAX,
            r matches Some(c) ==> c.raw_value() == id && c.is_ext(),
    {
        if id <= EXTENDED_MAX {
            Some(CanId { raw: id, extended: true })
        } else {
            None
        }
    }

    /// Returns the raw arbitration ID value.
    pub fn raw(&self) -> (r: u32)
        ensures
            r == self.raw_value(),
    {
        self.raw
    }

    /// Returns `true` if this is an extended (29-bit) identifier.
    pub fn is_extended(&self) -> (r: bool)
        ensures
            r == self.is_ext(),
    {
        self.extended
    }

    /// Constructs a `CanId` from a raw value without range checking, so that
    /// validation can be exercised on out-of-range identifiers.
    pub fn from_raw(raw: u32, extended: bool) -> (r: CanId)
        ensures
            r.raw_value() == raw,
            r.is_ext() == extended,
    {
        CanId { raw, extended }
    }
}

/// Identifiers within the range of their kind.
pub open spec fn id_in_range(id: CanId) -> bool {
    id.raw_value() <= if id.is_ext() { EXTENDED_MAX } else { STANDARD_MAX }
}

/// Copies `data` into a zero-filled 8-byte buffer.
fn fill8(data: &[u8]) -> (r: [u8; 8])
    requires
        data@.len() <= 8,
    ensures
        r@.take(data@.len() as int) == data@,
{
    let mut buf = [0u8; 8];
    let mut i: usize = 0;
    while i < data.len()
        invariant
            i <= data@.len(),
            data@.len() <= 8,
            buf@.take(i as int) == data@.take(i as int),
        decreases data@.len() - i,
    {
        buf[i] = data[i];
        i = i + 1;
        assert(buf@.take(i as int) =~= data@.take(i as int));
    }
    assert(data@.take(i as int) =~= data@);
    buf
}

/// Copies `data` into a zero-filled 64-byte buffer.
fn fill64(data: &[u8]) -> (r: [u8; 64])
    requires
        data@.len() <= 64,
    ensures
        r@.take(data@.len() as int) == data@,
{
    let mut buf = [0u8; 64];
    let mut i: usize = 0;
    while i < data.len()
        invariant
            i <= data@.len(),
            data@.len() <= 64,
            buf@.take(i as int) == data@.take(i as int),
        decreases data@.len() - i,
    {
        buf[i] = data[i];
        i = i + 1;
        assert(buf@.take(i as int) =~= data@.take(i as int));
    }
    assert(data@.take(i as int) =~= data@);
    buf
}

/// A classical CAN frame carrying up to [`CAN_MAX_DLC`] payload bytes inline.
#[derive(Debug, Clone, Copy, PartialEq, Eq)]
pub struct CanFrame {
    id: CanId,
    data: [u8; 8],
    len: u8,
}

impl CanFrame {
    /// The frame identifier.
    pub closed spec fn frame_id(self) -> CanId {
        self.id
    }

    /// The declared payload length.
    pub closed spec fn dlc(self) -> nat {
        self.len as nat
    }

    /// The payload bytes (meaningful when `dlc() <= 8`).
    pub closed spec fn payload(self) -> Seq<u8> {
        self.data@.take(self.len as int)
    }

    /// Constructs a CAN frame from an identifier and a payload slice;
    /// `None` if `data` is longer than [`CAN_MAX_DLC`].
    pub fn new(id: CanId, data: &[u8]) -> (r: Option<CanFrame>)
        ensures
            r is Some <==> data@.len() <= CAN_MAX_DLC,
            r matches Some(f) ==> f.frame_id() == id && f.dlc() == data@.len() && f.payload() == data@,
    {
        if data.len() > CAN_MAX_DLC {
            return None;
        }
        let buf = fill8(data);
        Some(CanFrame { id, data: buf, len: data.len() as u8 })
    }

    /// Returns the frame's identifier.
    pub fn id(&self) -> (r: CanId)
        ensures
            r == self.frame_id(),
    {
        self.id
    }

    /// Returns the payload bytes carried by this frame.
    pub fn data(&self) -> (r: &[u8])
        requires
            self.dlc() <= CAN_MAX_DLC,
        ensures
            r@ == self.payload(),
            r@.len() == self.dlc(),
    {
        slice_subrange(self.data.as_slice(), 0, self.len as usize)
    }

    /// Constructs a `CanFrame` from raw parts without validation, so that
    /// validation can be exercised on out-of-range inputs.
    pub fn from_raw(id: CanId, data: [u8; 8], len: u8) -> (r: CanFrame)
        ensures
            r.frame_id() == id,
            r.dlc() == len,
            r.payload() == data@.take(len as int),
    {
        CanFrame { id, data, len }
    }
}

impl Frame for CanFrame {
    type Id = CanId;

    open spec fn frame_len(&self) -> nat {
        self.dlc()
    }

    open spec fn ident(&self) -> CanId {
        self.frame_id()
    }

    fn id(&self) -> (r: CanId) {
        self.id
    }

    fn len(&self) -> (r: usize) {
        self.len as usize
    }
}

/// Frames that meet classical-CAN constraints.
pub open spec fn can_frame_valid(f: CanFrame) -> bool {
    f.dlc() <= CAN_MAX_DLC && id_in_range(f.frame_id())
}

/// Validates a raw CAN frame against classical-CAN constraints.
pub fn validate_frame(frame: &CanFrame) -> (r: Result<(), Error>)
    ensures
        r == if can_frame_valid(*frame) { Ok::<(), Error>(()) } else { Err::<(), Error>(Error::InvalidArgument) },
{
    if frame.len as usize > CAN_MAX_DLC {
        return Err(Error::InvalidArgument);
    }
    let max = if frame.id.is_extended() { CanId::EXTENDED_MAX } else { CanId::STANDARD_MAX };
    if frame.id.raw() > max {
        return Err(Error::InvalidArgument);
    }
    Ok(())
}

/// A low-level CAN transceiver (wire driver or simulator backend).
pub trait CanTransceiver: Sized {
    /// Whether `after` and `r` are a possible outcome of sending `frame` from
    /// this state. By default any outcome is possible.
    open spec fn sends(&self, frame: CanFrame, after: Self, r: Result<(), BusError>) -> bool {
        true
    }

    /// Whether `after` and `r` are a possible outcome of receiving from this
    /// state. By default any outcome is possible.
    open spec fn receives(&self, after: Self, r: Result<CanFrame, BusError>) -> bool {
        true
    }

    /// Whether a received item is pending. Implementations describe it; the
    /// default names no particular answer.
    open spec fn pending(&self) -> bool {
        arbitrary()
    }

    /// Whether a transmission is accepted now. Implementations describe it;
    /// the default names no particular answer.
    open spec fn ready(&self) -> bool {
        arbitrary()
    }

    /// Queues a frame for transmission on the wire.
    fn send(&mut self, frame: CanFrame) -> (r: Result<(), BusError>)
        ensures
            old(self).sends(frame, *final(self), r),
    ;

    /// Pulls the next received frame, if one is buffered.
    fn recv(&mut self) -> (r: Result<CanFrame, BusError>)
        ensures
            old(self).receives(*final(self), r),
    ;

    /// `true` if a received item is pending.
    fn has_received(&self) -> (r: bool)
        ensures
            r == self.pending(),
    ;

    /// `true` if the transceiver can accept a transmission now.
    fn can_send(&self) -> (r: bool)
        ensures
            r == self.ready(),
    ;
}

/// High-level, allocation-free CAN bus interface for application code.
pub struct CanBus<T: CanTransceiver> {
    transceiver: T,
}

impl<T: CanTransceiver> CanBus<T> {
    /// The wrapped transceiver.
    pub closed spec fn inner(&self) -> T {
        self.transceiver
    }

    /// Wraps a transceiver as a [`CanBus`].
    pub fn new(transceiver: T) -> (r: Self)
        ensures
            r.inner() == transceiver,
    {
        CanBus { transceiver }
    }

    /// Returns a reference to the underlying transceiver.
    pub fn transceiver(&self) -> (r: &T)
        ensures
            *r == self.inner(),
    {
        &self.transceiver
    }

    /// Returns a mutable reference to the underlying transceiver.
    pub fn transceiver_mut(&mut self) -> (r: &mut T)
        ensures
            *r == old(self).inner(),
            final(self).inner() == *final(r),
    {
        &mut self.transceiver
    }
}

impl<T: CanTransceiver> VehicleBus for CanBus<T> {
    type Frame = CanFrame;

    /// Validates the frame, then hands it to the transceiver; an invalid frame
    /// is rejected with [`BusError::InvalidFrame`] before the transceiver sees it.
    fn transmit(&mut self, frame: CanFrame) -> (r: Result<(), BusError>)
        ensures
            !can_frame_valid(frame) ==> r == Err::<(), BusError>(BusError::InvalidFrame)
                && final(self).inner() == old(self).inner(),
            can_frame_valid(frame) ==> old(self).inner().sends(frame, final(self).inner(), r),
    {
        match validate_frame(&frame) {
            Ok(()) => {},
            Err(e) => return Err(invalid_frame_err(e)),
        }
        self.transceiver.send(frame)
    }

    fn receive(&mut self) -> (r: Result<CanFrame, BusError>)
        ensures
            old(self).inner().receives(final(self).inner(), r),
    {
        self.transceiver.recv()
    }

    fn can_receive(&self) -> (r: bool)
        ensures
            r == self.inner().pending(),
    {
        self.transceiver.has_received()
    }

    fn can_transmit(&self) -> (r: bool)
        ensures
            r == self.inner().ready(),
    {
        self.transceiver.can_send()
    }
}

/// A CAN FD (flexible data-rate) frame carrying up to [`CANFD_MAX_DLC`]
/// payload bytes inline.
#[derive(Debug, Clone, Copy, PartialEq, Eq)]
pub struct CanFdFrame {
    id: CanId,
    data: [u8; 64],
    len: u8,
}

impl CanFdFrame {
    /// Payloads are within the inline capacity.
    #[verifier::type_invariant]
    spec fn inv(&self) -> bool {
        self.len <= 64
    }

    /// The frame identifier.
    pub closed spec fn frame_id(self) -> CanId {
        self.id
    }

    /// The payload bytes.
    pub closed spec fn payload(self) -> Seq<u8> {
        self.data@.take(self.len as int)
    }

    /// Constructs a CAN FD frame; `None` if `data` exceeds [`CANFD_MAX_DLC`].
    pub fn new(id: CanId, data: &[u8]) -> (r: Option<CanFdFrame>)
        ensures
            r is Some <==> data@.len() <= CANFD_MAX_DLC,
            r matches Some(f) ==> f.frame_id() == id && f.payload() == data@,
    {
        if data.len() > CANFD_MAX_DLC {
            return None;
        }
        let buf = fill64(data);
        Some(CanFdFrame { id, data: buf, len: data.len() as u8 })
    }

    /// Returns the frame identifier.
    pub fn id(&self) -> (r: CanId)
        ensures
            r == self.frame_id(),
    {
        self.id
    }

    /// Returns the payload bytes.
    pub fn data(&self) -> (r: &[u8])
        ensures
            r@ == self.payload(),
    {
        proof {
            use_type_invariant(self);
        }
        slice_subrange(self.data.as_slice(), 0, self.len as usize)
    }
}

impl Frame for CanFdFrame {
    type Id = CanId;

    closed spec fn frame_len(&self) -> nat {
        self.len as nat
    }

    open spec fn ident(&self) -> CanId {
        self.frame_id()
    }

    fn id(&self) -> (r: CanId) {
        self.id
    }

    /// An FD frame never holds more than [`CANFD_MAX_DLC`] bytes.
    fn len(&self) -> (r: usize)
        ensures
            r <= CANFD_MAX_DLC,
    {
        proof {
            use_type_invariant(self);
        }
        self.len as usize
    }
}

/// Low-level CAN FD transceiver (wire driver or simulator backend).
pub trait FdCanTransceiver: Sized {
    /// Whether `after` and `r` are a possible outcome of sending `frame` from
    /// this state. By default any outcome is possible.
    open spec fn sends(&self, frame: CanFdFrame, after: Self, r: Result<(), BusError>) -> bool {
        true
    }

    /// Whether `after` and `r` are a possible outcome of receiving from this
    /// state. By default any outcome is possible.
    open spec fn receives(&self, after: Self, r: Result<CanFdFrame, BusError>) -> bool {
        true
    }

    /// Whether a received item is pending. Implementations describe it; the
    /// default names no particular answer.
    open spec fn pending(&self) -> bool {
        arbitrary()
    }

    /// Whether a transmission is accepted now. Implementations describe it;
    /// the default names no particular answer.
    open spec fn ready(&self) -> bool {
        arbitrary()
    }

    /// Queues a CAN FD frame for transmission on the wire.
    fn send(&mut self, frame: CanFdFrame) -> (r: Result<(), BusError>)
        ensures
            old(self).sends(frame, *final(self), r),
    ;

    /// Pulls the next received CAN FD frame, if one is buffered.
    fn recv(&mut self) -> (r: Result<CanFdFrame, BusError>)
        ensures
            old(self).receives(*final(self), r),
    ;

    /// `true` if a received item is pending.
    fn has_received(&self) -> (r: bool)
        ensures
            r == self.pending(),
    ;

    /// `true` if the transceiver can accept a transmission now.
    fn can_send(&self) -> (r: bool)
        ensures
            r == self.ready(),
    ;
}

/// High-level CAN FD bus interface implementing the unified [`VehicleBus`].
pub struct CanFdBus<T: FdCanTransceiver> {
    transceiver: T,
}

impl<T: FdCanTransceiver> CanFdBus<T> {
    /// The wrapped transceiver.
    pub closed spec fn inner(&self) -> T {
        self.transceiver
    }

    /// Wraps a CAN FD transceiver as a [`CanFdBus`].
    pub fn new(transceiver: T) -> (r: Self)
        ensures
            r.inner() == transceiver,
    {
        CanFdBus { transceiver }
    }

    /// Returns a reference to the underlying transceiver.
    pub fn transceiver(&self) -> (r: &T)
        ensures
            *r == self.inner(),
    {
        &self.transceiver
    }

    /// Returns a mutable reference to the underlying transceiver.
    pub fn transceiver_mut(&mut self) -> (r: &mut T)
        ensures
            *r == old(self).inner(),
            final(self).inner() == *final(r),
    {
        &mut self.transceiver
    }
}

/// CAN FD frames that meet the protocol constraints.
pub open spec fn fd_frame_valid(f: CanFdFrame) -> bool {
    f.frame_len() <= CANFD_MAX_DLC && id_in_range(f.frame_id())
}

/// Validates a CAN FD frame: like [`validate_frame`] but up to
/// [`CANFD_MAX_DLC`] payload bytes.
pub fn validate_fd_frame(frame: &CanFdFrame) -> (r: Result<(), BusError>)
    ensures
        r == if fd_frame_valid(*frame) { Ok::<(), BusError>(()) } else { Err::<(), BusError>(BusError::InvalidFrame) },
{
    proof {
        use_type_invariant(frame);
    }
    if frame.len as usize > CANFD_MAX_DLC {
        return Err(BusError::InvalidFrame);
    }
    let max = if frame.id.is_extended() { CanId::EXTENDED_MAX } else { CanId::STANDARD_MAX };
    if frame.id.raw() > max {
        return Err(BusError::InvalidFrame);
    }
    Ok(())
}

impl<T: FdCanTransceiver> VehicleBus for CanFdBus<T> {
    type Frame = CanFdFrame;

    /// Validates the frame, then hands it to the transceiver; an invalid frame
    /// is rejected with [`BusError::InvalidFrame`] before the transceiver sees it.
    fn transmit(&mut self, frame: CanFdFrame) -> (r: Result<(), BusError>)
        ensures
            !fd_frame_valid(frame) ==> r == Err::<(), BusError>(BusError::InvalidFrame)
                && final(self).inner() == old(self).inner(),
            fd_frame_valid(frame) ==> old(self).inner().sends(frame, final(self).inner(), r),
    {
        validate_fd_frame(&frame)?;
        self.transceiver.send(frame)
    }

    fn receive(&mut self) -> (r: Result<CanFdFrame, BusError>)
        ensures
            old(self).inner().receives(final(self).inner(), r),
    {
        self.transceiver.recv()
    }

    fn can_receive(&self) -> (r: bool)
        ensures
            r == self.inner().pending(),
    {
        self.transceiver.has_received()
    }

    fn can_transmit(&self) -> (r: bool)
        ensures
            r == self.inner().ready(),
    {
        self.transceiver.can_send()
    }
}

} // verus!
