//! LIN bus abstraction.
//!
//! LIN is a low-cost master/slave sub-bus for body electronics. This module
//! provides [`LinFrame`], the [`LinTransceiver`] trait and [`LinBus`], which
//! implements the unified [`VehicleBus`] trait.
use vstd::prelude::*;
use vstd::slice::slice_subrange;
use crate::bus::{BusError, Frame, VehicleBus};
use crate::error::Error;

verus! {

/// Maps a frame-validation failure onto the bus transport enum.
fn invalid_frame_err(e: Error) -> (r: BusError)
    ensures
        r == (if e == Error::InvalidArgument { BusError::InvalidFrame } else { BusError::Core(e) }),
{
    match e {
        Error::InvalidArgument => BusError::InvalidFrame,
        other => BusError::Core(other),
    }
}

/// Maximum payload length of a LIN frame (bytes).
pub const LIN_MAX_DLC: usize = 8;

/// Bit `k` of `v`.
pub open spec fn bit(v: u8, k: u8) -> u8 {
    (v >> k) & 1
}

/// A LIN frame identifier (6 bits, 0..=0x3F).
#[derive(Debug, Clone, Copy, PartialEq, Eq, Structural)]
pub struct LinId(u8);

impl LinId {
    /// The largest valid LIN frame identifier.
    pub const MAX: u8 = 0x3F;

    /// Identifiers fit in 6 bits.
    #[verifier::type_invariant]
    spec fn inv(&self) -> bool {
        self.0 <= 0x3F
    }

    /// The raw (unprotected) identifier value.
    pub closed spec fn value(self) -> u8 {
        self.0
    }

    /// Creates a LIN identifier, returning `None` if `id > 0x3F`.
    pub fn new(id: u8) -> (r: Option<LinId>)
        ensures
            r is Some <==> id <= 0x3F,
            r matches Some(l) ==> l.value() == id,
    {
        if id <= Self::MAX {
            Some(LinId(id))
        } else {
            None
        }
    }

    /// Returns the raw (unprotected) identifier value.
    pub fn raw(&self) -> (r: u8)
        ensures
            r == self.value(),
            r <= 0x3F,
    {
        proof {
            use_type_invariant(self);
        }
        self.0
    }

    /// Computes the protected identifier (PID) with the LIN 2.x parity bits:
    /// bits 0..5 are the identifier, bit 6 is `P0 = ID0 ^ ID1 ^ ID2 ^ ID4`
    /// and bit 7 is `P1 = !(ID1 ^ ID3 ^ ID4 ^ ID5)`.
    pub fn protected(&self) -> (r: u8)
        ensures
            r & 0x3F == self.value(),
            bit(r, 6) == bit(self.value(), 0) ^ bit(self.value(), 1) ^ bit(self.value(), 2) ^ bit(self.value(), 4),
            bit(r, 7) == 1 - (bit(self.value(), 1) ^ bit(self.value(), 3) ^ bit(self.value(), 4) ^ bit(
                self.value(),
                5,
            )),
    {
        proof {
            use_type_invariant(self);
        }
        let id = self.0;
        let p0 = (((id) ^ (id >> 1) ^ (id >> 2) ^ (id >> 4)) & 0x01) << 6;
        let p1 = (!((id >> 1) ^ (id >> 3) ^ (id >> 4) ^ (id >> 5)) & 0x01) << 7;
        let r = id | p0 | p1;
        assert(r & 0x3F == id
            && (r >> 6u8) & 1 == ((id >> 0u8) & 1) ^ ((id >> 1u8) & 1) ^ ((id >> 2u8) & 1) ^ ((id >> 4u8) & 1)
            && (r >> 7u8) & 1 == 1 - (((id >> 1u8) & 1) ^ ((id >> 3u8) & 1) ^ ((id >> 4u8) & 1) ^ ((id >> 5u8) & 1)))
            by (bit_vector)
            requires
                id <= 0x3F,
                p0 == (((id) ^ (id >> 1u8) ^ (id >> 2u8) ^ (id >> 4u8)) & 0x01) << 6u8,
                p1 == (!((id >> 1u8) ^ (id >> 3u8) ^ (id >> 4u8) ^ (id >> 5u8)) & 0x01) << 7u8,
                r == id | p0 | p1,
        ;
        r
    }
}

/// The classic LIN sum of `bytes`: bytes are added and every carry out of
/// the byte is added back in (sum modulo 255 with end-around carry).
pub open spec fn carry_sum(bytes: Seq<u8>) -> nat
    decreases bytes.len(),
{
    if bytes.len() == 0 {
        0
    } else {
        let t: nat = carry_sum(bytes.drop_last()) + bytes.last() as nat;
        if t > 0xFF {
            (t - 0xFF) as nat
        } else {
            t
        }
    }
}

/// A LIN frame (identifier + up to [`LIN_MAX_DLC`] data bytes).
#[derive(Debug, Clone, Copy, PartialEq, Eq)]
pub struct LinFrame {
    id: LinId,
    data: [u8; 8],
    len: u8,
}

impl LinFrame {
    /// The frame identifier.
    pub closed spec fn frame_id(self) -> LinId {
        self.id
    }

    /// The declared payload length.
    pub closed spec fn dlc(self) -> nat {
        self.len as nat
    }

    /// The payload bytes (meaningful when `dlc() <= 8`).
    pub closed spec fn payload(self) -> Seq<u8> {
        self.data@.take(self.len as int)
    }

    /// Constructs a LIN frame; `None` if `data` exceeds [`LIN_MAX_DLC`].
    pub fn new(id: LinId, data: &[u8]) -> (r: Option<LinFrame>)
        ensures
            r is Some <==> data@.len() <= LIN_MAX_DLC,
            r matches Some(f) ==> f.frame_id() == id && f.dlc() == data@.len() && f.payload() == data@,
    {
        if data.len() > LIN_MAX_DLC {
            return None;
        }
        let mut buf = [0u8; 8];
        let mut i: usize = 0;
        while i < data.len()
            invariant
                i <= data@.len(),
                data@.len() <= 8,
                buf@.take(i as int) == data@.take(i as int),
            decreases data@.len() - i,
        {
            buf[i] = data[i];
            i = i + 1;
            assert(buf@.take(i as int) =~= data@.take(i as int));
        }
        assert(data@.take(i as int) =~= data@);
        Some(LinFrame { id, data: buf, len: data.len() as u8 })
    }

    /// Returns the frame identifier.
    pub fn id(&self) -> (r: LinId)
        ensures
            r == self.frame_id(),
    {
        self.id
    }

    /// Returns the payload bytes.
    pub fn data(&self) -> (r: &[u8])
        requires
            self.dlc() <= LIN_MAX_DLC,
        ensures
            r@ == self.payload(),
            r@.len() == self.dlc(),
    {
        slice_subrange(self.data.as_slice(), 0, self.len as usize)
    }

    /// Computes the classic LIN checksum (identifier not included): the
    /// inverted carry sum of the payload.
    pub fn checksum(&self) -> (r: u8)
        requires
            self.dlc() <= LIN_MAX_DLC,
        ensures
            r == 0xFF - carry_sum(self.payload()),
    {
        let data = self.data();
        let mut sum: u16 = 0;
        let mut i: usize = 0;
        while i < data.len()
            invariant
                i <= data@.len(),
                sum as nat == carry_sum(data@.take(i as int)),
                sum <= 0xFF,
            decreases data@.len() - i,
        {
            assert(data@.take(i + 1).drop_last() =~= data@.take(i as int));
            sum += data[i] as u16;
            if sum > 0xFF {
                sum -= 0xFF;
            }
            i = i + 1;
        }
        assert(data@.take(i as int) =~= data@);
        let low = sum as u8;
        assert(!low == 0xFF - low) by (bit_vector);
        !low
    }

    /// Constructs a `LinFrame` from raw parts without validation, so that
    /// validation can be exercised on out-of-range inputs.
    pub fn from_raw(id: LinId, data: [u8; 8], len: u8) -> (r: LinFrame)
        ensures
            r.frame_id() == id,
            r.dlc() == len,
            r.payload() == data@.take(len as int),
    {
        LinFrame { id, data, len }
    }
}

impl Frame for LinFrame {
    type Id = LinId;

    open spec fn frame_len(&self) -> nat {
        self.dlc()
    }

    open spec fn ident(&self) -> LinId {
        self.frame_id()
    }

    fn id(&self) -> (r: LinId) {
        self.id
    }

    fn len(&self) -> (r: usize) {
        self.len as usize
    }
}

/// Low-level LIN transceiver (driver or simulator backend).
pub trait LinTransceiver: Sized {
    /// Whether `after` and `r` are a possible outcome of sending `frame` from
    /// this state. By default any outcome is possible.
    open spec fn sends(&self, frame: LinFrame, after: Self, r: Result<(), BusError>) -> bool {
        true
    }

    /// Whether `after` and `r` are a possible outcome of receiving from this
    /// state. By default any outcome is possible.
    open spec fn receives(&self, after: Self, r: Result<LinFrame, BusError>) -> bool {
        true
    }

    /// Whether a received item is pending. Implementations describe it; the
    /// default names no particular answer.
    open spec fn pending(&self) -> bool {
        arbitrary()
    }

    /// Whether a transmission is accepted now. Implementations describe it;
    /// the default names no particular answer.
    open spec fn ready(&self) -> bool {
        arbitrary()
    }

    /// Whether this node is the LIN master. Implementations describe it; the
    /// default names no particular answer.
    open spec fn master(&self) -> bool {
        arbitrary()
    }

    /// `true` for a master node (may schedule/transmit headers).
    fn is_master(&self) -> (r: bool)
        ensures
            r == self.master(),
    ;

    /// Sends a LIN frame.
    fn send(&mut self, frame: LinFrame) -> (r: Result<(), BusError>)
        ensures
            old(self).sends(frame, *final(self), r),
    ;

    /// Receives the next buffered frame, if any.
    fn recv(&mut self) -> (r: Result<LinFrame, BusError>)
        ensures
            old(self).receives(*final(self), r),
    ;

    /// `true` if a received item is pending.
    fn has_received(&self) -> (r: bool)
        ensures
            r == self.pending(),
    ;

    /// `true` if the transceiver can accept a transmission now.
    fn can_send(&self) -> (r: bool)
        ensures
            r == self.ready(),
    ;
}

/// High-level LIN interface implementing the unified [`VehicleBus`] trait.
pub struct LinBus<T: LinTransceiver> {
    transceiver: T,
}

impl<T: LinTransceiver> LinBus<T> {
    /// The wrapped transceiver.
    pub closed spec fn inner(&self) -> T {
        self.transceiver
    }

    /// Wraps a [`LinTransceiver`] as a [`LinBus`].
    pub fn new(transceiver: T) -> (r: Self)
        ensures
            r.inner() == transceiver,
    {
        LinBus { transceiver }
    }

    /// Returns a reference to the underlying transceiver.
    pub fn transceiver(&self) -> (r: &T)
        ensures
            *r == self.inner(),
    {
        &self.transceiver
    }

    /// Returns a mutable reference to the underlying transceiver.
    pub fn transceiver_mut(&mut self) -> (r: &mut T)
        ensures
            *r == old(self).inner(),
            final(self).inner() == *final(r),
    {
        &mut self.transceiver
    }

    /// Returns `true` if the underlying node is the LIN master.
    pub fn is_master(&self) -> (r: bool)
        ensures
            r == self.inner().master(),
    {
        self.transceiver.is_master()
    }
}

/// LIN frames that meet LIN constraints.
pub open spec fn lin_frame_valid(f: LinFrame) -> bool {
    f.dlc() <= LIN_MAX_DLC
}

/// Validates a LIN frame against LIN constraints.
pub fn validate_frame(frame: &LinFrame) -> (r: Result<(), Error>)
    ensures
        r == if lin_frame_valid(*frame) { Ok::<(), Error>(()) } else { Err::<(), Error>(Error::InvalidArgument) },
{
    if frame.len as usize > LIN_MAX_DLC {
        return Err(Error::InvalidArgument);
    }
    Ok(())
}

impl<T: LinTransceiver> VehicleBus for LinBus<T> {
    type Frame = LinFrame;

    /// Validates the frame, then hands it to the transceiver; an invalid frame
    /// is rejected with [`BusError::InvalidFrame`] before the transceiver sees it.
    fn transmit(&mut self, frame: LinFrame) -> (r: Result<(), BusError>)
        ensures
            !lin_frame_valid(frame) ==> r == Err::<(), BusError>(BusError::InvalidFrame)
                && final(self).inner() == old(self).inner(),
            lin_frame_valid(frame) ==> old(self).inner().sends(frame, final(self).inner(), r),
    {
        match validate_frame(&frame) {
            Ok(()) => {},
            Err(e) => return Err(invalid_frame_err(e)),
        }
        self.transceiver.send(frame)
    }

    fn receive(&mut self) -> (r: Result<LinFrame, BusError>)
        ensures
            old(self).inner().receives(final(self).inner(), r),
    {
        self.transceiver.recv()
    }

    fn can_receive(&self) -> (r: bool)
        ensures
            r == self.inner().pending(),
    {
        self.transceiver.has_received()
    }

    fn can_transmit(&self) -> (r: bool)
        ensures
            r == self.inner().ready(),
    {
        self.transceiver.can_send()
    }
}

} // verus!
