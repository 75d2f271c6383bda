//! Unified vehicle bus abstraction.
//!
//! [`VehicleBus`] is the transport-agnostic surface that CAN, CAN FD, LIN and
//! SOME/IP all implement, and [`Frame`] is the contract every frame type meets.
use vstd::prelude::*;
use vstd::string::*;
use crate::error::Error;

verus! {

/// A single frame exchanged over a vehicle bus.
///
/// Frames are `Copy` so they can be broadcast and queued without allocation.
pub trait Frame: Copy {
    /// The type used to address the frame on its bus.
    type Id: Copy;

    /// Number of payload bytes, as a mathematical value.
    spec fn frame_len(&self) -> nat;

    /// The frame identifier, as a value.
    spec fn ident(&self) -> Self::Id;

    /// Returns the frame identifier (e.g. CAN arbitration ID).
    fn id(&self) -> (r: Self::Id)
        ensures
            r == self.ident(),
    ;

    /// Returns the number of payload bytes carried by the frame.
    fn len(&self) -> (r: usize)
        ensures
            r as nat == self.frame_len(),
    ;

    /// Returns `true` if the frame carries no payload bytes.
    fn is_empty(&self) -> (r: bool)
        ensures
            r == (self.frame_len() == 0),
    {
        self.len() == 0
    }
}

/// Errors specific to bus transport operations.
#[derive(Debug, Clone, Copy, PartialEq, Eq, Structural)]
#[non_exhaustive]
pub enum BusError {
    /// A generic core error (e.g. unsupported, resource exhausted).
    Core(Error),
    /// The transmit queue is full and the frame could not be enqueued.
    TxQueueFull,
    /// The receive queue is empty (no frame available to read).
    RxQueueEmpty,
    /// The supplied frame is not valid for this bus (e.g. bad ID or length).
    InvalidFrame,
    /// The bus is in a fault state and cannot currently transmit/receive.
    BusOff,
}

impl From<Error> for BusError {
    fn from(e: Error) -> (r: BusError)
        ensures
            r == BusError::Core(e),
    {
        BusError::Core(e)
    }
}

impl vstd::std_specs::convert::FromSpecImpl<Error> for BusError {
    open spec fn obeys_from_spec() -> bool {
        true
    }

    open spec fn from_spec(e: Error) -> BusError {
        BusError::Core(e)
    }
}

/// The text that describes each bus error.
pub open spec fn bus_error_message(e: BusError) -> Seq<char> {
    match e {
        BusError::Core(inner) => "bus: "@ + crate::error::error_message(inner),
        BusError::TxQueueFull => "bus: transmit queue full"@,
        BusError::RxQueueEmpty => "bus: receive queue empty"@,
        BusError::InvalidFrame => "bus: invalid frame"@,
        BusError::BusOff => "bus: bus-off fault state"@,
    }
}

impl BusError {
    /// Human-readable description of the error.
    pub fn message(&self) -> (r: String)
        ensures
            r@ == bus_error_message(*self),
    {
        match self {
            BusError::Core(e) => String::from_str("bus: ").concat(e.message()),
            BusError::TxQueueFull => String::from_str("bus: transmit queue full"),
            BusError::RxQueueEmpty => String::from_str("bus: receive queue empty"),
            BusError::InvalidFrame => String::from_str("bus: invalid frame"),
            BusError::BusOff => String::from_str("bus: bus-off fault state"),
        }
    }
}

/// A vehicle bus transport.
///
/// Code that sends or receives frames is written against this trait and works
/// across CAN, Ethernet and LIN alike.
pub trait VehicleBus {
    /// The frame type carried by this bus.
    type Frame: Frame;

    /// Transmits a single frame onto the bus.
    fn transmit(&mut self, frame: Self::Frame) -> Result<(), BusError>;

    /// Receives the next frame queued for this node, if any.
    fn receive(&mut self) -> Result<Self::Frame, BusError>;

    /// Returns `true` if at least one frame is waiting to be received.
    fn can_receive(&self) -> bool;

    /// Returns `true` if the bus is ready to accept a transmit.
    fn can_transmit(&self) -> bool;
}

} // verus!
