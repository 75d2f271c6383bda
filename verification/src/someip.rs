//! SOME/IP protocol support over Ethernet.
//!
//! The SOME/IP header ([`SomeIpHeader`]), the message container
//! ([`SomeIpMessage`]), a [`SomeIpTransceiver`] backend trait and the
//! [`SomeIpBus`] wrapper implementing the unified [`VehicleBus`] trait.
use vstd::prelude::*;
use vstd::slice::slice_subrange;
use crate::bus::{BusError, Frame, VehicleBus};
use crate::error::Error;
use crate::wire::{be32, from_be32, get_be32, put_be32};

verus! {

/// SOME/IP protocol version (fixed at 1).
pub const SOMEIP_PROTOCOL_VERSION: u8 = 0x01;

/// Size of the fixed SOME/IP header in bytes.
pub const SOMEIP_HEADER_LEN: usize = 16;

/// Maximum SOME/IP payload length in bytes.
pub const SOMEIP_MAX_PAYLOAD: usize = 1024;

/// SOME/IP message types.
#[derive(Debug, Clone, Copy, PartialEq, Eq, Structural)]
#[non_exhaustive]
pub enum SomeIpMessageType {
    /// Request (client -> server, expects response).
    Request,
    /// Request (fire & forget, no response expected).
    RequestNoReturn,
    /// Notification (server -> client event).
    Notification,
    /// Response (server -> client).
    Response,
    /// Error response.
    Error,
}

/// Wire value of a message type.
pub open spec fn message_type_code(t: SomeIpMessageType) -> u8 {
    match t {
        SomeIpMessageType::Request => 0x00,
        SomeIpMessageType::RequestNoReturn => 0x01,
        SomeIpMessageType::Notification => 0x02,
        SomeIpMessageType::Response => 0x80,
        SomeIpMessageType::Error => 0x81,
    }
}

/// The message type a wire value names, if any.
pub open spec fn message_type_of(v: u8) -> Option<SomeIpMessageType> {
    if v == 0x00 {
        Some(SomeIpMessageType::Request)
    } else if v == 0x01 {
        Some(SomeIpMessageType::RequestNoReturn)
    } else if v == 0x02 {
        Some(SomeIpMessageType::Notification)
    } else if v == 0x80 {
        Some(SomeIpMessageType::Response)
    } else if v == 0x81 {
        Some(SomeIpMessageType::Error)
    } else {
        None
    }
}

impl SomeIpMessageType {
    /// Encodes the message type as its wire value.
    pub fn to_u8(self) -> (r: u8)
        ensures
            r == message_type_code(self),
    {
        match self {
            SomeIpMessageType::Request => 0x00,
            SomeIpMessageType::RequestNoReturn => 0x01,
            SomeIpMessageType::Notification => 0x02,
            SomeIpMessageType::Response => 0x80,
            SomeIpMessageType::Error => 0x81,
        }
    }

    /// Decodes a wire value, returning `None` for unknown types.
    pub fn from_u8(v: u8) -> (r: Option<SomeIpMessageType>)
        ensures
            r == message_type_of(v),
    {
        match v {
            0x00 => Some(SomeIpMessageType::Request),
            0x01 => Some(SomeIpMessageType::RequestNoReturn),
            0x02 => Some(SomeIpMessageType::Notification),
            0x80 => Some(SomeIpMessageType::Response),
            0x81 => Some(SomeIpMessageType::Error),
            _ => None,
        }
    }
}

/// SOME/IP return codes.
#[derive(Debug, Clone, Copy, PartialEq, Eq, Structural)]
#[non_exhaustive]
pub enum SomeIpReturnCode {
    /// Success.
    EOk,
    /// Unknown service / method.
    NotOk,
    /// Wrong protocol version.
    WrongProtocolVersion,
}

/// Wire value of a return code.
pub open spec fn return_code_value(c: SomeIpReturnCode) -> u8 {
    match c {
        SomeIpReturnCode::EOk => 0x00,
        SomeIpReturnCode::NotOk => 0x01,
        SomeIpReturnCode::WrongProtocolVersion => 0x02,
    }
}

/// The return code a wire value names, if any.
pub open spec fn return_code_of(v: u8) -> Option<SomeIpReturnCode> {
    if v == 0x00 {
        Some(SomeIpReturnCode::EOk)
    } else if v == 0x01 {
        Some(SomeIpReturnCode::NotOk)
    } else if v == 0x02 {
        Some(SomeIpReturnCode::WrongProtocolVersion)
    } else {
        None
    }
}

/// Message types and return codes decode from their own wire values, and a
/// wire value that decodes is the code of what it decodes to.
pub proof fn lemma_codes_round_trip(t: SomeIpMessageType, c: SomeIpReturnCode, v: u8)
    ensures
        message_type_of(message_type_code(t)) == Some(t),
        return_code_of(return_code_value(c)) == Some(c),
        message_type_of(v) matches Some(u) ==> message_type_code(u) == v,
        return_code_of(v) matches Some(d) ==> return_code_value(d) == v,
{
}

impl SomeIpReturnCode {
    /// Encodes the return code as its wire value.
    pub fn to_u8(self) -> (r: u8)
        ensures
            r == return_code_value(self),
    {
        match self {
            SomeIpReturnCode::EOk => 0x00,
            SomeIpReturnCode::NotOk => 0x01,
            SomeIpReturnCode::WrongProtocolVersion => 0x02,
        }
    }

    /// Decodes a wire value, returning `None` for unknown codes.
    pub fn from_u8(v: u8) -> (r: Option<SomeIpReturnCode>)
        ensures
            r == return_code_of(v),
    {
        match v {
            0x00 => Some(SomeIpReturnCode::EOk),
            0x01 => Some(SomeIpReturnCode::NotOk),
            0x02 => Some(SomeIpReturnCode::WrongProtocolVersion),
            _ => None,
        }
    }
}

/// Two 16-bit halves packed into a 32-bit value, high half first.
pub open spec fn pack16(hi: u16, lo: u16) -> u32 {
    ((hi as u32) << 16u32) | (lo as u32)
}

/// The high half of a 32-bit value.
pub open spec fn high16(v: u32) -> u16 {
    (v >> 16u32) as u16
}

/// The low half of a 32-bit value.
pub open spec fn low16(v: u32) -> u16 {
    (v & 0xFFFFu32) as u16
}

/// Packing two halves and splitting them again gives the halves back, and
/// splitting a value and packing its halves gives the value back.
pub proof fn lemma_pack16_round_trip(hi: u16, lo: u16, v: u32)
    ensures
        high16(pack16(hi, lo)) == hi,
        low16(pack16(hi, lo)) == lo,
        pack16(high16(v), low16(v)) == v,
{
    assert(((((hi as u32) << 16u32) | (lo as u32)) >> 16u32) as u16 == hi) by (bit_vector);
    assert(((((hi as u32) << 16u32) | (lo as u32)) & 0xFFFFu32) as u16 == lo) by (bit_vector);
    assert((((v >> 16u32) as u16 as u32) << 16u32) | ((v & 0xFFFFu32) as u16 as u32) == v) by (bit_vector);
}

/// A SOME/IP message identifier (Service ID + Method/Event ID).
#[derive(Debug, Clone, Copy, PartialEq, Eq, Structural)]
pub struct SomeIpMessageId {
    /// Service identifier (16 bits).
    pub service: u16,
    /// Method or event identifier (16 bits).
    pub method: u16,
}

impl SomeIpMessageId {
    /// Packs the message ID into its 32-bit wire representation.
    pub fn to_u32(self) -> (r: u32)
        ensures
            r == pack16(self.service, self.method),
    {
        ((self.service as u32) << 16u32) | (self.method as u32)
    }

    /// Unpacks a 32-bit wire value into a message ID.
    pub fn from_u32(v: u32) -> (r: Self)
        ensures
            r == (SomeIpMessageId { service: high16(v), method: low16(v) }),
    {
        SomeIpMessageId { service: (v >> 16u32) as u16, method: (v & 0xFFFFu32) as u16 }
    }
}

/// A SOME/IP request identifier (Client ID + Session ID).
#[derive(Debug, Clone, Copy, PartialEq, Eq, Structural)]
pub struct SomeIpRequestId {
    /// Client identifier (16 bits).
    pub client: u16,
    /// Session identifier (16 bits), incremented per request.
    pub session: u16,
}

impl SomeIpRequestId {
    /// Packs the request ID into its 32-bit wire representation.
    pub fn to_u32(self) -> (r: u32)
        ensures
            r == pack16(self.client, self.session),
    {
        ((self.client as u32) << 16u32) | (self.session as u32)
    }

    /// Unpacks a 32-bit wire value into a request ID.
    pub fn from_u32(v: u32) -> (r: Self)
        ensures
            r == (SomeIpRequestId { client: high16(v), session: low16(v) }),
    {
        SomeIpRequestId { client: (v >> 16u32) as u16, session: (v & 0xFFFFu32) as u16 }
    }
}

/// A SOME/IP header (fixed 16-byte layout, big-endian on the wire).
#[derive(Debug, Clone, Copy, PartialEq, Eq, Structural)]
pub struct SomeIpHeader {
    /// Message ID (service + method/event).
    pub message_id: SomeIpMessageId,
    /// Request ID (client + session).
    pub request_id: SomeIpRequestId,
    /// Interface version.
    pub interface_version: u8,
    /// Message type.
    pub message_type: SomeIpMessageType,
    /// Return code.
    pub return_code: SomeIpReturnCode,
}

/// The wire bytes of a header, with `length` (4 bytes) in the length field.
pub open spec fn header_wire(h: SomeIpHeader, length: Seq<u8>) -> Seq<u8> {
    be32(pack16(h.message_id.service, h.message_id.method)) + length + be32(
        pack16(h.request_id.client, h.request_id.session),
    ) + seq![SOMEIP_PROTOCOL_VERSION, h.interface_version, message_type_code(h.message_type),
        return_code_value(h.return_code)]
}

/// The header that the first 16 bytes of `b` describe, if any.
pub open spec fn decoded_header(b: Seq<u8>) -> Option<SomeIpHeader> {
    if b.len() < 16 {
        None
    } else {
        match (message_type_of(b[14]), return_code_of(b[15])) {
            (Some(t), Some(c)) => Some(SomeIpHeader {
                message_id: SomeIpMessageId {
                    service: high16(from_be32(b[0], b[1], b[2], b[3])),
                    method: low16(from_be32(b[0], b[1], b[2], b[3])),
                },
                request_id: SomeIpRequestId {
                    client: high16(from_be32(b[8], b[9], b[10], b[11])),
                    session: low16(from_be32(b[8], b[9], b[10], b[11])),
                },
                interface_version: b[13],
                message_type: t,
                return_code: c,
            }),
            _ => None,
        }
    }
}

impl SomeIpHeader {
    /// Returns the on-wire length field for a payload of `payload_len` bytes:
    /// the Request ID (4) + the 4 header bytes after it + payload.
    pub fn length_field(payload_len: usize) -> (r: u32)
        requires
            (payload_len as u32) <= u32::MAX - 8,
        ensures
            r == 8 + (payload_len as u32),
    {
        4 + 4 + payload_len as u32
    }

    /// Writes every header byte except the length field (bytes 4..8).
    fn put(&self, out: &mut [u8])
        requires
            old(out)@.len() >= SOMEIP_HEADER_LEN,
        ensures
            final(out)@ == header_wire(*self, old(out)@.subrange(4, 8)) + old(out)@.skip(16),
    {
        put_be32(out, 0, self.message_id.to_u32());
        put_be32(out, 8, self.request_id.to_u32());
        out[12] = SOMEIP_PROTOCOL_VERSION;
        out[13] = self.interface_version;
        out[14] = self.message_type.to_u8();
        out[15] = self.return_code.to_u8();
        assert(final(out)@ =~= header_wire(*self, old(out)@.subrange(4, 8)) + old(out)@.skip(16));
    }

    /// Encodes the header into `out`; the length field (bytes 4..8) is left
    /// for the message encoder. Returns `None` if `out` is shorter than
    /// [`SOMEIP_HEADER_LEN`].
    pub fn encode(&self, out: &mut [u8]) -> (r: Option<()>)
        ensures
            old(out)@.len() < SOMEIP_HEADER_LEN ==> r is None && final(out)@ == old(out)@,
            old(out)@.len() >= SOMEIP_HEADER_LEN ==> r is Some && final(out)@ == header_wire(
                *self,
                old(out)@.subrange(4, 8),
            ) + old(out)@.skip(16),
    {
        if out.len() < SOMEIP_HEADER_LEN {
            return None;
        }
        self.put(out);
        Some(())
    }

    /// Decodes a header from `bytes` (at least [`SOMEIP_HEADER_LEN`] bytes).
    pub fn decode(bytes: &[u8]) -> (r: Option<SomeIpHeader>)
        ensures
            r == decoded_header(bytes@),
    {
        if bytes.len() < SOMEIP_HEADER_LEN {
            return None;
        }
        let message_id = SomeIpMessageId::from_u32(get_be32(bytes, 0));
        let request_id = SomeIpRequestId::from_u32(get_be32(bytes, 8));
        let message_type = SomeIpMessageType::from_u8(bytes[14])?;
        let return_code = SomeIpReturnCode::from_u8(bytes[15])?;
        Some(SomeIpHeader { message_id, request_id, interface_version: bytes[13], message_type, return_code })
    }
}

/// A header survives the wire: decoding its encoding gives it back, whatever
/// the length field and the bytes that follow hold.
pub proof fn lemma_header_round_trip(h: SomeIpHeader, length: Seq<u8>, rest: Seq<u8>)
    requires
        length.len() == 4,
    ensures
        decoded_header(header_wire(h, length) + rest) == Some(h),
{
    let b = header_wire(h, length) + rest;
    let m = pack16(h.message_id.service, h.message_id.method);
    let q = pack16(h.request_id.client, h.request_id.session);
    crate::wire::lemma_be32_round_trip(m);
    crate::wire::lemma_be32_round_trip(q);
    lemma_pack16_round_trip(h.message_id.service, h.message_id.method, m);
    lemma_pack16_round_trip(h.request_id.client, h.request_id.session, q);
    assert(b[0] == be32(m)[0] && b[1] == be32(m)[1] && b[2] == be32(m)[2] && b[3] == be32(m)[3]);
    assert(b[8] == be32(q)[0] && b[9] == be32(q)[1] && b[10] == be32(q)[2] && b[11] == be32(q)[3]);
    assert(b[13] == h.interface_version);
    assert(b[14] == message_type_code(h.message_type));
    assert(b[15] == return_code_value(h.return_code));
}

/// A complete SOME/IP message (header + payload of at most
/// [`SOMEIP_MAX_PAYLOAD`] bytes, stored inline).
#[derive(Debug, Clone, Copy, PartialEq, Eq)]
pub struct SomeIpMessage {
    header: SomeIpHeader,
    payload: [u8; 1024],
    payload_len: u16,
}

/// The wire bytes of a message: header with its length field, then payload.
pub open spec fn message_wire(h: SomeIpHeader, payload: Seq<u8>) -> Seq<u8> {
    header_wire(h, be32((8 + payload.len()) as u32)) + payload
}

/// The header and payload that `b` carries as a message, if any: a decodable
/// header, a declared length of at least 8 that `b` holds, a protocol version
/// of 1 for requests, and a payload of at most [`SOMEIP_MAX_PAYLOAD`] bytes.
pub open spec fn decoded_message(b: Seq<u8>) -> Option<(SomeIpHeader, Seq<u8>)> {
    match decoded_header(b) {
        None => None,
        Some(h) => {
            let declared = from_be32(b[4], b[5], b[6], b[7]) as nat;
            if declared < 8 || b.len() < 16 + (declared - 8) {
                None
            } else if h.message_type == SomeIpMessageType::Request && b[12] != SOMEIP_PROTOCOL_VERSION {
                None
            } else if declared - 8 > SOMEIP_MAX_PAYLOAD {
                None
            } else {
                Some((h, b.subrange(16, 16 + (declared - 8))))
            }
        },
    }
}

impl SomeIpMessage {
    /// A message as the library builds it: the payload is within the inline
    /// capacity and every inline byte past it is zero, so the header and the
    /// payload bytes determine the whole value.
    pub closed spec fn well_formed(&self) -> bool {
        &&& self.payload_len <= 1024
        &&& forall|i: int| self.payload_len <= i < 1024 ==> #[trigger] self.payload@[i] == 0
    }

    /// Every message is well formed.
    #[verifier::type_invariant]
    spec fn inv(&self) -> bool {
        self.well_formed()
    }

    /// The header.
    pub closed spec fn spec_header(&self) -> SomeIpHeader {
        self.header
    }

    /// The payload bytes.
    pub closed spec fn payload_bytes(&self) -> Seq<u8> {
        self.payload@.take(self.payload_len as int)
    }

    /// Builds a message from a header and payload slice; `None` if the
    /// payload exceeds [`SOMEIP_MAX_PAYLOAD`].
    pub fn new(header: SomeIpHeader, payload: &[u8]) -> (r: Option<SomeIpMessage>)
        ensures
            r is Some <==> payload@.len() <= SOMEIP_MAX_PAYLOAD,
            r matches Some(m) ==> m.spec_header() == header && m.payload_bytes() == payload@
                && m.well_formed(),
    {
        if payload.len() > SOMEIP_MAX_PAYLOAD {
            return None;
        }
        let mut buf = [0u8; 1024];
        let mut i: usize = 0;
        while i < payload.len()
            invariant
                i <= payload@.len(),
                payload@.len() <= 1024,
                buf@.take(i as int) == payload@.take(i as int),
                forall|j: int| i <= j < 1024 ==> #[trigger] buf@[j] == 0,
            decreases payload@.len() - i,
        {
            buf[i] = payload[i];
            i = i + 1;
            assert(buf@.take(i as int) =~= payload@.take(i as int));
        }
        assert(payload@.take(i as int) =~= payload@);
        Some(SomeIpMessage { header, payload: buf, payload_len: payload.len() as u16 })
    }

    /// Returns the header.
    pub fn header(&self) -> (r: SomeIpHeader)
        ensures
            r == self.spec_header(),
    {
        self.header
    }

    /// Returns the payload bytes.
    pub fn payload(&self) -> (r: &[u8])
        ensures
            r@ == self.payload_bytes(),
    {
        proof {
            use_type_invariant(self);
        }
        slice_subrange(self.payload.as_slice(), 0, self.payload_len as usize)
    }

    /// Encodes the full message (header + payload) into `out`, returning its
    /// length; `None` if `out` is too small. The length field is written here.
    pub fn encode(&self, out: &mut [u8]) -> (r: Option<usize>)
        ensures
            old(out)@.len() < 16 + self.payload_bytes().len() ==> r is None && final(out)@ == old(out)@,
            old(out)@.len() >= 16 + self.payload_bytes().len() ==> r == Some((16 + self.payload_bytes().len()) as usize)
                && final(out)@ == message_wire(self.spec_header(), self.payload_bytes()) + old(out)@.skip(
                16 + self.payload_bytes().len() as int,
            ),
    {
        proof {
            use_type_invariant(self);
        }
        let len = self.payload_len as usize;
        let total = SOMEIP_HEADER_LEN + len;
        if out.len() < total {
            return None;
        }
        let length = SomeIpHeader::length_field(len);
        put_be32(out, 4, length);
        let ghost with_length = out@;
        self.header.put(out);
        assert(with_length.subrange(4, 8) =~= be32(length));
        let mut i: usize = 0;
        while i < len
            invariant
                i <= len,
                len == self.payload_len,
                len <= 1024,
                total == 16 + len,
                out@.len() == old(out)@.len(),
                total <= out@.len(),
                out@ == header_wire(self.header, be32(length)) + self.payload@.take(i as int)
                    + old(out)@.skip(16 + i),
            decreases len - i,
        {
            out[16 + i] = self.payload[i];
            i = i + 1;
            assert(out@ =~= header_wire(self.header, be32(length)) + self.payload@.take(i as int)
                + old(out)@.skip(16 + i));
        }
        Some(total)
    }

    /// Decodes a full message from `bytes`, validating the declared length
    /// against the buffer and rejecting requests that do not carry protocol
    /// version 1.
    pub fn decode(bytes: &[u8]) -> (r: Option<SomeIpMessage>)
        ensures
            match decoded_message(bytes@) {
                None => r is None,
                Some((h, p)) => r matches Some(m) && m.spec_header() == h && m.payload_bytes() == p
                    && m.well_formed(),
            },
    {
        if bytes.len() < SOMEIP_HEADER_LEN {
            return None;
        }
        let header = SomeIpHeader::decode(bytes)?;
        let declared_len = get_be32(bytes, 4) as usize;
        let declared_payload = declared_len.checked_sub(8)?;
        if declared_payload > bytes.len() - SOMEIP_HEADER_LEN {
            return None;
        }
        let expected_total = SOMEIP_HEADER_LEN + declared_payload;
        if header.message_type == SomeIpMessageType::Request && bytes[12] != SOMEIP_PROTOCOL_VERSION {
            return None;
        }
        let payload = slice_subrange(bytes, SOMEIP_HEADER_LEN, expected_total);
        SomeIpMessage::new(header, payload)
    }
}

/// A message survives the wire: decoding the encoding of a header and a
/// payload of at most [`SOMEIP_MAX_PAYLOAD`] bytes gives both back, whatever
/// bytes follow the message.
pub proof fn lemma_message_round_trip(h: SomeIpHeader, payload: Seq<u8>, rest: Seq<u8>)
    requires
        payload.len() <= SOMEIP_MAX_PAYLOAD,
    ensures
        decoded_message(message_wire(h, payload) + rest) == Some((h, payload)),
{
    let length = be32((8 + payload.len()) as u32);
    let b = message_wire(h, payload) + rest;
    assert(b =~= header_wire(h, length) + (payload + rest));
    lemma_header_round_trip(h, length, payload + rest);
    crate::wire::lemma_be32_round_trip((8 + payload.len()) as u32);
    assert(b[4] == length[0] && b[5] == length[1] && b[6] == length[2] && b[7] == length[3]);
    assert(b[12] == SOMEIP_PROTOCOL_VERSION);
    assert(b.subrange(16, 16 + payload.len() as int) =~= payload);
}

/// A well-formed message is determined by its header and payload bytes: two
/// that agree on both are the same value. With [`lemma_message_round_trip`]
/// and the contracts of `encode` and `decode`, decoding what `encode` wrote
/// gives back the very message that was encoded.
pub proof fn lemma_message_determined(a: SomeIpMessage, b: SomeIpMessage)
    requires
        a.well_formed(),
        b.well_formed(),
        a.spec_header() == b.spec_header(),
        a.payload_bytes() == b.payload_bytes(),
    ensures
        a == b,
{
    assert(a.payload_len == b.payload_len) by {
        assert(a.payload_bytes().len() == a.payload_len);
        assert(b.payload_bytes().len() == b.payload_len);
    }
    assert forall|i: int| 0 <= i < 1024 implies a.payload[i] == b.payload[i] by {
        if i < a.payload_len {
            assert(a.payload_bytes()[i] == a.payload@[i]);
            assert(b.payload_bytes()[i] == b.payload@[i]);
        } else {
            assert(a.payload@[i] == 0);
            assert(b.payload@[i] == 0);
        }
    }
    broadcast use vstd::array::axiom_array_ext_equal;
    assert(a.payload =~= b.payload);
}

impl Frame for SomeIpMessage {
    type Id = SomeIpMessageId;

    closed spec fn frame_len(&self) -> nat {
        16 + self.payload_len as nat
    }

    open spec fn ident(&self) -> SomeIpMessageId {
        self.spec_header().message_id
    }

    fn id(&self) -> (r: SomeIpMessageId) {
        self.header.message_id
    }

    fn len(&self) -> (r: usize) {
        SOMEIP_HEADER_LEN + self.payload_len as usize
    }
}

/// Low-level SOME/IP transceiver (socket or simulator backend).
pub trait SomeIpTransceiver: Sized {
    /// Whether `after` and `r` are a possible outcome of sending `message` from
    /// this state. By default any outcome is possible.
    open spec fn sends(&self, message: SomeIpMessage, after: Self, r: Result<(), BusError>) -> bool {
        true
    }

    /// Whether `after` and `r` are a possible outcome of receiving from this
    /// state. By default any outcome is possible.
    open spec fn receives(&self, after: Self, r: Result<SomeIpMessage, BusError>) -> bool {
        true
    }

    /// Whether a received item is pending. Implementations describe it; the
    /// default names no particular answer.
    open spec fn pending(&self) -> bool {
        arbitrary()
    }

    /// Whether a transmission is accepted now. Implementations describe it;
    /// the default names no particular answer.
    open spec fn ready(&self) -> bool {
        arbitrary()
    }

    /// Sends a SOME/IP message.
    fn send(&mut self, message: SomeIpMessage) -> (r: Result<(), BusError>)
        ensures
            old(self).sends(message, *final(self), r),
    ;

    /// Receives the next buffered message, if any.
    fn recv(&mut self) -> (r: Result<SomeIpMessage, BusError>)
        ensures
            old(self).receives(*final(self), r),
    ;

    /// `true` if a received item is pending.
    fn has_received(&self) -> (r: bool)
        ensures
            r == self.pending(),
    ;

    /// `true` if the transceiver can accept a transmission now.
    fn can_send(&self) -> (r: bool)
        ensures
            r == self.ready(),
    ;
}

/// High-level SOME/IP interface implementing the unified [`VehicleBus`] trait.
pub struct SomeIpBus<T: SomeIpTransceiver> {
    transceiver: T,
}

impl<T: SomeIpTransceiver> SomeIpBus<T> {
    /// The wrapped transceiver.
    pub closed spec fn inner(&self) -> T {
        self.transceiver
    }

    /// Wraps a [`SomeIpTransceiver`] as a [`SomeIpBus`].
    pub fn new(transceiver: T) -> (r: Self)
        ensures
            r.inner() == transceiver,
    {
        SomeIpBus { transceiver }
    }
}

impl<T: SomeIpTransceiver> VehicleBus for SomeIpBus<T> {
    type Frame = SomeIpMessage;

    /// Hands the message to the transceiver unchanged.
    fn transmit(&mut self, frame: SomeIpMessage) -> (r: Result<(), BusError>)
        ensures
            old(self).inner().sends(frame, final(self).inner(), r),
    {
        self.transceiver.send(frame)
    }

    fn receive(&mut self) -> (r: Result<SomeIpMessage, BusError>)
        ensures
            old(self).inner().receives(final(self).inner(), r),
    {
        self.transceiver.recv()
    }

    fn can_receive(&self) -> (r: bool)
        ensures
            r == self.inner().pending(),
    {
        self.transceiver.has_received()
    }

    fn can_transmit(&self) -> (r: bool)
        ensures
            r == self.inner().ready(),
    {
        self.transceiver.can_send()
    }
}

/// Messages that meet the protocol constraints: a request names a non-zero
/// service.
pub open spec fn message_valid(h: SomeIpHeader) -> bool {
    !(h.message_type == SomeIpMessageType::Request && h.message_id.service == 0)
}

/// Validates a SOME/IP message against protocol constraints.
pub fn validate_message(message: &SomeIpMessage) -> (r: Result<(), Error>)
    ensures
        r == if message_valid(message.spec_header()) {
            Ok::<(), Error>(())
        } else {
            Err::<(), Error>(Error::InvalidArgument)
        },
{
    proof {
        use_type_invariant(message);
    }
    if message.payload_len as usize > SOMEIP_MAX_PAYLOAD {
        return Err(Error::InvalidArgument);
    }
    if message.header.message_type == SomeIpMessageType::Request && message.header.message_id.service == 0 {
        return Err(Error::InvalidArgument);
    }
    Ok(())
}

} // verus!
