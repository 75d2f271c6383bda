//! OTA (over-the-air) update engine.
//!
//! An atomic A/B update engine: a new image is written to the inactive slot,
//! verified, and only then promoted. A two-byte persistent journal records
//! every irreversible step, so an interrupted update is always recoverable:
//! either the old image keeps running or the update is rolled back.
use vstd::prelude::*;
use vstd::string::*;
use crate::error::Error;
use crate::wire::{be32, from_be32};

verus! {

/// Magic bytes identifying an update package (`"TPT1"`).
pub const OTA_MAGIC: [u8; 4] = [0x54, 0x50, 0x54, 0x31];

/// Current update package format version.
pub const OTA_FORMAT_VERSION: u8 = 1;

/// Length of a signature in bytes.
pub const OTA_SIGNATURE_LEN: usize = 32;

/// Maximum payload size of an update package.
pub const OTA_MAX_PAYLOAD: usize = 4096;

/// Errors produced by the OTA engine.
#[derive(Debug, Clone, Copy, PartialEq, Eq, Structural)]
#[non_exhaustive]
pub enum OtaError {
    /// A generic core error.
    Core(Error),
    /// The package magic/format version is not recognized.
    BadPackage,
    /// The package signature did not verify.
    BadSignature,
    /// The package payload is too large for the buffer/slot.
    PayloadTooLarge,
    /// The candidate slot could not be written.
    WriteFailed,
    /// There is no candidate image to promote or test.
    NoCandidate,
    /// The update is in a state that forbids the requested operation.
    InvalidState,
    /// A storage backend error.
    Storage,
}

impl From<Error> for OtaError {
    fn from(e: Error) -> (r: OtaError)
        ensures
            r == OtaError::Core(e),
    {
        OtaError::Core(e)
    }
}

impl vstd::std_specs::convert::FromSpecImpl<Error> for OtaError {
    open spec fn obeys_from_spec() -> bool {
        true
    }

    open spec fn from_spec(e: Error) -> OtaError {
        OtaError::Core(e)
    }
}

/// The text that describes each OTA error.
pub open spec fn ota_error_message(e: OtaError) -> Seq<char> {
    match e {
        OtaError::Core(inner) => "ota: "@ + crate::error::error_message(inner),
        OtaError::BadPackage => "ota: unrecognized package"@,
        OtaError::BadSignature => "ota: signature verification failed"@,
        OtaError::PayloadTooLarge => "ota: payload too large"@,
        OtaError::WriteFailed => "ota: candidate write failed"@,
        OtaError::NoCandidate => "ota: no candidate image"@,
        OtaError::InvalidState => "ota: operation invalid in current state"@,
        OtaError::Storage => "ota: storage backend error"@,
    }
}

impl OtaError {
    /// Human-readable description of the error.
    pub fn message(&self) -> (r: String)
        ensures
            r@ == ota_error_message(*self),
    {
        match self {
            OtaError::Core(e) => String::from_str("ota: ").concat(e.message()),
            OtaError::BadPackage => String::from_str("ota: unrecognized package"),
            OtaError::BadSignature => String::from_str("ota: signature verification failed"),
            OtaError::PayloadTooLarge => String::from_str("ota: payload too large"),
            OtaError::WriteFailed => String::from_str("ota: candidate write failed"),
            OtaError::NoCandidate => String::from_str("ota: no candidate image"),
            OtaError::InvalidState => String::from_str("ota: operation invalid in current state"),
            OtaError::Storage => String::from_str("ota: storage backend error"),
        }
    }
}

/// Persistent update state for a slot pair (the journal).
#[derive(Debug, Clone, Copy, PartialEq, Eq, Structural)]
pub enum SlotState {
    /// Slot 0 is the active, running image.
    ActiveSlot0,
    /// Slot 1 is the active, running image.
    ActiveSlot1,
    /// A candidate image is staged in the inactive slot and pending a reboot.
    Pending {
        /// The slot holding the candidate (0 or 1).
        candidate: u8,
    },
    /// A candidate was promoted and is being health-tested.
    Testing {
        /// The slot now active and under test.
        active: u8,
        /// The slot to roll back to if the test fails.
        fallback: u8,
    },
}

/// Journal states whose slot numbers are 0 or 1.
pub open spec fn slot_state_wf(s: SlotState) -> bool {
    match s {
        SlotState::Pending { candidate } => candidate <= 1,
        SlotState::Testing { active, fallback } => active <= 1 && fallback <= 1,
        _ => true,
    }
}

/// Journal states on which the engine can compute the slot left running:
/// a pending candidate is slot 0 or 1.
pub open spec fn candidate_ok(s: SlotState) -> bool {
    s matches SlotState::Pending { candidate } ==> candidate <= 1
}

/// Whether `slot` holds an image the vehicle runs or falls back to in journal
/// state `s`: the active slot, or both slots when a pending candidate names no
/// slot.
pub open spec fn is_running_slot(s: SlotState, slot: u8) -> bool {
    match s {
        SlotState::ActiveSlot0 => slot == 0,
        SlotState::ActiveSlot1 => slot == 1,
        SlotState::Pending { candidate } => slot <= 1 && slot != candidate,
        SlotState::Testing { active, .. } => slot == active,
    }
}

/// The slot considered active in a journal state.
pub open spec fn active_slot_of(s: SlotState) -> u8 {
    match s {
        SlotState::ActiveSlot0 => 0,
        SlotState::ActiveSlot1 => 1,
        SlotState::Pending { candidate } => (1 - candidate) as u8,
        SlotState::Testing { active, .. } => active,
    }
}

/// The two journal bytes of a state.
pub open spec fn encoded_state(s: SlotState) -> Seq<u8> {
    match s {
        SlotState::ActiveSlot0 => seq![0x00u8, 0x00u8],
        SlotState::ActiveSlot1 => seq![0x00u8, 0x01u8],
        SlotState::Pending { candidate } => seq![0x01u8, candidate],
        SlotState::Testing { active, fallback } => seq![0x02u8, (active * 2 + fallback) as u8],
    }
}

/// The state two journal bytes describe, if any.
pub open spec fn decoded_state(b0: u8, b1: u8) -> Option<SlotState> {
    if b0 == 0x00 {
        if b1 == 0 {
            Some(SlotState::ActiveSlot0)
        } else if b1 == 1 {
            Some(SlotState::ActiveSlot1)
        } else {
            None
        }
    } else if b0 == 0x01 {
        if b1 <= 1 {
            Some(SlotState::Pending { candidate: b1 })
        } else {
            None
        }
    } else if b0 == 0x02 {
        if b1 / 2 <= 1 {
            Some(SlotState::Testing { active: b1 / 2, fallback: b1 % 2 })
        } else {
            None
        }
    } else {
        None
    }
}

/// The committed state in which `slot` runs.
pub open spec fn active_state(slot: u8) -> SlotState {
    if slot == 0 {
        SlotState::ActiveSlot0
    } else {
        SlotState::ActiveSlot1
    }
}

/// The journal after a boot-time recovery.
pub open spec fn recovered(s: SlotState) -> SlotState {
    match s {
        SlotState::Pending { candidate } => SlotState::Testing {
            active: candidate,
            fallback: (1 - candidate) as u8,
        },
        SlotState::Testing { fallback, .. } => active_state(fallback),
        other => other,
    }
}

impl SlotState {
    /// Returns the slot currently considered active/running.
    pub fn active_slot(&self) -> (r: u8)
        requires
            candidate_ok(*self),
        ensures
            r == active_slot_of(*self),
    {
        match self {
            SlotState::ActiveSlot0 => 0,
            SlotState::ActiveSlot1 => 1,
            SlotState::Pending { candidate } => 1 - *candidate,
            SlotState::Testing { active, .. } => *active,
        }
    }

    /// Encodes the state into 2 bytes for persistent storage.
    pub fn encode(&self) -> (r: [u8; 2])
        requires
            *self matches SlotState::Testing { active, fallback } ==> active * 2 + fallback <= 255,
        ensures
            r@ == encoded_state(*self),
    {
        let r = match self {
            SlotState::ActiveSlot0 => [0x00, 0x00],
            SlotState::ActiveSlot1 => [0x00, 0x01],
            SlotState::Pending { candidate } => [0x01, *candidate],
            SlotState::Testing { active, fallback } => [0x02, *active * 2 + *fallback],
        };
        assert(r@ =~= encoded_state(*self));
        r
    }

    /// Decodes persistent state, returning `None` for unrecognized bytes.
    pub fn decode(bytes: [u8; 2]) -> (r: Option<SlotState>)
        ensures
            r == decoded_state(bytes@[0], bytes@[1]),
    {
        match bytes[0] {
            0x00 => match bytes[1] {
                0 => Some(SlotState::ActiveSlot0),
                1 => Some(SlotState::ActiveSlot1),
                _ => None,
            },
            0x01 => {
                if bytes[1] <= 1 {
                    Some(SlotState::Pending { candidate: bytes[1] })
                } else {
                    None
                }
            },
            0x02 => {
                let active = bytes[1] / 2;
                let fallback = bytes[1] % 2;
                if active <= 1 && fallback <= 1 {
                    Some(SlotState::Testing { active, fallback })
                } else {
                    None
                }
            },
            _ => None,
        }
    }
}

/// The journal survives storage: every well-formed state decodes from its
/// encoding, and every pair of bytes that decodes is the encoding of what it
/// decodes to. Decoded states are well-formed.
pub proof fn lemma_journal_round_trip(s: SlotState, b0: u8, b1: u8)
    ensures
        slot_state_wf(s) ==> decoded_state(encoded_state(s)[0], encoded_state(s)[1]) == Some(s),
        decoded_state(b0, b1) matches Some(t) ==> slot_state_wf(t) && encoded_state(t) == seq![b0, b1],
{
}

/// A signature scheme used to authenticate update packages.
pub trait SignatureScheme {
    /// Whether `sig` is a valid signature over `data`.
    spec fn accepts(&self, data: Seq<u8>, sig: Seq<u8>) -> bool;

    /// Signs `data`, writing `OTA_SIGNATURE_LEN` bytes into `sig`; the
    /// signature verifies.
    fn sign(&self, data: &[u8], sig: &mut [u8; 32])
        ensures
            self.accepts(data@, final(sig)@),
    ;

    /// Returns `true` if `sig` is a valid signature over `data`.
    fn verify(&self, data: &[u8], sig: &[u8; 32]) -> (r: bool)
        ensures
            r == self.accepts(data@, sig@),
    ;
}

/// One FNV-1a step.
pub open spec fn fnv_step(h: u32, b: u8) -> u32 {
    (h ^ (b as u32)).wrapping_mul(0x0100_0193)
}

/// FNV-1a over `data` from the state `h`.
pub open spec fn fnv(h: u32, data: Seq<u8>) -> u32
    decreases data.len(),
{
    if data.len() == 0 {
        h
    } else {
        fnv(fnv_step(h, data[0]), data.drop_first())
    }
}

/// The state that follows `s` when the digest is spread over the signature.
pub open spec fn spread_next(s: u32) -> u32 {
    ((s << 8u32) | (s >> 24u32)) ^ (s >> 24u32).wrapping_mul(0x9E37_79B9)
}

/// `n` signature bytes spread from the state `s`.
pub open spec fn spread(s: u32, n: nat) -> Seq<u8>
    decreases n,
{
    if n == 0 {
        seq![]
    } else {
        seq![(s & 0xFF) as u8] + spread(spread_next(s), (n - 1) as nat)
    }
}

/// The demo signature of `data` under `key`.
pub open spec fn demo_digest(key: u32, data: Seq<u8>) -> Seq<u8> {
    spread(fnv(0x811C_9DC5u32 ^ key, data), 32)
}

/// A simple demo signature scheme (keyed FNV-1a). It is not
/// cryptographically secure and serves tests and tooling only.
#[derive(Clone, Copy)]
pub struct DemoSigner {
    key: u32,
}

impl DemoSigner {
    /// The signing key.
    pub closed spec fn signing_key(&self) -> u32 {
        self.key
    }

    /// Creates a demo signer with a fixed key.
    pub fn new(key: u32) -> (r: Self)
        ensures
            r.signing_key() == key,
    {
        DemoSigner { key }
    }

    fn hash(&self, data: &[u8]) -> (r: [u8; 32])
        ensures
            r@ == demo_digest(self.key, data@),
    {
        let mut h: u32 = 0x811C_9DC5 ^ self.key;
        let mut i: usize = 0;
        assert(data@.skip(0) =~= data@);
        while i < data.len()
            invariant
                i <= data@.len(),
                fnv(h, data@.skip(i as int)) == fnv(0x811C_9DC5u32 ^ self.key, data@),
            decreases data@.len() - i,
        {
            assert(data@.skip(i as int).drop_first() =~= data@.skip(i + 1));
            h ^= data[i] as u32;
            h = h.wrapping_mul(0x0100_0193);
            i = i + 1;
        }
        assert(data@.skip(i as int) =~= Seq::<u8>::empty());
        let mut out = [0u8; 32];
        let mut state = h;
        let mut k: usize = 0;
        while k < 32
            invariant
                k <= 32,
                spread(h, 32) == out@.take(k as int) + spread(state, (32 - k) as nat),
                out@.len() == 32,
            decreases 32 - k,
        {
            out[k] = #[verifier::truncate] ((state & 0xFF) as u8);
            state = ((state << 8u32) | (state >> 24u32)) ^ (state >> 24u32).wrapping_mul(0x9E37_79B9);
            k = k + 1;
            assert(spread(h, 32) =~= out@.take(k as int) + spread(state, (32 - k) as nat));
        }
        assert(out@.take(32) =~= out@);
        out
    }
}

impl SignatureScheme for DemoSigner {
    open spec fn accepts(&self, data: Seq<u8>, sig: Seq<u8>) -> bool {
        sig == demo_digest(self.signing_key(), data)
    }

    fn sign(&self, data: &[u8], sig: &mut [u8; 32]) {
        *sig = self.hash(data);
    }

    fn verify(&self, data: &[u8], sig: &[u8; 32]) -> (r: bool) {
        let h = self.hash(data);
        assert(h@ == demo_digest(self.signing_key(), data@));
        let mut i: usize = 0;
        while i < 32
            invariant
                i <= 32,
                h@.len() == 32,
                sig@.len() == 32,
                h@ == demo_digest(self.signing_key(), data@),
                forall|j: int| 0 <= j < i ==> h@[j] == sig@[j],
            decreases 32 - i,
        {
            if h[i] != sig[i] {
                assert(h@[i as int] != sig@[i as int]);
                assert(h@ != sig@);
                assert(!self.accepts(data@, sig@));
                return false;
            }
            i = i + 1;
        }
        assert(h@ =~= sig@);
        true
    }
}

/// Storage backend for the OTA engine: two image slots and the journal.
pub trait OtaStorage {
    /// The journal as last written. Implementations describe it; the default
    /// names no particular state.
    open spec fn journal(&self) -> SlotState {
        arbitrary()
    }

    /// Capacity in bytes of a single slot. Implementations describe it; the
    /// default names no particular size.
    open spec fn capacity(&self) -> nat {
        arbitrary()
    }

    /// The contents of image slot `slot`. Implementations describe them; the
    /// default names no particular bytes.
    open spec fn image(&self, slot: u8) -> Seq<u8> {
        arbitrary()
    }

    /// Whether `len` bytes can be written to `slot` at `offset` in this state.
    /// Implementations describe it; the default names no particular answer.
    open spec fn slot_writable(&self, slot: u8, offset: nat, len: nat) -> bool {
        arbitrary()
    }

    /// Whether `len` bytes can be read from `slot` at `offset` in this state.
    /// Implementations describe it; the default names no particular answer.
    open spec fn slot_readable(&self, slot: u8, offset: nat, len: nat) -> bool {
        arbitrary()
    }

    /// Whether the journal can be loaded in this state. Implementations
    /// describe it; the default names no particular answer.
    open spec fn journal_readable(&self) -> bool {
        arbitrary()
    }

    /// Whether the journal can be persisted in this state. Implementations
    /// describe it; the default names no particular answer.
    open spec fn journal_writable(&self) -> bool {
        arbitrary()
    }

    /// Writes `data` to `slot` at `offset`; the journal and the other slots
    /// are untouched. Succeeds exactly when the range is writable.
    fn write_slot(&mut self, slot: u8, offset: usize, data: &[u8]) -> (r: Result<(), OtaError>)
        ensures
            r is Ok <==> (*old(self)).slot_writable(slot, offset as nat, data@.len()),
            (*final(self)).journal_readable() == (*old(self)).journal_readable(),
            (*final(self)).journal_writable() == (*old(self)).journal_writable(),
            r is Err ==> forall|any: u8| #[trigger] (*final(self)).image(any) == (*old(self)).image(any),
            (*final(self)).journal() == (*old(self)).journal(),
            (*final(self)).capacity() == (*old(self)).capacity(),
            r is Ok ==> (*final(self)).image(slot) == overwrite((*old(self)).image(slot), offset as nat, data@),
            r is Ok ==> forall|other: u8| other != slot ==> #[trigger] (*final(self)).image(other) == (*old(
                self,
            )).image(other),
    ;

    /// Reads `buf.len()` bytes from `slot` at `offset`. Succeeds exactly when
    /// the range is readable.
    fn read_slot(&self, slot: u8, offset: usize, buf: &mut [u8]) -> (r: Result<(), OtaError>)
        ensures
            r is Ok <==> self.slot_readable(slot, offset as nat, old(buf)@.len()),
            r is Ok ==> final(buf)@ == self.image(slot).subrange(offset as int, offset + old(buf)@.len()),
    ;

    /// Capacity in bytes of a single slot.
    fn slot_capacity(&self) -> (r: usize)
        ensures
            r as nat == self.capacity(),
    ;

    /// Persists the journal; the slot images are untouched. Succeeds exactly
    /// when the journal is writable.
    fn write_state(&mut self, state: SlotState) -> (r: Result<(), OtaError>)
        ensures
            r is Ok <==> (*old(self)).journal_writable(),
            r is Err ==> (*final(self)).journal() == (*old(self)).journal(),
            r is Ok ==> (*final(self)).journal() == state,
            (*final(self)).capacity() == (*old(self)).capacity(),
            forall|slot: u8| #[trigger] (*final(self)).image(slot) == (*old(self)).image(slot),
    ;

    /// Loads the journal. Succeeds exactly when the journal is readable.
    fn read_state(&self) -> (r: Result<SlotState, OtaError>)
        ensures
            r is Ok <==> self.journal_readable(),
            r matches Ok(s) ==> s == self.journal(),
    ;
}

/// `image` with the bytes from `offset` on replaced by `data`.
pub open spec fn overwrite(image: Seq<u8>, offset: nat, data: Seq<u8>) -> Seq<u8> {
    image.take(offset as int) + data + image.skip((offset + data.len()) as int)
}

/// What a read gives back of a write: bytes written at `offset` are read back
/// from `offset`, and the bytes outside the written range keep their value.
pub proof fn lemma_slot_read_after_write(image: Seq<u8>, offset: nat, data: Seq<u8>)
    requires
        offset + data.len() <= image.len(),
    ensures
        overwrite(image, offset, data).len() == image.len(),
        overwrite(image, offset, data).subrange(offset as int, (offset + data.len()) as int) == data,
        forall|i: int| 0 <= i < image.len() && !(offset <= i < offset + data.len())
            ==> #[trigger] overwrite(image, offset, data)[i] == image[i],
{
    assert(overwrite(image, offset, data).subrange(offset as int, (offset + data.len()) as int) =~= data);
}

/// An update package header.
#[derive(Debug, Clone, Copy, PartialEq, Eq, Structural)]
pub struct UpdatePackage {
    /// Target slot the image should be applied to (0 or 1).
    pub slot: u8,
    /// Length of the encapsulated payload.
    pub payload_len: u32,
}

/// The serialized header of a package: magic, version, slot, payload length.
pub open spec fn header_bytes(p: UpdatePackage) -> Seq<u8> {
    OTA_MAGIC@ + seq![OTA_FORMAT_VERSION, p.slot] + be32(p.payload_len)
}

/// The package a header decodes to, if it is one.
pub open spec fn decoded_header(b: Seq<u8>) -> Option<UpdatePackage> {
    if b.len() < 10 || b.take(4) != OTA_MAGIC@ || b[4] != OTA_FORMAT_VERSION || b[5] > 1 {
        None
    } else {
        Some(UpdatePackage { slot: b[5], payload_len: from_be32(b[6], b[7], b[8], b[9]) })
    }
}

/// The bytes a package signature covers: header then payload.
pub open spec fn signed_message(p: UpdatePackage, payload: Seq<u8>) -> Seq<u8> {
    header_bytes(p) + payload
}

impl UpdatePackage {
    /// Size of the fixed package header in bytes.
    pub const HEADER_LEN: usize = 10;

    /// Serializes the package header (excluding payload and signature).
    pub fn encode_header(&self, out: &mut [u8])
        requires
            old(out)@.len() >= 10,
        ensures
            final(out)@ == header_bytes(*self) + old(out)@.skip(10),
    {
        out[0] = OTA_MAGIC[0];
        out[1] = OTA_MAGIC[1];
        out[2] = OTA_MAGIC[2];
        out[3] = OTA_MAGIC[3];
        out[4] = OTA_FORMAT_VERSION;
        out[5] = self.slot;
        crate::wire::put_be32(out, 6, self.payload_len);
        assert(final(out)@ =~= header_bytes(*self) + old(out)@.skip(10));
    }

    /// Parses a package header, returning `None` on magic/version mismatch or
    /// a slot other than 0 or 1.
    pub fn decode_header(bytes: &[u8]) -> (r: Option<UpdatePackage>)
        ensures
            r == decoded_header(bytes@),
    {
        if bytes.len() < Self::HEADER_LEN {
            return None;
        }
        if bytes[0] != OTA_MAGIC[0] || bytes[1] != OTA_MAGIC[1] || bytes[2] != OTA_MAGIC[2]
            || bytes[3] != OTA_MAGIC[3] {
            assert(bytes@.take(4) != OTA_MAGIC@) by {
                if bytes@.take(4) == OTA_MAGIC@ {
                    assert(bytes@.take(4)[0] == bytes@[0]);
                    assert(bytes@.take(4)[1] == bytes@[1]);
                    assert(bytes@.take(4)[2] == bytes@[2]);
                    assert(bytes@.take(4)[3] == bytes@[3]);
                }
            }
            return None;
        }
        assert(bytes@.take(4) =~= OTA_MAGIC@);
        if bytes[4] != OTA_FORMAT_VERSION {
            return None;
        }
        let slot = bytes[5];
        if slot > 1 {
            return None;
        }
        let payload_len = crate::wire::get_be32(bytes, 6);
        Some(UpdatePackage { slot, payload_len })
    }
}

/// Headers survive serialization: decoding the header of a package with slot
/// 0 or 1 gives the package back, whatever bytes follow it.
pub proof fn lemma_header_round_trip(p: UpdatePackage, rest: Seq<u8>)
    requires
        p.slot <= 1,
    ensures
        decoded_header(header_bytes(p) + rest) == Some(p),
{
    let b = header_bytes(p) + rest;
    assert(b.take(4) =~= OTA_MAGIC@);
    crate::wire::lemma_be32_round_trip(p.payload_len);
}


impl<T: OtaStorage + ?Sized> OtaStorage for &mut T {
    open spec fn journal(&self) -> SlotState {
        (**self).journal()
    }

    open spec fn capacity(&self) -> nat {
        (**self).capacity()
    }

    open spec fn image(&self, slot: u8) -> Seq<u8> {
        (**self).image(slot)
    }

    open spec fn slot_writable(&self, slot: u8, offset: nat, len: nat) -> bool {
        (**self).slot_writable(slot, offset, len)
    }

    open spec fn slot_readable(&self, slot: u8, offset: nat, len: nat) -> bool {
        (**self).slot_readable(slot, offset, len)
    }

    open spec fn journal_readable(&self) -> bool {
        (**self).journal_readable()
    }

    open spec fn journal_writable(&self) -> bool {
        (**self).journal_writable()
    }

    fn write_slot(&mut self, slot: u8, offset: usize, data: &[u8]) -> (r: Result<(), OtaError>) {
        (**self).write_slot(slot, offset, data)
    }

    fn read_slot(&self, slot: u8, offset: usize, buf: &mut [u8]) -> (r: Result<(), OtaError>) {
        (**self).read_slot(slot, offset, buf)
    }

    fn slot_capacity(&self) -> (r: usize) {
        (**self).slot_capacity()
    }

    fn write_state(&mut self, state: SlotState) -> (r: Result<(), OtaError>) {
        (**self).write_state(state)
    }

    fn read_state(&self) -> (r: Result<SlotState, OtaError>) {
        (**self).read_state()
    }
}

/// The journal after promoting a staged candidate, if one is pending.
pub open spec fn promoted(s: SlotState) -> Option<SlotState> {
    match s {
        SlotState::Pending { candidate } => Some(SlotState::Testing {
            active: candidate,
            fallback: (1 - candidate) as u8,
        }),
        _ => None,
    }
}

/// The journal after committing the image under test, if one is under test.
pub open spec fn committed(s: SlotState) -> Option<SlotState> {
    match s {
        SlotState::Testing { active, .. } => Some(active_state(active)),
        _ => None,
    }
}

/// The journal after rolling back the image under test, if one is under test.
pub open spec fn rolled_back(s: SlotState) -> Option<SlotState> {
    match s {
        SlotState::Testing { fallback, .. } => Some(active_state(fallback)),
        _ => None,
    }
}

/// Why [`OtaEngine::stage`] rejects a package before touching storage, if it
/// does: a payload whose length differs from the header, a package aimed at a
/// slot other than 0 or 1, a payload larger than
/// a slot or than [`OTA_MAX_PAYLOAD`], or a signature the scheme does not
/// accept over header and payload.
pub open spec fn stage_rejection<V: SignatureScheme>(
    scheme: V,
    capacity: nat,
    p: UpdatePackage,
    payload: Seq<u8>,
    sig: Seq<u8>,
) -> Option<OtaError> {
    if payload.len() != p.payload_len as nat || p.slot > 1 {
        Some(OtaError::BadPackage)
    } else if payload.len() > capacity || payload.len() > OTA_MAX_PAYLOAD {
        Some(OtaError::PayloadTooLarge)
    } else if !scheme.accepts(signed_message(p, payload), sig) {
        Some(OtaError::BadSignature)
    } else {
        None
    }
}

/// Whether `slot` holds an image the vehicle runs or falls back to.
fn running_slot(journal: &SlotState, slot: u8) -> (r: bool)
    ensures
        r == is_running_slot(*journal, slot),
{
    match journal {
        SlotState::ActiveSlot0 => slot == 0,
        SlotState::ActiveSlot1 => slot == 1,
        SlotState::Pending { candidate } => slot <= 1 && slot != *candidate,
        SlotState::Testing { active, .. } => slot == *active,
    }
}

/// What staging a package that passed its checks does to storage `before`,
/// leaving `after` and returning `r`: a journal that cannot be read is an
/// error and changes nothing; a package aimed at a running slot is refused
/// with [`OtaError::InvalidState`] and changes nothing; a slot that cannot be
/// written is [`OtaError::WriteFailed`] and changes no image and not the
/// journal; otherwise the payload lands at the start of the candidate slot,
/// every other slot keeps its image, and the journal records the candidate as
/// pending, or, if the journal cannot be written, the result is
/// [`OtaError::Storage`] and the journal is unchanged.
pub open spec fn stage_outcome<S: OtaStorage>(
    before: S,
    after: S,
    p: UpdatePackage,
    payload: Seq<u8>,
    r: Result<(), OtaError>,
) -> bool {
    if !before.journal_readable() {
        r is Err && after == before
    } else if is_running_slot(before.journal(), p.slot) {
        r == Err::<(), OtaError>(OtaError::InvalidState) && after == before
    } else if !before.slot_writable(p.slot, 0, payload.len()) {
        &&& r == Err::<(), OtaError>(OtaError::WriteFailed)
        &&& after.journal() == before.journal()
        &&& forall|any: u8| #[trigger] after.image(any) == before.image(any)
    } else {
        &&& after.image(p.slot) == overwrite(before.image(p.slot), 0, payload)
        &&& forall|other: u8| other != p.slot ==> #[trigger] after.image(other) == before.image(other)
        &&& (r is Ok <==> before.journal_writable())
        &&& r is Ok ==> after.journal() == (SlotState::Pending { candidate: p.slot })
        &&& r is Err ==> r == Err::<(), OtaError>(OtaError::Storage) && after.journal() == before.journal()
    }
}

/// Staging goes to the candidate slot and only the running image is
/// protected. With a readable journal and storage that accepts the writes, a
/// valid package for slot 0 or 1 is refused (`InvalidState`, nothing changed)
/// exactly when it names the slot the vehicle runs: slot 0 under
/// `ActiveSlot0`, slot 1 under `ActiveSlot1`, the slot other than a pending
/// candidate, the slot under test. Otherwise it succeeds: the slot starts with
/// the payload and the journal records that slot as the pending candidate, so
/// a newer package can replace a candidate still pending.
pub proof fn lemma_stage_targets_candidate_slot<S: OtaStorage>(
    before: S,
    after: S,
    p: UpdatePackage,
    payload: Seq<u8>,
    r: Result<(), OtaError>,
)
    requires
        before.journal_readable(),
        before.slot_writable(p.slot, 0, payload.len()),
        before.journal_writable(),
        p.slot <= 1,
        stage_outcome(before, after, p, payload, r),
    ensures
        before.journal() == SlotState::ActiveSlot0 ==> (r is Ok <==> p.slot == 1),
        before.journal() == SlotState::ActiveSlot1 ==> (r is Ok <==> p.slot == 0),
        before.journal() matches SlotState::Pending { candidate } ==> (candidate <= 1 ==> (r is Ok
            <==> p.slot == candidate)),
        before.journal() matches SlotState::Testing { active, .. } ==> (r is Ok <==> p.slot != active),
        r is Ok ==> after.journal() == (SlotState::Pending { candidate: p.slot }) && after.image(p.slot).take(
            payload.len() as int,
        ) == payload,
        r is Err ==> r == Err::<(), OtaError>(OtaError::InvalidState) && after == before,
{
    if r is Ok {
        assert(after.image(p.slot).take(payload.len() as int) =~= payload);
    }
}

/// Staging cannot brick the vehicle: a successful stage leaves the image of
/// the active slot as it was (the package went to the inactive slot), and a
/// refused or failed one leaves it too.
pub proof fn lemma_stage_keeps_running_image<S: OtaStorage>(
    before: S,
    after: S,
    p: UpdatePackage,
    payload: Seq<u8>,
    r: Result<(), OtaError>,
)
    requires
        candidate_ok(before.journal()),
        stage_outcome(before, after, p, payload, r),
    ensures
        after.image(active_slot_of(before.journal())) == before.image(active_slot_of(before.journal())),
        r is Ok ==> p.slot != active_slot_of(before.journal()),
{
    let a = active_slot_of(before.journal());
    assert(is_running_slot(before.journal(), a));
}

/// The bytes a package signature covers: the encoded header, then the payload.
pub fn signing_input(package: &UpdatePackage, payload: &[u8]) -> (r: Vec<u8>)
    ensures
        r@ == signed_message(*package, payload@),
{
    let mut header = [0u8; 10];
    package.encode_header(&mut header);
    let mut signed: Vec<u8> = Vec::new();
    let mut i: usize = 0;
    while i < 10
        invariant
            i <= 10,
            header@ == header_bytes(*package),
            signed@ == header@.take(i as int),
        decreases 10 - i,
    {
        signed.push(header[i]);
        i = i + 1;
        assert(signed@ =~= header@.take(i as int));
    }
    let mut j: usize = 0;
    while j < payload.len()
        invariant
            j <= payload@.len(),
            signed@ == header_bytes(*package) + payload@.take(j as int),
        decreases payload@.len() - j,
    {
        signed.push(payload[j]);
        j = j + 1;
        assert(signed@ =~= header_bytes(*package) + payload@.take(j as int));
    }
    assert(payload@.take(j as int) =~= payload@);
    signed
}

/// A complete package file: the encoded header, the payload, then the
/// signature.
pub fn package_image(package: &UpdatePackage, payload: &[u8], signature: &[u8; 32]) -> (r: Vec<u8>)
    ensures
        r@ == signed_message(*package, payload@) + signature@,
{
    let mut image = signing_input(package, payload);
    let ghost signed = image@;
    let mut k: usize = 0;
    while k < 32
        invariant
            k <= 32,
            image@ == signed + signature@.take(k as int),
        decreases 32 - k,
    {
        image.push(signature[k]);
        k = k + 1;
        assert(image@ =~= signed + signature@.take(k as int));
    }
    assert(signature@.take(32) =~= signature@);
    image
}

/// The OTA engine: orchestrates staging, promotion, testing, and rollback.
pub struct OtaEngine<S: OtaStorage, V: SignatureScheme> {
    storage: S,
    signer: V,
}

impl<S: OtaStorage, V: SignatureScheme> OtaEngine<S, V> {
    /// The storage backend.
    pub closed spec fn store(&self) -> S {
        self.storage
    }

    /// The signature scheme.
    pub closed spec fn scheme(&self) -> V {
        self.signer
    }

    /// Creates an engine over the given storage and signature scheme.
    pub fn new(storage: S, signer: V) -> (r: Self)
        ensures
            r.store() == storage,
            r.scheme() == signer,
    {
        OtaEngine { storage, signer }
    }

    /// Returns the current persistent slot state.
    pub fn state(&self) -> (r: Result<SlotState, OtaError>)
        ensures
            r is Ok <==> self.store().journal_readable(),
            r matches Ok(s) ==> s == self.store().journal(),
    {
        self.storage.read_state()
    }

    /// Resolves any pending/testing state on boot: a pending candidate is
    /// promoted to testing, an image still under test is rolled back.
    /// Returns the slot that should now be active.
    pub fn recover(&mut self) -> (r: Result<u8, OtaError>)
        requires
            candidate_ok(old(self).store().journal()),
        ensures
            final(self).scheme() == old(self).scheme(),
            forall|slot: u8| #[trigger] final(self).store().image(slot) == old(self).store().image(slot),
            r is Ok <==> old(self).store().journal_readable() && old(self).store().journal_writable(),
            r matches Ok(a) ==> final(self).store().journal() == recovered(old(self).store().journal())
                && a == active_slot_of(recovered(old(self).store().journal())),
    {
        let state = self.storage.read_state()?;
        let resolved = match state {
            SlotState::Pending { candidate } => SlotState::Testing {
                active: candidate,
                fallback: 1 - candidate,
            },
            SlotState::Testing { active: _, fallback } => {
                if fallback == 0 {
                    SlotState::ActiveSlot0
                } else {
                    SlotState::ActiveSlot1
                }
            },
            other => other,
        };
        let active = resolved.active_slot();
        self.storage.write_state(resolved)?;
        Ok(active)
    }

    /// Stages an update package: validates the payload length, the slot (0 or
    /// 1), the size and the signature (over header then payload), refuses the
    /// slot the vehicle runs from, writes the payload into the candidate
    /// (inactive) slot `package.slot` and records it as pending. Does not
    /// promote.
    pub fn stage(&mut self, package: &UpdatePackage, payload: &[u8], signature: &[u8; 32]) -> (r: Result<(), OtaError>)
        ensures
            final(self).scheme() == old(self).scheme(),
            stage_rejection(old(self).scheme(), old(self).store().capacity(), *package, payload@, signature@)
                matches Some(e) ==> r == Err::<(), OtaError>(e) && final(self).store() == old(self).store(),
            stage_rejection(old(self).scheme(), old(self).store().capacity(), *package, payload@, signature@)
                is None ==> stage_outcome(old(self).store(), final(self).store(), *package, payload@, r),
            r is Ok ==> package.slot <= 1,
            slot_state_wf(old(self).store().journal()) ==> slot_state_wf(final(self).store().journal()),
    {
        if payload.len() as u64 != package.payload_len as u64 || package.slot > 1 {
            return Err(OtaError::BadPackage);
        }
        if payload.len() > self.storage.slot_capacity() || payload.len() > OTA_MAX_PAYLOAD {
            return Err(OtaError::PayloadTooLarge);
        }
        let signed = signing_input(package, payload);
        if !self.signer.verify(signed.as_slice(), signature) {
            return Err(OtaError::BadSignature);
        }
        // The candidate goes to the inactive slot: never overwrite the running image.
        let journal = self.storage.read_state()?;
        if running_slot(&journal, package.slot) {
            return Err(OtaError::InvalidState);
        }
        match self.storage.write_slot(package.slot, 0, payload) {
            Ok(()) => {},
            Err(_) => return Err(OtaError::WriteFailed),
        }
        let state = SlotState::Pending { candidate: package.slot };
        match self.storage.write_state(state) {
            Ok(()) => Ok(()),
            Err(_) => Err(OtaError::Storage),
        }
    }

    /// Promotes the staged candidate to active and enters the `Testing` state.
    /// Returns the candidate slot.
    pub fn promote(&mut self) -> (r: Result<u8, OtaError>)
        requires
            candidate_ok(old(self).store().journal()),
        ensures
            final(self).scheme() == old(self).scheme(),
            forall|slot: u8| #[trigger] final(self).store().image(slot) == old(self).store().image(slot),
            promoted(old(self).store().journal()) is None ==> r is Err && final(self).store() == old(self).store(),
            old(self).store().journal_readable() && promoted(old(self).store().journal()) is None ==> r
                == Err::<u8, OtaError>(OtaError::NoCandidate),
            !old(self).store().journal_readable() ==> r is Err && final(self).store() == old(self).store(),
            old(self).store().journal_readable() && promoted(old(self).store().journal()) is Some ==> (r is Ok
                <==> old(self).store().journal_writable()) && (r is Err ==> r == Err::<u8, OtaError>(
                OtaError::Storage,
            )),
            r matches Ok(c) ==> old(self).store().journal() == (SlotState::Pending { candidate: c })
                && Some(final(self).store().journal()) == promoted(old(self).store().journal()),
    {
        let state = self.storage.read_state()?;
        let candidate = match state {
            SlotState::Pending { candidate } => candidate,
            _ => return Err(OtaError::NoCandidate),
        };
        let next = SlotState::Testing { active: candidate, fallback: 1 - candidate };
        match self.storage.write_state(next) {
            Ok(()) => Ok(candidate),
            Err(_) => Err(OtaError::Storage),
        }
    }

    /// Confirms a `Testing` image is healthy and commits it as the permanent
    /// active slot. Returns that slot.
    pub fn commit(&mut self) -> (r: Result<u8, OtaError>)
        ensures
            final(self).scheme() == old(self).scheme(),
            forall|slot: u8| #[trigger] final(self).store().image(slot) == old(self).store().image(slot),
            committed(old(self).store().journal()) is None ==> r is Err && final(self).store() == old(self).store(),
            old(self).store().journal_readable() && committed(old(self).store().journal()) is None ==> r
                == Err::<u8, OtaError>(OtaError::InvalidState),
            !old(self).store().journal_readable() ==> r is Err && final(self).store() == old(self).store(),
            old(self).store().journal_readable() && committed(old(self).store().journal()) is Some ==> (r is Ok
                <==> old(self).store().journal_writable()) && (r is Err ==> r == Err::<u8, OtaError>(
                OtaError::Storage,
            )),
            r matches Ok(a) ==> old(self).store().journal() matches SlotState::Testing { active, .. } && a == active
                && Some(final(self).store().journal()) == committed(old(self).store().journal()),
    {
        let state = self.storage.read_state()?;
        let active = match state {
            SlotState::Testing { active, .. } => active,
            _ => return Err(OtaError::InvalidState),
        };
        let committed = if active == 0 {
            SlotState::ActiveSlot0
        } else {
            SlotState::ActiveSlot1
        };
        match self.storage.write_state(committed) {
            Ok(()) => Ok(active),
            Err(_) => Err(OtaError::Storage),
        }
    }

    /// Rolls back from a `Testing` state to the previously active slot.
    /// Returns the slot that was under test.
    pub fn rollback(&mut self) -> (r: Result<u8, OtaError>)
        ensures
            final(self).scheme() == old(self).scheme(),
            forall|slot: u8| #[trigger] final(self).store().image(slot) == old(self).store().image(slot),
            rolled_back(old(self).store().journal()) is None ==> r is Err && final(self).store() == old(self).store(),
            old(self).store().journal_readable() && rolled_back(old(self).store().journal()) is None ==> r
                == Err::<u8, OtaError>(OtaError::InvalidState),
            !old(self).store().journal_readable() ==> r is Err && final(self).store() == old(self).store(),
            old(self).store().journal_readable() && rolled_back(old(self).store().journal()) is Some ==> (r is Ok
                <==> old(self).store().journal_writable()) && (r is Err ==> r == Err::<u8, OtaError>(
                OtaError::Storage,
            )),
            r matches Ok(a) ==> old(self).store().journal() matches SlotState::Testing { active, .. } && a == active
                && Some(final(self).store().journal()) == rolled_back(old(self).store().journal()),
    {
        let state = self.storage.read_state()?;
        let (active, fallback) = match state {
            SlotState::Testing { active, fallback } => (active, fallback),
            _ => return Err(OtaError::InvalidState),
        };
        let restored = if fallback == 0 {
            SlotState::ActiveSlot0
        } else {
            SlotState::ActiveSlot1
        };
        match self.storage.write_state(restored) {
            Ok(()) => Ok(active),
            Err(_) => Err(OtaError::Storage),
        }
    }
}

/// The update life cycle cannot brick the vehicle. For a candidate in slot
/// `c` (0 or 1): promoting then committing runs `c`; promoting then rolling
/// back runs the other slot; a reboot while the candidate is pending promotes
/// it; a reboot while it is under test rolls back to the previous slot.
/// Recovery never leaves a candidate pending, keeps journals well-formed, and
/// changes nothing more when run again on a journal that was not pending.
pub proof fn lemma_update_life_cycle(c: u8, s: SlotState)
    requires
        c <= 1,
    ensures
        committed(promoted(SlotState::Pending { candidate: c }).unwrap()) == Some(active_state(c)),
        rolled_back(promoted(SlotState::Pending { candidate: c }).unwrap()) == Some(active_state((1 - c) as u8)),
        Some(recovered(SlotState::Pending { candidate: c })) == promoted(SlotState::Pending { candidate: c }),
        recovered(promoted(SlotState::Pending { candidate: c }).unwrap()) == active_state((1 - c) as u8),
        !(recovered(s) is Pending),
        slot_state_wf(s) ==> slot_state_wf(recovered(s)),
        !(s is Pending) ==> recovered(recovered(s)) == recovered(s),
{
}

} // verus!
