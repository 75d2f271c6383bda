//! AUTOSAR-compatible interface layer: digital I/O (DIO) and COM signals.
use vstd::prelude::*;
use crate::error::Error;

verus! {

/// A digital I/O channel, identified by port group and pin index.
#[derive(Debug, Clone, Copy, PartialEq, Eq, Structural)]
pub struct DioChannel {
    /// Port group index (e.g. 0 = PORTA).
    pub port: u8,
    /// Pin index within the port.
    pub pin: u8,
}

impl DioChannel {
    /// Creates a channel, returning `None` if `pin > 31`.
    pub fn new(port: u8, pin: u8) -> (r: Option<DioChannel>)
        ensures
            r is Some <==> pin < 32,
            r matches Some(c) ==> c == (DioChannel { port, pin }),
    {
        if pin < 32 {
            Some(DioChannel { port, pin })
        } else {
            None
        }
    }

    /// The bit position of this channel within its port word.
    pub fn bit(&self) -> (r: u32)
        ensures
            r == self.pin,
    {
        self.pin as u32
    }
}

/// Logical level of a DIO channel.
#[derive(Debug, Clone, Copy, PartialEq, Eq, Structural)]
pub enum DioLevel {
    /// Logical low (0 V / GND).
    Low,
    /// Logical high (VCC).
    High,
}

impl DioLevel {
    /// Converts to a `bool` (`High` = `true`).
    pub fn as_bool(&self) -> (r: bool)
        ensures
            r == (*self == DioLevel::High),
    {
        matches!(self, DioLevel::High)
    }

    /// Converts from a `bool` (`true` = `High`).
    pub fn from_bool(v: bool) -> (r: DioLevel)
        ensures
            r == (if v { DioLevel::High } else { DioLevel::Low }),
    {
        if v {
            DioLevel::High
        } else {
            DioLevel::Low
        }
    }
}

/// DIO driver: read/write of digital channels (pins 0..=31).
pub trait DioDriver {
    /// Reads the level of a single channel.
    fn read_channel(&self, channel: DioChannel) -> Result<DioLevel, Error>
        requires
            channel.pin < 32,
    ;

    /// Writes the level of a single channel.
    fn write_channel(&mut self, channel: DioChannel, level: DioLevel) -> Result<(), Error>
        requires
            channel.pin < 32,
    ;
}

/// The level of `pin` in a port word.
pub open spec fn pin_level(word: u32, pin: u8) -> DioLevel {
    if word & (1u32 << pin) != 0 {
        DioLevel::High
    } else {
        DioLevel::Low
    }
}

/// A port word with `pin` driven to `level`.
pub open spec fn with_pin(word: u32, pin: u8, level: DioLevel) -> u32 {
    if level == DioLevel::High {
        word | (1u32 << pin)
    } else {
        word & !(1u32 << pin)
    }
}

/// Driving a pin and reading it back gives the level driven; the other pins
/// of the port keep their level.
pub proof fn lemma_pin_write_read(word: u32, pin: u8, other: u8, level: DioLevel)
    requires
        pin < 32,
        other < 32,
        other != pin,
    ensures
        pin_level(with_pin(word, pin, level), pin) == level,
        pin_level(with_pin(word, pin, level), other) == pin_level(word, other),
{
    assert((word | (1u32 << pin)) & (1u32 << pin) != 0) by (bit_vector)
        requires pin < 32;
    assert((word & !(1u32 << pin)) & (1u32 << pin) == 0) by (bit_vector);
    assert(((word | (1u32 << pin)) & (1u32 << other) != 0) == (word & (1u32 << other) != 0)) by (bit_vector)
        requires pin < 32, other < 32, other != pin;
    assert(((word & !(1u32 << pin)) & (1u32 << other) != 0) == (word & (1u32 << other) != 0)) by (bit_vector)
        requires pin < 32, other < 32, other != pin;
}

/// An in-memory DIO backend: a bank of 16 port registers.
pub struct SimDio {
    ports: [u32; 16],
}

impl SimDio {
    /// The port registers.
    pub closed spec fn words(&self) -> Seq<u32> {
        self.ports@
    }

    /// Creates a register bank with all channels low.
    pub fn new() -> (r: Self)
        ensures
            r.words() == Seq::new(16, |i: int| 0u32),
    {
        let r = SimDio { ports: [0u32; 16] };
        assert(r.ports@ =~= Seq::new(16, |i: int| 0u32));
        r
    }

    /// Returns the raw word for a port (0 for a port outside the bank).
    pub fn port_word(&self, port: u8) -> (r: u32)
        ensures
            r == if port < 16 { self.words()[port as int] } else { 0 },
    {
        if (port as usize) < 16 {
            self.ports[port as usize]
        } else {
            0
        }
    }
}

impl Default for SimDio {
    fn default() -> (r: Self)
        ensures
            r.words() == Seq::new(16, |i: int| 0u32),
    {
        Self::new()
    }
}

impl DioDriver for SimDio {
    fn read_channel(&self, channel: DioChannel) -> (r: Result<DioLevel, Error>)
        ensures
            channel.port >= 16 ==> r == Err::<DioLevel, Error>(Error::InvalidArgument),
            channel.port < 16 ==> r == Ok::<DioLevel, Error>(pin_level(self.words()[channel.port as int], channel.pin)),
    {
        if channel.port as usize >= 16 {
            return Err(Error::InvalidArgument);
        }
        let word = self.ports[channel.port as usize];
        let b = channel.bit();
        Ok(DioLevel::from_bool((word & (1u32 << b)) != 0))
    }

    fn write_channel(&mut self, channel: DioChannel, level: DioLevel) -> (r: Result<(), Error>)
        ensures
            channel.port >= 16 ==> r == Err::<(), Error>(Error::InvalidArgument) && final(self).words() == old(self).words(),
            channel.port < 16 ==> r == Ok::<(), Error>(()) && final(self).words() == old(self).words().update(
                channel.port as int,
                with_pin(old(self).words()[channel.port as int], channel.pin, level),
            ),
    {
        if channel.port as usize >= 16 {
            return Err(Error::InvalidArgument);
        }
        let p = channel.port as usize;
        let b = channel.bit();
        let word = self.ports[p];
        if level.as_bool() {
            self.ports[p] = word | (1u32 << b);
        } else {
            self.ports[p] = word & !(1u32 << b);
        }
        Ok(())
    }
}

/// A typed signal occupying a bit range of a 64-bit payload view.
#[derive(Debug, Clone, Copy, PartialEq, Eq, Structural)]
pub struct Signal {
    /// Start bit within the payload (0 = first bit).
    pub start_bit: u8,
    /// Signal length in bits (1..=64).
    pub length: u8,
}

/// The mask of the low `length` bits.
pub open spec fn field_mask(length: u8) -> u64 {
    if length >= 64 {
        u64::MAX
    } else {
        ((1u64 << length) - 1) as u64
    }
}

/// Signal layouts that fit a 64-bit payload.
pub open spec fn signal_wf(s: Signal) -> bool {
    1 <= s.length <= 64 && s.start_bit + s.length <= 64
}

/// The value of a signal in a payload.
pub open spec fn unpacked(s: Signal, payload: u64) -> u64 {
    (payload >> s.start_bit) & field_mask(s.length)
}

/// A payload with the signal's bits replaced by `value`.
pub open spec fn packed(s: Signal, payload: u64, value: u64) -> u64 {
    (payload & !(field_mask(s.length) << s.start_bit)) | (value << s.start_bit)
}

fn mask_of(length: u8) -> (r: u64)
    ensures
        r == field_mask(length),
{
    if length >= 64 {
        u64::MAX
    } else {
        assert(1u64 << length >= 1) by (bit_vector)
            requires length < 64;
        (1u64 << length) - 1
    }
}

impl Signal {
    /// Creates a signal layout, validating `1 <= length <= 64` and that the
    /// signal fits within a 64-bit value.
    pub fn new(start_bit: u8, length: u8) -> (r: Option<Signal>)
        ensures
            r is Some <==> signal_wf(Signal { start_bit, length }),
            r matches Some(s) ==> s == (Signal { start_bit, length }),
    {
        if length == 0 || length > 64 || (start_bit as u32 + length as u32) > 64 {
            return None;
        }
        Some(Signal { start_bit, length })
    }

    /// Extracts the signal value from a little-endian 64-bit payload view.
    pub fn unpack(&self, payload: u64) -> (r: u64)
        requires
            self.start_bit < 64,
        ensures
            r == unpacked(*self, payload),
    {
        let mask = mask_of(self.length);
        (payload >> self.start_bit) & mask
    }

    /// Writes the signal value into a little-endian 64-bit payload view;
    /// `None` if `value` does not fit in `length` bits.
    pub fn pack(&self, payload: u64, value: u64) -> (r: Option<u64>)
        requires
            self.start_bit < 64,
        ensures
            value & !field_mask(self.length) != 0 ==> r is None,
            value & !field_mask(self.length) == 0 ==> r == Some(packed(*self, payload, value)),
    {
        let mask = mask_of(self.length);
        if value & !mask != 0 {
            return None;
        }
        let cleared = payload & !(mask << self.start_bit);
        Some(cleared | (value << self.start_bit))
    }
}

/// Signals round-trip through a payload: for a well-formed layout and a value
/// that fits, unpacking what was packed gives the value back, and the payload
/// bits outside the signal are kept.
pub proof fn lemma_signal_round_trip(s: Signal, payload: u64, value: u64)
    requires
        signal_wf(s),
        value & !field_mask(s.length) == 0,
    ensures
        unpacked(s, packed(s, payload, value)) == value,
        packed(s, payload, value) & !(field_mask(s.length) << s.start_bit) == payload & !(field_mask(s.length)
            << s.start_bit),
{
    let st = s.start_bit;
    let len = s.length;
    let m = field_mask(len);
    if len >= 64 {
        assert(st == 0);
        assert(m == u64::MAX);
        assert((((payload & !(m << st)) | (value << st)) >> st) & m == value) by (bit_vector)
            requires st == 0u8, m == 0xFFFF_FFFF_FFFF_FFFFu64;
        assert(((payload & !(m << st)) | (value << st)) & !(m << st) == payload & !(m << st)) by (bit_vector)
            requires st == 0u8, m == 0xFFFF_FFFF_FFFF_FFFFu64;
    } else {
        assert((((payload & !(m << st)) | (value << st)) >> st) & m == value) by (bit_vector)
            requires
                len < 64,
                st + len <= 64,
                m == ((1u64 << len) - 1) as u64,
                value & !m == 0,
        ;
        assert(((payload & !(m << st)) | (value << st)) & !(m << st) == payload & !(m << st)) by (bit_vector)
            requires
                len < 64,
                st + len <= 64,
                m == ((1u64 << len) - 1) as u64,
                value & !m == 0,
        ;
    }
}

} // verus!
