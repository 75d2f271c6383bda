//! Developer tooling: the text the `tpt-cli` commands produce.
//!
//! - [`crate_manifest`] is the `Cargo.toml` of a new ECU crate.
//! - [`signal_accessors`] turns the entries of a `signals.toml` database into
//!   Rust accessors for [`Signal`](crate::autosar::Signal) layouts.
use vstd::prelude::*;
use vstd::string::*;
use crate::text::{decimal, decimal_text, hex_number, hex_number_text};

verus! {

/// The `Cargo.toml` of a new ECU crate called `name`.
pub open spec fn crate_manifest_text(name: Seq<char>) -> Seq<char> {
    "[package]\nname = \""@ + name
        + "\"\nversion = \"0.1.0\"\nedition = \"2021\"\nlicense = \"MIT OR Apache-2.0\"\n\n[dependencies]\ntpt-chassis = { path = \"..\", version = \"0.1.0\" }\n"@
}

/// Renders the `Cargo.toml` of a new ECU crate called `name`.
pub fn crate_manifest(name: &str) -> (r: String)
    ensures
        r@ == crate_manifest_text(name@),
{
    let mut s = String::from_str("[package]\nname = \"");
    s.append(name);
    s.append(
        "\"\nversion = \"0.1.0\"\nedition = \"2021\"\nlicense = \"MIT OR Apache-2.0\"\n\n[dependencies]\ntpt-chassis = { path = \"..\", version = \"0.1.0\" }\n",
    );
    s
}

/// The `src/main.rs` of a new ECU crate.
pub const CRATE_MAIN: &'static str = "fn main() {\n    println!(\"Hello from a new TPT Chassis ECU\");\n}\n";

/// One `[[signal]]` entry of a signal database, each field as found there.
pub struct SignalEntry {
    /// The accessor name.
    pub name: Option<String>,
    /// First bit of the signal in the frame payload.
    pub start_bit: Option<i64>,
    /// Width of the signal in bits.
    pub length_bits: Option<i64>,
    /// The CAN identifier that carries the signal.
    pub can_id: Option<i64>,
}

/// The accessor name of an entry (`signal` when none is given).
pub open spec fn entry_name(e: SignalEntry) -> Seq<char> {
    match e.name {
        Some(n) => n@,
        None => "signal"@,
    }
}

/// The start bit of an entry, narrowed to a byte (0 when none is given).
pub open spec fn entry_start(e: SignalEntry) -> u8 {
    match e.start_bit {
        Some(v) => #[verifier::truncate] (v as u8),
        None => 0,
    }
}

/// The width of an entry, narrowed to a byte (0 when none is given).
pub open spec fn entry_length(e: SignalEntry) -> u8 {
    match e.length_bits {
        Some(v) => #[verifier::truncate] (v as u8),
        None => 0,
    }
}

/// The CAN identifier of an entry, narrowed to 32 bits (0 when none is given).
pub open spec fn entry_can_id(e: SignalEntry) -> u32 {
    match e.can_id {
        Some(v) => #[verifier::truncate] (v as u32),
        None => 0,
    }
}

/// The documented accessor for one entry.
pub open spec fn accessor_text(e: SignalEntry) -> Seq<char> {
    "/// `"@ + entry_name(e) + "`: CAN 0x"@ + hex_number_text(entry_can_id(e) as nat)
        + ", start bit "@ + decimal_text(entry_start(e) as nat) + ", "@ + decimal_text(
        entry_length(e) as nat,
    ) + " bits.\n"@ + "pub fn "@ + entry_name(e) + "() -> Signal {\n    Signal::new("@
        + decimal_text(entry_start(e) as nat) + ", "@ + decimal_text(entry_length(e) as nat)
        + ").expect(\"invalid signal layout for "@ + entry_name(e) + "\")\n}\n\n"@
}

/// The accessors for `entries`, in order.
pub open spec fn accessors_text(entries: Seq<SignalEntry>) -> Seq<char>
    decreases entries.len(),
{
    if entries.len() == 0 {
        Seq::empty()
    } else {
        accessors_text(entries.drop_last()) + accessor_text(entries.last())
    }
}

/// The lines that open an accessor module.
pub const SIGNAL_MODULE_HEADER: &'static str = "// Signal accessors for a signals.toml database.\n// Edit the database, not this file.\n\nuse tpt_chassis::autosar::Signal;\n\n";

/// The start bit of an entry.
fn start_of(e: &SignalEntry) -> (r: u8)
    ensures
        r == entry_start(*e),
{
    match e.start_bit {
        Some(v) => #[verifier::truncate] (v as u8),
        None => 0,
    }
}

/// The width of an entry.
fn length_of(e: &SignalEntry) -> (r: u8)
    ensures
        r == entry_length(*e),
{
    match e.length_bits {
        Some(v) => #[verifier::truncate] (v as u8),
        None => 0,
    }
}

/// The CAN identifier of an entry.
fn can_id_of(e: &SignalEntry) -> (r: u32)
    ensures
        r == entry_can_id(*e),
{
    match e.can_id {
        Some(v) => #[verifier::truncate] (v as u32),
        None => 0,
    }
}

/// Renders the documented accessor for one entry.
fn accessor(e: &SignalEntry) -> (r: String)
    ensures
        r@ == accessor_text(*e),
{
    let name: &str = match &e.name {
        Some(n) => n.as_str(),
        None => "signal",
    };
    let start = decimal(start_of(e) as u32);
    let length = decimal(length_of(e) as u32);
    let mut s = String::from_str("/// `");
    s.append(name);
    s.append("`: CAN 0x");
    s.append(hex_number(can_id_of(e)).as_str());
    s.append(", start bit ");
    s.append(start.as_str());
    s.append(", ");
    s.append(length.as_str());
    s.append(" bits.\n");
    s.append("pub fn ");
    s.append(name);
    s.append("() -> Signal {\n    Signal::new(");
    s.append(start.as_str());
    s.append(", ");
    s.append(length.as_str());
    s.append(").expect(\"invalid signal layout for ");
    s.append(name);
    s.append("\")\n}\n\n");
    s
}

/// Renders a module of accessors, one per entry, in order.
pub fn signal_accessors(entries: &[SignalEntry]) -> (r: String)
    ensures
        r@ == SIGNAL_MODULE_HEADER@ + accessors_text(entries@),
{
    let mut s = String::from_str(SIGNAL_MODULE_HEADER);
    let mut i: usize = 0;
    while i < entries.len()
        invariant
            i <= entries@.len(),
            s@ == SIGNAL_MODULE_HEADER@ + accessors_text(entries@.take(i as int)),
        decreases entries.len() - i,
    {
        let text = accessor(&entries[i]);
        s.append(text.as_str());
        proof {
            assert(entries@.take(i + 1).drop_last() =~= entries@.take(i as int));
        }
        i = i + 1;
    }
    assert(entries@.take(entries@.len() as int) =~= entries@);
    s
}

} // verus!
