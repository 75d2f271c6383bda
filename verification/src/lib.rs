//! TPT Chassis: vehicle bus abstractions, diagnostics, an atomic update engine
//! and safety primitives for a memory-safe vehicle operating system.
use vstd::prelude::*;

pub mod agl;
pub mod autonomy;
pub mod autosar;
pub mod bus;
pub mod can;
pub mod error;
pub mod flight;
pub mod isotp;
pub mod lin;
pub mod ota;
pub mod safety;
pub mod sim;
pub mod someip;
pub mod text;
pub mod tooling;
pub mod uds;
pub mod wire;
pub mod zephyr;

pub use error::Error;

verus! {

/// Crate version.
pub const VERSION: &'static str = "0.1.0";

/// License identifier string for embedded diagnostics.
pub const LICENSE: &'static str = "MIT OR Apache-2.0";

} // verus!
