//! Arena buffer for a schema-driven binary format: a single growable byte
//! store with a two-byte header, a bump allocator, fixed-width big-endian
//! address fields, and bounds-checked reads of fixed-size byte windows.
#![allow(non_camel_case_types)]

use vstd::prelude::*;

pub mod error;
pub mod memory;
pub mod pointer;

verus! {

/// Format-version tag held at byte 0 of every buffer.
pub const PROTOCOL_VERSION: u8 = 1;

} // verus!
