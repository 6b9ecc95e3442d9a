use vstd::prelude::*;

verus! {

/// Bytes of the tag that precedes the fields of every persisted record.
pub const ANCHOR_DISCRIMINATOR_BYTES: usize = 8;

/// Bytes of a persisted address.
pub const PUBKEY_BYTES: usize = 32;

/// Bytes of a persisted 64-bit integer.
pub const U64_BYTES: usize = 8;

/// Bytes of a persisted 8-bit integer.
pub const U8_BYTES: usize = 1;

/// A relative expiry must be below this many slots.
pub const MAX_RELATIVE_EXPIRY: u64 = 100_000;

} // verus!
