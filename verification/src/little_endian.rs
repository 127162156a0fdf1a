//! Numbers as they lie in memory on this CPU: least significant byte first.

use vstd::prelude::*;

verus! {

/// The two bytes at `at`, least significant first.
pub open spec fn le_u16(bytes: Seq<u8>, at: int) -> u16 {
    (bytes[at] as u16) | ((bytes[at + 1] as u16) << 8)
}

/// The four bytes at `at`, least significant first.
pub open spec fn le_u32(bytes: Seq<u8>, at: int) -> u32 {
    (bytes[at] as u32) | ((bytes[at + 1] as u32) << 8) | ((bytes[at + 2] as u32) << 16) | ((bytes[at
        + 3] as u32) << 24)
}

/// The eight bytes at `at`, least significant first.
pub open spec fn le_u64(bytes: Seq<u8>, at: int) -> u64 {
    (bytes[at] as u64) | ((bytes[at + 1] as u64) << 8) | ((bytes[at + 2] as u64) << 16) | ((bytes[at
        + 3] as u64) << 24) | ((bytes[at + 4] as u64) << 32) | ((bytes[at + 5] as u64) << 40) | ((
    bytes[at + 6] as u64) << 48) | ((bytes[at + 7] as u64) << 56)
}

/// Reads the two bytes at `at`, least significant first.
pub fn read_u16(bytes: &[u8], at: usize) -> (r: u16)
    requires
        at + 2 <= bytes@.len(),
    ensures
        r == le_u16(bytes@, at as int),
{
    (bytes[at] as u16) | ((bytes[at + 1] as u16) << 8)
}

/// Reads the four bytes at `at`, least significant first.
pub fn read_u32(bytes: &[u8], at: usize) -> (r: u32)
    requires
        at + 4 <= bytes@.len(),
    ensures
        r == le_u32(bytes@, at as int),
{
    (bytes[at] as u32) | ((bytes[at + 1] as u32) << 8) | ((bytes[at + 2] as u32) << 16) | ((bytes[at
        + 3] as u32) << 24)
}

/// Reads the eight bytes at `at`, least significant first.
pub fn read_u64(bytes: &[u8], at: usize) -> (r: u64)
    requires
        at + 8 <= bytes@.len(),
    ensures
        r == le_u64(bytes@, at as int),
{
    (bytes[at] as u64) | ((bytes[at + 1] as u64) << 8) | ((bytes[at + 2] as u64) << 16) | ((bytes[at
        + 3] as u64) << 24) | ((bytes[at + 4] as u64) << 32) | ((bytes[at + 5] as u64) << 40) | ((
    bytes[at + 6] as u64) << 48) | ((bytes[at + 7] as u64) << 56)
}

} // verus!
