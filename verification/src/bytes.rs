//! Little-endian integers in byte strings.

use vstd::prelude::*;

verus! {

/// The byte `j` places after `start`, or zero once `j` is past the `n` bytes
/// that the word covers.
pub open spec fn byte_or_zero(bytes: Seq<u8>, start: int, n: int, j: int) -> int {
    if j < n {
        bytes[start + j] as int
    } else {
        0
    }
}

/// The little-endian word made of the `n <= 8` bytes of `bytes` from `start`
/// on, zero-extended to 64 bits.
pub open spec fn le_word(bytes: Seq<u8>, start: int, n: int) -> u64 {
    (byte_or_zero(bytes, start, n, 0)
        + byte_or_zero(bytes, start, n, 1) * 0x100
        + byte_or_zero(bytes, start, n, 2) * 0x1_0000
        + byte_or_zero(bytes, start, n, 3) * 0x100_0000
        + byte_or_zero(bytes, start, n, 4) * 0x1_0000_0000
        + byte_or_zero(bytes, start, n, 5) * 0x100_0000_0000
        + byte_or_zero(bytes, start, n, 6) * 0x1_0000_0000_0000
        + byte_or_zero(bytes, start, n, 7) * 0x100_0000_0000_0000) as u64
}

/// The little-endian `u32` in the four bytes at `at`.
pub open spec fn le_u32(bytes: Seq<u8>, at: int) -> u32 {
    le_word(bytes, at, 4) as u32
}

/// The little-endian `u64` in the eight bytes at `at`.
pub open spec fn le_u64(bytes: Seq<u8>, at: int) -> u64 {
    le_word(bytes, at, 8)
}

/// Reads the little-endian word of `n` bytes at `start`.
pub fn load_word(bytes: &[u8], start: usize, n: usize) -> (word: u64)
    requires
        n <= 8,
        start + n <= bytes.len(),
    ensures
        word == le_word(bytes@, start as int, n as int),
{
    let b0: u64 = if n > 0 { bytes[start] as u64 } else { 0 };
    let b1: u64 = if n > 1 { bytes[start + 1] as u64 } else { 0 };
    let b2: u64 = if n > 2 { bytes[start + 2] as u64 } else { 0 };
    let b3: u64 = if n > 3 { bytes[start + 3] as u64 } else { 0 };
    let b4: u64 = if n > 4 { bytes[start + 4] as u64 } else { 0 };
    let b5: u64 = if n > 5 { bytes[start + 5] as u64 } else { 0 };
    let b6: u64 = if n > 6 { bytes[start + 6] as u64 } else { 0 };
    let b7: u64 = if n > 7 { bytes[start + 7] as u64 } else { 0 };
    b0 + b1 * 0x100 + b2 * 0x1_0000 + b3 * 0x100_0000 + b4 * 0x1_0000_0000
        + b5 * 0x100_0000_0000 + b6 * 0x1_0000_0000_0000 + b7 * 0x100_0000_0000_0000
}

/// Reads the little-endian `u32` at `at`.
pub fn read_u32(bytes: &[u8], at: usize) -> (value: u32)
    requires
        at + 4 <= bytes.len(),
    ensures
        value == le_u32(bytes@, at as int),
{
    let word: u64 = load_word(bytes, at, 4);
    proof {
        }
    word as u32
}

/// Reads the little-endian `u64` at `at`.
pub fn read_u64(bytes: &[u8], at: usize) -> (value: u64)
    requires
        at + 8 <= bytes.len(),
    ensures
        value == le_u64(bytes@, at as int),
{
    load_word(bytes, at, 8)
}

} // verus!
