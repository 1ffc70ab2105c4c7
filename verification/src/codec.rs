//! Fixed-width little-endian integers in byte slices.
//!
//! The spec functions say what value a run of bytes stands for; the
//! executable readers return exactly that value, or [`TruncatedInput`] where
//! the slice ends before the field does.
use crate::error::TruncatedInput;
use vstd::prelude::*;

verus! {

/// True if `width` bytes starting at `at` lie inside `bytes`.
pub open spec fn in_bounds(bytes: Seq<u8>, at: int, width: int) -> bool {
    0 <= at && at + width <= bytes.len()
}

/// The unsigned 32-bit value stored little-endian at `at`.
pub open spec fn le_u32(bytes: Seq<u8>, at: int) -> u32
    recommends
        in_bounds(bytes, at, 4),
{
    (bytes[at] + bytes[at + 1] * 0x100 + bytes[at + 2] * 0x1_0000 + bytes[at + 3]
        * 0x100_0000) as u32
}

/// The unsigned 64-bit value stored little-endian at `at`.
pub open spec fn le_u64(bytes: Seq<u8>, at: int) -> u64
    recommends
        in_bounds(bytes, at, 8),
{
    (le_u32(bytes, at) + le_u32(bytes, at + 4) * 0x1_0000_0000) as u64
}

/// The two's complement 32-bit value stored little-endian at `at`.
pub open spec fn le_i32(bytes: Seq<u8>, at: int) -> i32
    recommends
        in_bounds(bytes, at, 4),
{
    let raw = le_u32(bytes, at);
    if raw < 0x8000_0000 {
        raw as i32
    } else {
        (raw - 0x1_0000_0000) as i32
    }
}

/// Reads a `u32` whose bytes are known to be present.
pub(crate) fn u32_at(bytes: &[u8], at: usize) -> (value: u32)
    requires
        in_bounds(bytes@, at as int, 4),
    ensures
        value == le_u32(bytes@, at as int),
{
    let b0: u32 = bytes[at] as u32;
    let b1: u32 = bytes[at + 1] as u32;
    let b2: u32 = bytes[at + 2] as u32;
    let b3: u32 = bytes[at + 3] as u32;
    b0 + b1 * 0x100 + b2 * 0x1_0000 + b3 * 0x100_0000
}

/// Reads a `u64` whose bytes are known to be present.
pub(crate) fn u64_at(bytes: &[u8], at: usize) -> (value: u64)
    requires
        in_bounds(bytes@, at as int, 8),
    ensures
        value == le_u64(bytes@, at as int),
{
    assert(bytes@.len() == bytes.len());
    let low: u64 = u32_at(bytes, at) as u64;
    let high: u64 = u32_at(bytes, at + 4) as u64;
    low + high * 0x1_0000_0000
}

/// Reads an `i32` whose bytes are known to be present.
pub(crate) fn i32_at(bytes: &[u8], at: usize) -> (value: i32)
    requires
        in_bounds(bytes@, at as int, 4),
    ensures
        value == le_i32(bytes@, at as int),
{
    let raw: u32 = u32_at(bytes, at);
    if raw < 0x8000_0000 {
        raw as i32
    } else {
        let low: i32 = (raw - 0x8000_0000) as i32;
        low + i32::MIN
    }
}

/// True if a field of `width` bytes at `at` fits into a slice of `len`
/// bytes.
fn fits(len: usize, at: usize, width: usize) -> (ok: bool)
    ensures
        ok == (at + width <= len),
{
    width <= len && at <= len - width
}

/// Reads the little-endian `u32` at `at`, if the slice holds its 4 bytes.
pub fn read_u32(bytes: &[u8], at: usize) -> (r: Result<u32, TruncatedInput>)
    ensures
        in_bounds(bytes@, at as int, 4) ==> r == Ok::<u32, TruncatedInput>(
            le_u32(bytes@, at as int),
        ),
        !in_bounds(bytes@, at as int, 4) ==> r == Err::<u32, TruncatedInput>(
            TruncatedInput { offset: at, width: 4 },
        ),
{
    if fits(bytes.len(), at, 4) {
        Ok(u32_at(bytes, at))
    } else {
        Err(TruncatedInput { offset: at, width: 4 })
    }
}

/// Reads the little-endian `u64` at `at`, if the slice holds its 8 bytes.
pub fn read_u64(bytes: &[u8], at: usize) -> (r: Result<u64, TruncatedInput>)
    ensures
        in_bounds(bytes@, at as int, 8) ==> r == Ok::<u64, TruncatedInput>(
            le_u64(bytes@, at as int),
        ),
        !in_bounds(bytes@, at as int, 8) ==> r == Err::<u64, TruncatedInput>(
            TruncatedInput { offset: at, width: 8 },
        ),
{
    if fits(bytes.len(), at, 8) {
        Ok(u64_at(bytes, at))
    } else {
        Err(TruncatedInput { offset: at, width: 8 })
    }
}

/// Reads the little-endian two's complement `i32` at `at`, if the slice
/// holds its 4 bytes.
pub fn read_i32(bytes: &[u8], at: usize) -> (r: Result<i32, TruncatedInput>)
    ensures
        in_bounds(bytes@, at as int, 4) ==> r == Ok::<i32, TruncatedInput>(
            le_i32(bytes@, at as int),
        ),
        !in_bounds(bytes@, at as int, 4) ==> r == Err::<i32, TruncatedInput>(
            TruncatedInput { offset: at, width: 4 },
        ),
{
    if fits(bytes.len(), at, 4) {
        Ok(i32_at(bytes, at))
    } else {
        Err(TruncatedInput { offset: at, width: 4 })
    }
}

} // verus!
