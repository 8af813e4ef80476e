//! Bit expanders for tile data: each of the eight pattern bits of a byte
//! spread into its own nibble, in both pixel orders.

use vstd::prelude::*;

verus! {

/// Byte `n`'s bits spread one per nibble, leftmost pixel (bit 7) in the
/// top nibble.
pub open spec fn spec_expander_left(n: int) -> u32 {
    let val = n as u32;
    let data = 0u32;
    let data = (data << 4) | (val >> 7) & 1;
    let data = (data << 4) | (val >> 6) & 1;
    let data = (data << 4) | (val >> 5) & 1;
    let data = (data << 4) | (val >> 4) & 1;
    let data = (data << 4) | (val >> 3) & 1;
    let data = (data << 4) | (val >> 2) & 1;
    let data = (data << 4) | (val >> 1) & 1;
    let data = (data << 4) | (val >> 0) & 1;
    data
}

/// Byte `n`'s bits spread one per nibble, leftmost pixel (bit 0) in the
/// top nibble: the horizontally mirrored order.
pub open spec fn spec_expander_right(n: int) -> u32 {
    let val = n as u32;
    let data = 0u32;
    let data = (data << 4) | (val >> 0) & 1;
    let data = (data << 4) | (val >> 1) & 1;
    let data = (data << 4) | (val >> 2) & 1;
    let data = (data << 4) | (val >> 3) & 1;
    let data = (data << 4) | (val >> 4) & 1;
    let data = (data << 4) | (val >> 5) & 1;
    let data = (data << 4) | (val >> 6) & 1;
    let data = (data << 4) | (val >> 7) & 1;
    data
}

/// Spread a pattern byte into nibbles, bit 7 first.
pub fn expander_left(n: usize) -> (r: u32)
    ensures
        r == spec_expander_left(n as int),
{
    let mut data = 0u32;
    let val = n as u32;
    data = (data << 4) | (val >> 7) & 1;
    data = (data << 4) | (val >> 6) & 1;
    data = (data << 4) | (val >> 5) & 1;
    data = (data << 4) | (val >> 4) & 1;
    data = (data << 4) | (val >> 3) & 1;
    data = (data << 4) | (val >> 2) & 1;
    data = (data << 4) | (val >> 1) & 1;
    data = (data << 4) | (val >> 0) & 1;
    data
}

/// Spread a pattern byte into nibbles, bit 0 first.
pub fn expander_right(n: usize) -> (r: u32)
    ensures
        r == spec_expander_right(n as int),
{
    let mut data = 0u32;
    let val = n as u32;
    data = (data << 4) | (val >> 0) & 1;
    data = (data << 4) | (val >> 1) & 1;
    data = (data << 4) | (val >> 2) & 1;
    data = (data << 4) | (val >> 3) & 1;
    data = (data << 4) | (val >> 4) & 1;
    data = (data << 4) | (val >> 5) & 1;
    data = (data << 4) | (val >> 6) & 1;
    data = (data << 4) | (val >> 7) & 1;
    data
}

} // verus!
