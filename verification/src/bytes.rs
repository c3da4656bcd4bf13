//! Little-endian scalar decoding over plain byte sequences.
//!
//! Every multi-byte field of the wire layout is little-endian regardless of
//! host byte order; the readers here state exactly which integer a run of
//! bytes denotes.

use vstd::prelude::*;

verus! {

/// The unsigned 32-bit integer denoted by four bytes in little-endian order.
pub open spec fn u32_from_le(b0: u8, b1: u8, b2: u8, b3: u8) -> u32 {
    (b0 + b1 * 0x100 + b2 * 0x1_0000 + b3 * 0x100_0000) as u32
}

/// The signed 32-bit integer denoted by four bytes in little-endian order
/// (two's complement).
pub open spec fn i32_from_le(b0: u8, b1: u8, b2: u8, b3: u8) -> i32 {
    let u = u32_from_le(b0, b1, b2, b3) as int;
    if u < 0x8000_0000 {
        u as i32
    } else {
        (u - 0x1_0000_0000) as i32
    }
}

/// Reads the little-endian signed 32-bit integer stored at `off` in `b`.
pub fn read_i32_le(b: &Vec<u8>, off: usize) -> (r: i32)
    requires
        off + 4 <= b.len(),
    ensures
        r == i32_from_le(b@[off as int], b@[off as int + 1], b@[off as int + 2], b@[off as int + 3]),
{
    let u: u32 = b[off] as u32 + (b[off + 1] as u32) * 0x100 + (b[off + 2] as u32) * 0x1_0000
        + (b[off + 3] as u32) * 0x100_0000;
    if u < 0x8000_0000 {
        u as i32
    } else {
        let wide: i64 = (u as i64) - 0x1_0000_0000;
        wide as i32
    }
}

} // verus!
