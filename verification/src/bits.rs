//! Bit-level helpers: circular rotation of the cycle counter.

use vstd::prelude::*;

verus! {

/// Right rotation of a 64-bit value by `k` positions: the bits shifted out at
/// the low end wrap around to the high end. Rotation by any multiple of 64 is
/// the identity, so only `k % 64` matters.
pub open spec fn spec_rotate_right_u64(x: u64, k: u32) -> u64 {
    let s = (k as u64) % 64;
    if s == 0 {
        x
    } else {
        (x >> s) | (x << ((64 - s) as u64))
    }
}

/// Executable circular right rotation, proved equal to its specification.
pub fn rotate_right_u64(x: u64, k: u32) -> (r: u64)
    ensures
        r == spec_rotate_right_u64(x, k),
{
    let s: u64 = (k as u64) % 64;
    if s == 0 {
        x
    } else {
        (x >> s) | (x << (64 - s))
    }
}

} // verus!
