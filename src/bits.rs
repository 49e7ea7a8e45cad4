//! Two's-complement reading of reconstructed immediates.
use vstd::prelude::*;

verus! {

/// `v`, a value below `modulus` (a power of two, `2^width`), read as a
/// `width`-bit two's-complement number.
pub open spec fn signed(v: int, modulus: int) -> int {
    if v < modulus / 2 {
        v
    } else {
        v - modulus
    }
}

/// Sign-extends the `width`-bit field `v`, where `modulus` is `2^width`.
pub(crate) fn to_signed(v: u32, modulus: u64) -> (r: i64)
    requires
        2 <= modulus <= 0x1_0000_0000,
        v < modulus,
    ensures
        r as int == signed(v as int, modulus as int),
{
    if (v as u64) < modulus / 2 {
        v as i64
    } else {
        v as i64 - modulus as i64
    }
}

} // verus!
