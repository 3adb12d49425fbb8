//! The arithmetic model of blinding factors: 32-byte big-endian scalars
//! modulo the order of the secp256k1 group.

use vstd::prelude::*;

verus! {

/// The order of the secp256k1 group, the modulus of all scalar arithmetic.
pub open spec fn curve_order() -> int {
    let w: int = 0x1_0000_0000_0000_0000;
    ((0xFFFF_FFFF_FFFF_FFFF * w + 0xFFFF_FFFF_FFFF_FFFE) * w + 0xBAAE_DCE6_AF48_A03B) * w
        + 0xBFD2_5E8C_D036_4141
}

/// The integer that the bytes `b` spell in big-endian order.
pub open spec fn scalar_of(b: Seq<u8>) -> nat
    decreases b.len(),
{
    if b.len() == 0 {
        0
    } else {
        scalar_of(b.drop_last()) * 256 + b.last() as nat
    }
}

} // verus!
