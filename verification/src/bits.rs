//! Word-level arithmetic of the simulated machine: 16-bit wraparound
//! addition and sign extension of small two's-complement bit fields.

use vstd::prelude::*;

verus! {

/// 16-bit wraparound addition, the only address and value arithmetic the
/// machine performs.
pub open spec fn wadd(a: u16, b: u16) -> u16 {
    if a + b > 0xFFFF {
        (a + b - 0x10000) as u16
    } else {
        (a + b) as u16
    }
}

/// The bit of `x` at position `pos` (position 0 is the least significant).
pub open spec fn bit_at(x: u16, pos: u16) -> bool {
    (x >> pos) & 1 == 1
}

/// Sign extension of the low `bits` bits of `x` to a full 16-bit word:
/// if the field's top bit is set, all bits above the field become 1,
/// which yields the field's two's-complement value modulo 2^16.
pub open spec fn sext(x: u16, bits: u16) -> u16
    recommends
        1 <= bits <= 15,
{
    if bit_at(x, (bits - 1) as u16) {
        x | (0xFFFFu16 << bits)
    } else {
        x
    }
}

/// Widens a `bit_count`-bit two's-complement field to 16 bits while
/// preserving its signed value: a field whose top bit is clear is
/// returned unchanged, and one whose top bit is set becomes the 16-bit
/// two's-complement encoding of the same negative value.
pub fn sign_extend(x: u16, bit_count: u8) -> (r: u16)
    requires
        1 <= bit_count <= 15,
    ensures
        r == sext(x, bit_count as u16),
        !bit_at(x, (bit_count - 1) as u16) ==> r == x,
        x < (1u16 << ((bit_count - 1) as u16)) ==> r == x,
        bit_at(x, (bit_count - 1) as u16) && x < (1u16 << (bit_count as u16)) ==> r
            == x + 0x10000 - (1u16 << (bit_count as u16)),
{
    let shift: u16 = (bit_count - 1) as u16;
    let width: u16 = bit_count as u16;
    proof {
        assert(shift + 1 == width && shift <= 14 ==> {
            &&& ((x >> shift) & 1 == 1 ==> (x | (0xFFFFu16 << width)) == sext(x, width))
            &&& ((x >> shift) & 1 == 1 && x < (1u16 << width) ==> (x | (0xFFFFu16 << width)) == x
                + 0x10000 - (1u16 << width))
            &&& ((x >> shift) & 1 == 0 ==> x == sext(x, width))
            &&& (x < (1u16 << shift) ==> (x >> shift) & 1 == 0)
        }) by (bit_vector);
    }
    if ((x >> shift) & 1) == 1 {
        x | (0xFFFFu16 << width)
    } else {
        x
    }
}

} // verus!
