//! GSP register maps: offsets, bitfield bounds and the masks derived from them.

pub mod ga102_gsp;
pub mod gb100_gsp;

use vstd::prelude::*;

verus! {

/// The 32-bit mask of the bitfield `hi:lo`: the full word for `31:0`, otherwise
/// `hi - lo + 1` ones shifted up to bit `lo`.
pub open spec fn field_mask(hi: u32, lo: u32) -> u32 {
    if hi >= 31 && lo == 0 {
        0xffff_ffffu32
    } else {
        (((1u32 << ((hi - lo + 1) as u32)) - 1) as u32) << lo
    }
}

/// Computes the mask of the bitfield `hi:lo`.
pub fn field_mask_of(hi: u32, lo: u32) -> (m: u32)
    requires
        lo <= hi <= 31,
    ensures
        m == field_mask(hi, lo),
{
    if hi >= 31 && lo == 0 {
        0xffff_ffff
    } else {
        let width: u32 = hi - lo + 1;
        assert(width <= 31 ==> (1u32 << width) >= 1) by (bit_vector);
        ((1u32 << width) - 1) << lo
    }
}

/// A bitfield mask selects exactly the bits `lo..=hi` of a register word.
pub proof fn field_mask_selects_field_bits(hi: u32, lo: u32, bit: u32)
    requires
        lo <= hi <= 31,
        bit < 32,
    ensures
        (field_mask(hi, lo) >> bit) & 1 == 1 <==> lo <= bit <= hi,
{
    assert(lo <= hi <= 31 && bit < 32 ==> (((if hi >= 31 && lo == 0 {
        0xffff_ffffu32
    } else {
        (((1u32 << ((hi - lo + 1) as u32)) - 1) as u32) << lo
    }) >> bit) & 1 == 1 <==> lo <= bit <= hi)) by (bit_vector);
}

} // verus!
