//! Colour packing for the 2D drawing backend.

use vstd::prelude::*;

verus! {

/// The packed value of four channels: red in the lowest byte, alpha in the
/// highest.
pub open spec fn rgba_spec(r: u8, g: u8, b: u8, a: u8) -> u32 {
    (r as int + (g as int) * 0x100 + (b as int) * 0x1_0000 + (a as int) * 0x100_0000) as u32
}

/// Packs four 8-bit channels into one 32-bit colour, little end first.
pub fn rgba(r: u8, g: u8, b: u8, a: u8) -> (color: u32)
    ensures
        color == rgba_spec(r, g, b, a),
        color & 0xff == r,
        (color >> 8) & 0xff == g,
        (color >> 16) & 0xff == b,
        (color >> 24) & 0xff == a,
{
    let color: u32 = r as u32 | ((g as u32) << 8) | ((b as u32) << 16) | ((a as u32) << 24);
    assert(color == r as u32 + (g as u32) * 0x100 + (b as u32) * 0x1_0000 + (a as u32) * 0x100_0000
        && color & 0xff == r as u32
        && (color >> 8) & 0xff == g as u32
        && (color >> 16) & 0xff == b as u32
        && (color >> 24) & 0xff == a as u32) by (bit_vector)
        requires
            color == r as u32 | ((g as u32) << 8) | ((b as u32) << 16) | ((a as u32) << 24),
    ;
    color
}

} // verus!
