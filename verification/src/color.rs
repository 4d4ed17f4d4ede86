//! Conversion of colours to the 15-bit form that the palettes hold.

use vstd::prelude::*;

verus! {

/// The red channel of a colour `0xRRGGBB`.
pub open spec fn red8(x: u32) -> u32 {
    (x >> 16) & 0xFF
}

/// The green channel of a colour `0xRRGGBB`.
pub open spec fn green8(x: u32) -> u32 {
    (x >> 8) & 0xFF
}

/// The blue channel of a colour `0xRRGGBB`.
pub open spec fn blue8(x: u32) -> u32 {
    x & 0xFF
}

/// The palette form of a colour: the top five bits of red in bits 0 to 4, of
/// green in bits 5 to 9, of blue in bits 10 to 14.
pub open spec fn rgb15_word(x: u32) -> int {
    red8(x) / 8 + 32 * (green8(x) / 8) + 1024 * (blue8(x) / 8)
}

/// Converts a colour `0xRRGGBB` to the 15-bit palette form. The top byte of
/// `x` has no part in the result.
pub fn rgb15(x: u32) -> (colour: u16)
    ensures
        colour == rgb15_word(x),
        colour <= 0x7FFF,
{
    let packed: u32 = ((x & 0xF80000) >> 19) | ((x & 0x00F800) >> 6) | ((x & 0x0000F8) << 7);
    assert(packed == ((x >> 16) & 0xFF) / 8 + 32 * (((x >> 8) & 0xFF) / 8) + 1024 * ((x & 0xFF) / 8)
        && packed <= 0x7FFF) by (bit_vector)
        requires
            packed == ((x & 0xF80000) >> 19) | ((x & 0x00F800) >> 6) | ((x & 0x0000F8) << 7),
    ;
    packed as u16
}

} // verus!
