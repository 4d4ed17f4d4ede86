//! Master brightness: a fade of the whole picture of one engine towards white
//! or towards black.

use vstd::prelude::*;
use crate::mmio::{AddressTable, Store32};

verus! {

/// One of the two display engines, as the offset of its registers from those
/// of the main engine.
#[allow(non_camel_case_types)]
#[derive(Clone, Copy, Debug, PartialEq, Eq, Structural)]
pub enum GfxEngine {
    MAIN,
    SUB,
}

impl GfxEngine {
    /// The address offset that selects the engine's registers.
    pub open spec fn spec_offset(self) -> usize {
        match self {
            GfxEngine::MAIN => 0,
            GfxEngine::SUB => 0x1000,
        }
    }

    /// The address offset that selects the engine's registers.
    #[verifier::when_used_as_spec(spec_offset)]
    pub fn offset(self) -> (offset: usize)
        ensures
            offset == self.spec_offset(),
    {
        match self {
            GfxEngine::MAIN => 0,
            GfxEngine::SUB => 0x1000,
        }
    }
}

/// The mode "fade up", in place: bits 14 and 15 hold 1.
pub const BRIGHTNESS_UP: u32 = 0x4000;

/// The mode "fade down", in place: bits 14 and 15 hold 2.
pub const BRIGHTNESS_DOWN: u32 = 0x8000;

/// How far a brightness level fades: its distance from 0, at most 16.
pub open spec fn brightness_magnitude(brightness: int) -> int {
    let distance = if brightness < 0 { -brightness } else { brightness };
    if distance > 16 { 16 } else { distance }
}

/// The fade mode of a brightness level: 2 (down) below 0, else 1 (up).
pub open spec fn brightness_mode(brightness: int) -> int {
    if brightness < 0 { 2 } else { 1 }
}

/// The register value for a brightness level: the mode in bits 14 and 15,
/// the magnitude in the bits below.
pub open spec fn brightness_word(brightness: int) -> int {
    brightness_mode(brightness) * 0x4000 + brightness_magnitude(brightness)
}

/// The address of an engine's master brightness register: the main engine's
/// address with the bits of the engine's offset set.
pub open spec fn brightness_address(table: AddressTable, engine: GfxEngine) -> usize {
    table.master_bright_main | engine.spec_offset()
}

/// The store that sets the master brightness of `engine`.
///
/// `brightness` runs from -16 (black) over 0 (unchanged) to 16 (white);
/// a level beyond either end counts as that end.
pub fn set_brightness(table: &AddressTable, engine: GfxEngine, brightness: i32) -> (store: Store32)
    ensures
        store.address == brightness_address(*table, engine),
        store.value == brightness_word(brightness as int),
{
    let address = table.master_bright_main | engine.offset();
    let mut mode: u32 = BRIGHTNESS_UP;
    let mut level: i32 = brightness;
    if level < 0 {
        level = if level < -16 { 16 } else { -level };
        mode = BRIGHTNESS_DOWN;
    }
    if level > 16 {
        level = 16;
    }
    let magnitude: u32 = level as u32;
    assert(mode | magnitude == mode + magnitude) by (bit_vector)
        requires
            mode == 0x4000 || mode == 0x8000,
            magnitude <= 16,
    ;
    Store32 { address, value: mode | magnitude }
}

/// A level beyond 16 in either direction gives the store of 16 in that direction.
pub proof fn lemma_brightness_clamped(brightness: int)
    ensures
        brightness >= 16 ==> brightness_word(brightness) == brightness_word(16),
        brightness <= -16 ==> brightness_word(brightness) == brightness_word(-16),
        brightness_word(0) == 0x4000,
{
}

} // verus!
