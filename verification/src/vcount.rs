//! The scan line at which the display status register raises its line match.

use vstd::prelude::*;
use crate::mmio::{AddressTable, Store16};

verus! {

/// The number of scan lines of a frame: 192 visible ones, then the blanking interval.
pub const SCAN_LINES: u16 = 263;

/// The bits of the display status register that hold the trigger line: 7 to 14.
pub const VCOUNT_TRIGGER_BITS: u16 = 0x7F80;

/// The trigger line as the register holds it: its low seven bits in bits 8 to
/// 14, its bit 8 in bit 7.
pub open spec fn vcount_trigger_bits(line: u16) -> u16 {
    ((line & 0x7F) << 8) | ((line >> 1) & 0x80)
}

/// The display status register after the trigger line is set: bits 7 to 14
/// hold the line, every other bit is that of `current`.
pub open spec fn vcount_trigger_word(current: u16, line: u16) -> u16 {
    (current & !VCOUNT_TRIGGER_BITS) | vcount_trigger_bits(line)
}

/// The store that sets the scan line for which the line match is raised.
///
/// `current` is the value loaded from the display status register. Lines 0 to
/// 191 are visible, 192 to 262 fall into the vertical blanking interval.
/// A handler that changes the register between the load and the store loses
/// its change.
pub fn set_vcount_trigger(table: &AddressTable, current: u16, line: u16) -> (store: Store16)
    requires
        line < SCAN_LINES,
    ensures
        store.address == table.dispstat,
        store.value == vcount_trigger_word(current, line),
        store.value & !VCOUNT_TRIGGER_BITS == current & !VCOUNT_TRIGGER_BITS,
        (store.value >> 8) & 0x7F == line % 128,
        (store.value >> 7) & 1 == line / 256,
{
    let value = (current & !VCOUNT_TRIGGER_BITS) | ((line & 0x7F) << 8) | ((line >> 1) & 0x80);
    assert(value == (current & !0x7F80u16) | (((line & 0x7F) << 8) | ((line >> 1) & 0x80)))
        by (bit_vector)
        requires
            value == (current & !0x7F80u16) | ((line & 0x7F) << 8) | ((line >> 1) & 0x80),
    ;
    assert({
        &&& value & !0x7F80u16 == current & !0x7F80u16
        &&& (value >> 8) & 0x7F == line % 128
        &&& (value >> 7) & 1 == line / 256
    }) by (bit_vector)
        requires
            value == (current & !0x7F80u16) | (((line & 0x7F) << 8) | ((line >> 1) & 0x80)),
            line < 263,
    ;
    Store16 { address: table.dispstat, value }
}

} // verus!
