//! The display control and background control registers of both engines:
//! what is stored where to set one, and what a loaded value means.
//!
//! A setter returns the one store that writes the register. A getter takes
//! the value that its caller loaded from the register, with one load, and
//! gives it its fields; no bit pattern is refused.

use vstd::prelude::*;
use crate::background::{background_unpack, BackgroundControl};
use crate::main_control::{main_control_unpack, DisplayControlMain};
use crate::mmio::{AddressTable, Store16, Store32};
use crate::sub_control::{sub_control_unpack, DisplayControlSub};

verus! {

/// The layer that an index stands for: an index past the last layer wraps
/// round to the first, so index 4 is layer 0 again.
pub open spec fn bg_layer(bg: usize) -> int {
    (bg % 4) as int
}

/// The distance in bytes from the control register of layer 0 to that of the
/// layer `bg`.
pub open spec fn bg_control_offset(bg: usize) -> int {
    2 * bg_layer(bg)
}

/// The address of the control register of the main engine's layer `bg`.
pub open spec fn main_bg_control_address(table: AddressTable, bg: usize) -> int {
    table.bg0cnt_main + bg_control_offset(bg)
}

/// The address of the control register of the sub engine's layer `bg`.
pub open spec fn sub_bg_control_address(table: AddressTable, bg: usize) -> int {
    table.bg0cnt_sub + bg_control_offset(bg)
}

/// Computes the distance in bytes from the control register of layer 0 to
/// that of the layer `bg`.
fn layer_offset(bg: usize) -> (offset: usize)
    ensures
        offset == bg_control_offset(bg),
        offset <= 6,
{
    let layer = bg & 0x3;
    assert(layer == bg % 4 && layer <= 3) by (bit_vector)
        requires
            layer == bg & 0x3,
    ;
    layer * 2
}

/// The address of the control register of the main engine's layer `bg`,
/// from which a getter's value is loaded.
pub fn main_bg_control_register(table: &AddressTable, bg: usize) -> (address: usize)
    requires
        table.wf(),
    ensures
        address == main_bg_control_address(*table, bg),
{
    table.bg0cnt_main + layer_offset(bg)
}

/// The address of the control register of the sub engine's layer `bg`,
/// from which a getter's value is loaded.
pub fn sub_bg_control_register(table: &AddressTable, bg: usize) -> (address: usize)
    requires
        table.wf(),
    ensures
        address == sub_bg_control_address(*table, bg),
{
    table.bg0cnt_sub + layer_offset(bg)
}

/// The store that sets the main engine's display control to `c`: every bit
/// of the register is overwritten.
pub fn set_main_display_control(table: &AddressTable, c: DisplayControlMain) -> (store: Store32)
    ensures
        store.address == table.dispcnt_main,
        store.value == c.raw,
{
    Store32 { address: table.dispcnt_main, value: u32::from(c) }
}

/// The main engine's display control, from the value loaded from
/// `dispcnt_main`.
#[must_use]
pub fn get_main_display_control(raw: u32) -> (c: DisplayControlMain)
    ensures
        c.raw == raw,
        c@ == main_control_unpack(raw),
{
    DisplayControlMain::from(raw)
}

/// The store that sets the sub engine's display control to `c`: every bit of
/// the register is overwritten.
pub fn set_sub_display_control(table: &AddressTable, c: DisplayControlSub) -> (store: Store32)
    ensures
        store.address == table.dispcnt_sub,
        store.value == c.raw,
{
    Store32 { address: table.dispcnt_sub, value: u32::from(c) }
}

/// The sub engine's display control, from the value loaded from
/// `dispcnt_sub`.
#[must_use]
pub fn get_sub_display_control(raw: u32) -> (c: DisplayControlSub)
    ensures
        c.raw == raw,
        c@ == sub_control_unpack(raw),
{
    DisplayControlSub::from(raw)
}

/// The store that sets the control register of the main engine's layer `bg`
/// to `c`. An index of 4 or more is not refused: it names the layer
/// `bg % 4`, and so changes a register that a smaller index names too.
pub fn set_main_bg_control(table: &AddressTable, bg: usize, c: BackgroundControl) -> (store: Store16)
    requires
        table.wf(),
    ensures
        store.address == main_bg_control_address(*table, bg),
        store.value == c.raw,
{
    Store16 { address: main_bg_control_register(table, bg), value: u16::from(c) }
}

/// The control of a layer of the main engine, from the value loaded from the
/// layer's register (`main_bg_control_register`).
#[must_use]
pub fn get_main_bg_control(raw: u16) -> (c: BackgroundControl)
    ensures
        c.raw == raw,
        c@ == background_unpack(raw),
{
    BackgroundControl::from(raw)
}

/// The store that sets the control register of the sub engine's layer `bg`
/// to `c`. An index of 4 or more is not refused: it names the layer
/// `bg % 4`, and so changes a register that a smaller index names too.
pub fn set_sub_bg_control(table: &AddressTable, bg: usize, c: BackgroundControl) -> (store: Store16)
    requires
        table.wf(),
    ensures
        store.address == sub_bg_control_address(*table, bg),
        store.value == c.raw,
{
    Store16 { address: sub_bg_control_register(table, bg), value: u16::from(c) }
}

/// The control of a layer of the sub engine, from the value loaded from the
/// layer's register (`sub_bg_control_register`).
#[must_use]
pub fn get_sub_bg_control(raw: u16) -> (c: BackgroundControl)
    ensures
        c.raw == raw,
        c@ == background_unpack(raw),
{
    BackgroundControl::from(raw)
}

/// Two layer indices name the same register of an engine exactly when they
/// leave the same remainder on division by 4. So every index names one of
/// the four registers of layers 0 to 3, and index 4 names that of layer 0.
pub proof fn lemma_bg_control_aliasing(table: AddressTable, bg: usize, other: usize)
    ensures
        main_bg_control_address(table, bg) == main_bg_control_address(table, other) <==> bg % 4
            == other % 4,
        sub_bg_control_address(table, bg) == sub_bg_control_address(table, other) <==> bg % 4
            == other % 4,
        main_bg_control_address(table, bg) == main_bg_control_address(table, (bg % 4) as usize),
        sub_bg_control_address(table, bg) == sub_bg_control_address(table, (bg % 4) as usize),
        main_bg_control_address(table, 4) == main_bg_control_address(table, 0),
        sub_bg_control_address(table, 4) == sub_bg_control_address(table, 0),
{
}

} // verus!
