//! Where the display registers live, and the stores that the operations of
//! this library ask their caller to perform.
//!
//! Nothing here touches memory. An operation that changes a register returns
//! the one store that carries the change out; an operation that depends on a
//! register's present value takes that value as an argument, loaded by the
//! caller from the register named in the operation's description.

use vstd::prelude::*;

verus! {

/// The physical addresses of the registers that this library configures.
///
/// The addresses are handed in from outside and are not interpreted here,
/// except that the four background control registers of an engine follow
/// their base at a distance of two bytes each.
#[derive(Clone, Copy, Debug, PartialEq, Eq, Structural)]
pub struct AddressTable {
    /// Display control of the main engine, 32 bits wide.
    pub dispcnt_main: usize,
    /// Display control of the sub engine, 32 bits wide.
    pub dispcnt_sub: usize,
    /// Control of background layer 0 of the main engine, 16 bits wide.
    pub bg0cnt_main: usize,
    /// Control of background layer 0 of the sub engine, 16 bits wide.
    pub bg0cnt_sub: usize,
    /// Power control, 32 bits wide.
    pub powcnt1: usize,
    /// Master brightness of the main engine, 32 bits wide.
    pub master_bright_main: usize,
    /// Display status, 16 bits wide.
    pub dispstat: usize,
}

/// The distance in bytes from the control register of layer 0 to that of layer 3.
pub const BG_CONTROL_SPAN: usize = 6;

impl AddressTable {
    /// The control registers of all four layers of both engines have addresses:
    /// none lies past the end of the address space.
    pub open spec fn wf(&self) -> bool {
        &&& self.bg0cnt_main + BG_CONTROL_SPAN <= usize::MAX
        &&& self.bg0cnt_sub + BG_CONTROL_SPAN <= usize::MAX
    }

    /// Tests whether the control registers of all four layers of both engines
    /// have addresses.
    pub fn is_wf(&self) -> (ok: bool)
        ensures
            ok == self.wf(),
    {
        self.bg0cnt_main <= usize::MAX - BG_CONTROL_SPAN && self.bg0cnt_sub <= usize::MAX
            - BG_CONTROL_SPAN
    }
}

/// One volatile store of a 32-bit value.
#[derive(Clone, Copy, Debug, PartialEq, Eq, Structural)]
pub struct Store32 {
    pub address: usize,
    pub value: u32,
}

/// One volatile store of a 16-bit value.
#[derive(Clone, Copy, Debug, PartialEq, Eq, Structural)]
pub struct Store16 {
    pub address: usize,
    pub value: u16,
}

} // verus!
