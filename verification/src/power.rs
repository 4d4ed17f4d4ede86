//! The power control register: which parts of the graphics hardware run, and
//! which screen the main engine draws on.

use vstd::prelude::*;
use crate::mmio::{AddressTable, Store32};

verus! {

/// The bit of the main engine's 2-D core.
pub const MAIN_2D_BIT: u32 = 0x0002;

/// The bit of the 3-D renderer.
pub const RENDER_3D_BIT: u32 = 0x0004;

/// The bit of the 3-D geometry engine.
pub const GEOMETRY_3D_BIT: u32 = 0x0008;

/// The bit of the sub engine's 2-D core.
pub const SUB_2D_BIT: u32 = 0x0200;

/// The bits of both 2-D cores.
pub const ALL_2D_BITS: u32 = 0x0202;

/// The bits of every named subsystem.
pub const ALL_BITS: u32 = 0x020E;

/// The bit that puts the main engine on the top screen.
pub const TOP_SCREEN_BIT: u32 = 0x8000;

/// A set of graphics subsystems, one bit of the power control register each.
///
/// A set may hold bits that name no subsystem: `from_bits_retain` keeps them,
/// and the operations that combine sets carry them along.
#[derive(Clone, Copy, Debug, PartialEq, Eq, Structural)]
pub struct GfxPwr {
    bits: u32,
}

impl GfxPwr {
    /// The bits of the set.
    pub closed spec fn spec_bits(&self) -> u32 {
        self.bits
    }

    /// The bits of the set.
    #[verifier::when_used_as_spec(spec_bits)]
    pub fn bits(&self) -> (bits: u32)
        ensures
            bits == self.spec_bits(),
    {
        self.bits
    }

    /// The set with exactly the given bits, named or not.
    pub closed spec fn of_bits(bits: u32) -> GfxPwr {
        GfxPwr { bits }
    }

    /// The set with exactly the given bits, named or not.
    #[verifier::when_used_as_spec(of_bits)]
    pub fn from_bits_retain(bits: u32) -> (set: GfxPwr)
        ensures
            set == GfxPwr::of_bits(bits),
            set.bits() == bits,
    {
        GfxPwr { bits }
    }

    /// The set of the named subsystems among the given bits.
    pub fn from_bits_truncate(bits: u32) -> (set: GfxPwr)
        ensures
            set.bits() == bits & ALL_BITS,
    {
        GfxPwr { bits: bits & ALL_BITS }
    }

    /// The set with the given bits, if each of them names a subsystem.
    pub fn from_bits(bits: u32) -> (set: Option<GfxPwr>)
        ensures
            set is Some <==> bits & ALL_BITS == bits,
            set is Some ==> set->0.bits() == bits,
    {
        if bits & ALL_BITS == bits {
            Some(GfxPwr { bits })
        } else {
            None
        }
    }

    /// The set without any subsystem.
    pub fn empty() -> (set: GfxPwr)
        ensures
            set.bits() == 0,
    {
        GfxPwr { bits: 0 }
    }

    /// The set of every named subsystem.
    pub fn all() -> (set: GfxPwr)
        ensures
            set.bits() == ALL_BITS,
    {
        GfxPwr { bits: ALL_BITS }
    }

    /// The main engine's 2-D core.
    #[allow(non_snake_case)]
    pub fn MAIN_2D() -> (set: GfxPwr)
        ensures
            set.bits() == MAIN_2D_BIT,
    {
        GfxPwr { bits: MAIN_2D_BIT }
    }

    /// The sub engine's 2-D core.
    #[allow(non_snake_case)]
    pub fn SUB_2D() -> (set: GfxPwr)
        ensures
            set.bits() == SUB_2D_BIT,
    {
        GfxPwr { bits: SUB_2D_BIT }
    }

    /// The 3-D renderer.
    #[allow(non_snake_case)]
    pub fn RENDER_3D() -> (set: GfxPwr)
        ensures
            set.bits() == RENDER_3D_BIT,
    {
        GfxPwr { bits: RENDER_3D_BIT }
    }

    /// The 3-D geometry engine.
    #[allow(non_snake_case)]
    pub fn GEOMETRY_3D() -> (set: GfxPwr)
        ensures
            set.bits() == GEOMETRY_3D_BIT,
    {
        GfxPwr { bits: GEOMETRY_3D_BIT }
    }

    /// Both 2-D cores.
    #[allow(non_snake_case)]
    pub fn ALL_2D() -> (set: GfxPwr)
        ensures
            set.bits() == ALL_2D_BITS,
    {
        GfxPwr { bits: ALL_2D_BITS }
    }

    /// Every named subsystem.
    #[allow(non_snake_case)]
    pub fn ALL() -> (set: GfxPwr)
        ensures
            set.bits() == ALL_BITS,
    {
        GfxPwr { bits: ALL_BITS }
    }

    /// Whether the set holds no bit.
    pub fn is_empty(&self) -> (empty: bool)
        ensures
            empty == (self.bits() == 0),
    {
        self.bits == 0
    }

    /// Whether the set holds every named subsystem.
    pub fn is_all(&self) -> (all: bool)
        ensures
            all == (self.bits() & ALL_BITS == ALL_BITS),
    {
        self.bits & ALL_BITS == ALL_BITS
    }

    /// Whether every bit of `other` is in the set.
    pub fn contains(&self, other: GfxPwr) -> (held: bool)
        ensures
            held == (self.bits() & other.bits() == other.bits()),
    {
        self.bits & other.bits == other.bits
    }

    /// Whether the set shares a bit with `other`.
    pub fn intersects(&self, other: GfxPwr) -> (shared: bool)
        ensures
            shared == (self.bits() & other.bits() != 0),
    {
        self.bits & other.bits != 0
    }

    /// The bits that are in either set.
    pub fn union(self, other: GfxPwr) -> (set: GfxPwr)
        ensures
            set.bits() == self.bits() | other.bits(),
    {
        GfxPwr { bits: self.bits | other.bits }
    }

    /// The bits that are in both sets.
    pub fn intersection(self, other: GfxPwr) -> (set: GfxPwr)
        ensures
            set.bits() == self.bits() & other.bits(),
    {
        GfxPwr { bits: self.bits & other.bits }
    }

    /// The bits of the set that are not in `other`.
    pub fn difference(self, other: GfxPwr) -> (set: GfxPwr)
        ensures
            set.bits() == self.bits() & !other.bits(),
    {
        GfxPwr { bits: self.bits & !other.bits }
    }

    /// The bits that are in exactly one of the two sets.
    pub fn symmetric_difference(self, other: GfxPwr) -> (set: GfxPwr)
        ensures
            set.bits() == self.bits() ^ other.bits(),
    {
        GfxPwr { bits: self.bits ^ other.bits }
    }

    /// The named subsystems that are not in the set.
    pub fn complement(self) -> (set: GfxPwr)
        ensures
            set.bits() == !self.bits() & ALL_BITS,
    {
        GfxPwr { bits: !self.bits & ALL_BITS }
    }

    /// Adds the bits of `other` to the set.
    pub fn insert(&mut self, other: GfxPwr)
        ensures
            final(self).bits() == old(self).bits() | other.bits(),
    {
        self.bits = self.bits | other.bits;
    }

    /// Takes the bits of `other` out of the set.
    pub fn remove(&mut self, other: GfxPwr)
        ensures
            final(self).bits() == old(self).bits() & !other.bits(),
    {
        self.bits = self.bits & !other.bits;
    }

    /// Flips the bits of `other` in the set.
    pub fn toggle(&mut self, other: GfxPwr)
        ensures
            final(self).bits() == old(self).bits() ^ other.bits(),
    {
        self.bits = self.bits ^ other.bits;
    }

    /// Adds the bits of `other` if `value` is true, takes them out if not.
    pub fn set(&mut self, other: GfxPwr, value: bool)
        ensures
            value ==> final(self).bits() == old(self).bits() | other.bits(),
            !value ==> final(self).bits() == old(self).bits() & !other.bits(),
    {
        if value {
            self.insert(other);
        } else {
            self.remove(other);
        }
    }
}

/// A set is its bits and nothing else. A set that is turned into its bits and
/// made from them again is the set it was; bits that are made into a set and
/// read again are the bits they were.
pub proof fn lemma_gfx_pwr_round_trip(set: GfxPwr, bits: u32)
    ensures
        GfxPwr::of_bits(set.bits()) == set,
        GfxPwr::of_bits(bits).bits() == bits,
{
}

/// The screen that the main engine draws on.
#[allow(non_camel_case_types)]
#[derive(Clone, Copy, Debug, PartialEq, Eq, Structural)]
pub enum MainEnginePos {
    TOP,
    BOTTOM,
}

impl MainEnginePos {
    /// The selector as the power control register holds it, in bit 15.
    pub open spec fn spec_bits(self) -> u32 {
        match self {
            MainEnginePos::TOP => TOP_SCREEN_BIT,
            MainEnginePos::BOTTOM => 0,
        }
    }

    /// The selector as the power control register holds it, in bit 15.
    #[verifier::when_used_as_spec(spec_bits)]
    pub fn bits(self) -> (bits: u32)
        ensures
            bits == self.spec_bits(),
    {
        match self {
            MainEnginePos::TOP => TOP_SCREEN_BIT,
            MainEnginePos::BOTTOM => 0,
        }
    }
}

/// The power control register after the subsystems in `pwrflags` are
/// switched on: their bits are set, every other bit is that of `current`.
pub open spec fn powered_on(current: u32, pwrflags: GfxPwr) -> u32 {
    current | pwrflags.bits()
}

/// The power control register after the subsystems in `pwrflags` are
/// switched off: their bits are clear, every other bit is that of `current`.
pub open spec fn powered_off(current: u32, pwrflags: GfxPwr) -> u32 {
    current & !pwrflags.bits()
}

/// The power control register after the main engine is put on the screen
/// `pos`: bit 15 holds the selector, every other bit is that of `current`.
pub open spec fn with_engine_lcd(current: u32, pos: MainEnginePos) -> u32 {
    (current & !TOP_SCREEN_BIT) | pos.bits()
}

/// The store that switches on the subsystems in `pwrflags`.
///
/// `current` is the value loaded from the power control register; every bit
/// of it stays set. A handler that changes the register between the load and
/// the store loses its change.
pub fn power_on(table: &AddressTable, current: u32, pwrflags: GfxPwr) -> (store: Store32)
    ensures
        store.address == table.powcnt1,
        store.value == powered_on(current, pwrflags),
{
    Store32 { address: table.powcnt1, value: current | pwrflags.bits() }
}

/// The store that switches off the subsystems in `pwrflags`.
///
/// `current` is the value loaded from the power control register; every bit
/// of it outside `pwrflags` stays as it is. A handler that changes the
/// register between the load and the store loses its change.
pub fn power_off(table: &AddressTable, current: u32, pwrflags: GfxPwr) -> (store: Store32)
    ensures
        store.address == table.powcnt1,
        store.value == powered_off(current, pwrflags),
{
    Store32 { address: table.powcnt1, value: current & !pwrflags.bits() }
}

/// The store that puts the main engine on the screen `pos`, and the sub
/// engine on the other.
///
/// `current` is the value loaded from the power control register; only its
/// bit 15 changes. A handler that changes the register between the load and
/// the store loses its change.
pub fn set_engine_lcd(table: &AddressTable, current: u32, pos: MainEnginePos) -> (store: Store32)
    ensures
        store.address == table.powcnt1,
        store.value == with_engine_lcd(current, pos),
        store.value & !TOP_SCREEN_BIT == current & !TOP_SCREEN_BIT,
        store.value & TOP_SCREEN_BIT == pos.bits(),
{
    let selector = pos.bits();
    let value = (current & !TOP_SCREEN_BIT) | selector;
    assert(value & !0x8000u32 == current & !0x8000u32 && value & 0x8000u32 == selector)
        by (bit_vector)
        requires
            value == (current & !0x8000u32) | selector,
            selector == 0x8000u32 || selector == 0,
    ;
    Store32 { address: table.powcnt1, value }
}

/// Switching subsystems on and then off again leaves the register as if they
/// had only been switched off. It restores the register exactly where none
/// of them was on before.
pub proof fn lemma_power_on_then_off(current: u32, pwrflags: GfxPwr)
    ensures
        powered_off(powered_on(current, pwrflags), pwrflags) == powered_off(current, pwrflags),
        current & pwrflags.bits() == 0 <==> powered_off(powered_on(current, pwrflags), pwrflags)
            == current,
{
    let flags = pwrflags.bits();
    assert((current | flags) & !flags == current & !flags && (current & flags == 0 <==> (current
        | flags) & !flags == current)) by (bit_vector);
}

/// Switching subsystems off and then on again leaves the register as if they
/// had only been switched on. It restores the register exactly where all of
/// them were on before.
pub proof fn lemma_power_off_then_on(current: u32, pwrflags: GfxPwr)
    ensures
        powered_on(powered_off(current, pwrflags), pwrflags) == powered_on(current, pwrflags),
        current & pwrflags.bits() == pwrflags.bits() <==> powered_on(
            powered_off(current, pwrflags),
            pwrflags,
        ) == current,
{
    let flags = pwrflags.bits();
    assert((current & !flags) | flags == current | flags && (current & flags == flags <==> (current
        & !flags) | flags == current)) by (bit_vector);
}

/// Switching on what is on, or off what is off, changes nothing.
pub proof fn lemma_power_idempotent(current: u32, pwrflags: GfxPwr)
    ensures
        powered_on(powered_on(current, pwrflags), pwrflags) == powered_on(current, pwrflags),
        powered_off(powered_off(current, pwrflags), pwrflags) == powered_off(current, pwrflags),
{
    let flags = pwrflags.bits();
    assert((current | flags) | flags == current | flags && (current & !flags) & !flags == current
        & !flags) by (bit_vector);
}

/// Switching subsystems on or off changes no bit outside them, and putting
/// the main engine on a screen changes no bit but bit 15.
pub proof fn lemma_power_keeps_other_bits(current: u32, pwrflags: GfxPwr, pos: MainEnginePos)
    ensures
        powered_on(current, pwrflags) & !pwrflags.bits() == current & !pwrflags.bits(),
        powered_off(current, pwrflags) & !pwrflags.bits() == current & !pwrflags.bits(),
        powered_on(current, pwrflags) & pwrflags.bits() == pwrflags.bits(),
        powered_off(current, pwrflags) & pwrflags.bits() == 0,
        with_engine_lcd(current, pos) & !TOP_SCREEN_BIT == current & !TOP_SCREEN_BIT,
        with_engine_lcd(current, pos) & TOP_SCREEN_BIT == pos.bits(),
{
    let flags = pwrflags.bits();
    let selector = pos.bits();
    assert((current | flags) & !flags == current & !flags && (current & !flags) & !flags == current
        & !flags && (current | flags) & flags == flags && (current & !flags) & flags == 0)
        by (bit_vector);
    assert(((current & !0x8000u32) | selector) & !0x8000u32 == current & !0x8000u32 && ((current
        & !0x8000u32) | selector) & 0x8000u32 == selector) by (bit_vector)
        requires
            selector == 0x8000u32 || selector == 0,
    ;
}

} // verus!
