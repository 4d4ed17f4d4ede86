//! The control register of one background layer.

use vstd::prelude::*;
use vstd::std_specs::convert::{FromSpec, FromSpecImpl};
use crate::bits::{
    apart, field, flag, get_field, lemma_field_of_zero, lemma_low_mask_values, low_mask, set_field,
    slot,
};

verus! {

/// The control register of one background layer, 16 bits wide, as the
/// hardware holds it. Each engine has four of them.
///
/// | bits  | field           |
/// |-------|-----------------|
/// | 0-1   | priority        |
/// | 2-5   | tiledata_base   |
/// | 6     | mosaic_enabled  |
/// | 7     | palette_setting |
/// | 8-12  | tilemap_base    |
/// | 13    | bit13           |
/// | 14-15 | screen_size     |
#[derive(Clone, Copy, Debug, PartialEq, Eq, Structural)]
pub struct BackgroundControl {
    /// The register value.
    pub raw: u16,
}

/// The fields of a background control register, each as a value of its own.
pub struct BackgroundControlView {
    /// The drawing priority; a layer with a lower value lies above one with a
    /// higher value.
    pub priority: u8,
    /// Where the layer's tile data starts.
    pub tiledata_base: u8,
    /// Whether the mosaic effect applies to the layer.
    pub mosaic_enabled: bool,
    /// The palette mode.
    pub palette_setting: u8,
    /// Where the layer's tile map starts.
    pub tilemap_base: u8,
    /// For layers 0 and 1 the extended palette slot; for layers 2 and 3 what
    /// lies outside the display area: nothing (0) or the picture again (1).
    pub bit13: u8,
    /// The screen size.
    pub screen_size: u8,
}

impl BackgroundControlView {
    /// Each field fits into the bits that the register has for it.
    pub open spec fn valid(self) -> bool {
        &&& self.priority <= 3
        &&& self.tiledata_base <= 15
        &&& self.palette_setting <= 1
        &&& self.tilemap_base <= 31
        &&& self.bit13 <= 1
        &&& self.screen_size <= 3
    }
}

/// The register value made of the given fields, each at its place.
pub open spec fn background_word(
    priority: u8,
    tiledata_base: u8,
    mosaic_enabled: bool,
    palette_setting: u8,
    tilemap_base: u8,
    bit13: u8,
    screen_size: u8,
) -> u16 {
    (priority as u16)
        | ((tiledata_base as u16) << 2)
        | ((if mosaic_enabled { 1u16 } else { 0u16 }) << 6)
        | ((palette_setting as u16) << 7)
        | ((tilemap_base as u16) << 8)
        | ((bit13 as u16) << 13)
        | ((screen_size as u16) << 14)
}

/// The register value that holds the fields `view`, each at its place.
pub open spec fn background_pack(view: BackgroundControlView) -> u16 {
    background_word(
        view.priority,
        view.tiledata_base,
        view.mosaic_enabled,
        view.palette_setting,
        view.tilemap_base,
        view.bit13,
        view.screen_size,
    )
}

/// The fields that the register value `raw` holds.
pub open spec fn background_unpack(raw: u16) -> BackgroundControlView {
    BackgroundControlView {
        priority: field(raw as u32, 0, 2) as u8,
        tiledata_base: field(raw as u32, 2, 4) as u8,
        mosaic_enabled: flag(raw as u32, 6),
        palette_setting: field(raw as u32, 7, 1) as u8,
        tilemap_base: field(raw as u32, 8, 5) as u8,
        bit13: field(raw as u32, 13, 1) as u8,
        screen_size: field(raw as u32, 14, 2) as u8,
    }
}

impl View for BackgroundControl {
    type V = BackgroundControlView;

    open spec fn view(&self) -> BackgroundControlView {
        background_unpack(self.raw)
    }
}

proof fn lemma_background_fields_of_word(
    priority: u8,
    tiledata_base: u8,
    mosaic_enabled: bool,
    palette_setting: u8,
    tilemap_base: u8,
    bit13: u8,
    screen_size: u8,
    raw: u16,
)
    by (bit_vector)
    requires
        priority <= 3,
        tiledata_base <= 15,
        palette_setting <= 1,
        tilemap_base <= 31,
        bit13 <= 1,
        screen_size <= 3,
        raw == background_word(
            priority,
            tiledata_base,
            mosaic_enabled,
            palette_setting,
            tilemap_base,
            bit13,
            screen_size,
        ),
    ensures
        field(raw as u32, 0, 2) as u8 == priority,
        field(raw as u32, 2, 4) as u8 == tiledata_base,
        flag(raw as u32, 6) == mosaic_enabled,
        field(raw as u32, 7, 1) as u8 == palette_setting,
        field(raw as u32, 8, 5) as u8 == tilemap_base,
        field(raw as u32, 13, 1) as u8 == bit13,
        field(raw as u32, 14, 2) as u8 == screen_size,
{
}

proof fn lemma_background_word_of_fields(raw: u16)
    by (bit_vector)
    ensures
        background_word(
            field(raw as u32, 0, 2) as u8,
            field(raw as u32, 2, 4) as u8,
            flag(raw as u32, 6),
            field(raw as u32, 7, 1) as u8,
            field(raw as u32, 8, 5) as u8,
            field(raw as u32, 13, 1) as u8,
            field(raw as u32, 14, 2) as u8,
        ) == raw,
        field(raw as u32, 0, 2) <= 3,
        field(raw as u32, 2, 4) <= 15,
        field(raw as u32, 7, 1) <= 1,
        field(raw as u32, 8, 5) <= 31,
        field(raw as u32, 13, 1) <= 1,
        field(raw as u32, 14, 2) <= 3,
{
}

/// Fields that fit their bits are read back unchanged from the register
/// value that holds them.
pub proof fn lemma_background_unpack_pack(view: BackgroundControlView)
    requires
        view.valid(),
    ensures
        background_unpack(background_pack(view)) == view,
{
    lemma_background_fields_of_word(
        view.priority,
        view.tiledata_base,
        view.mosaic_enabled,
        view.palette_setting,
        view.tilemap_base,
        view.bit13,
        view.screen_size,
        background_pack(view),
    );
}

/// Every register value holds fields that fit their bits, and is the value
/// that holds them: no bit of it is lost in its fields.
pub proof fn lemma_background_pack_unpack(raw: u16)
    ensures
        background_unpack(raw).valid(),
        background_pack(background_unpack(raw)) == raw,
{
    lemma_background_word_of_fields(raw);
}

impl From<u16> for BackgroundControl {
    /// The register that holds `raw`, bit for bit.
    fn from(raw: u16) -> (control: BackgroundControl) {
        BackgroundControl { raw }
    }
}

impl FromSpecImpl<u16> for BackgroundControl {
    open spec fn obeys_from_spec() -> bool {
        true
    }

    open spec fn from_spec(raw: u16) -> BackgroundControl {
        BackgroundControl { raw }
    }
}

impl From<BackgroundControl> for u16 {
    /// The value that the register holds, bit for bit.
    fn from(control: BackgroundControl) -> (raw: u16) {
        control.raw
    }
}

impl FromSpecImpl<BackgroundControl> for u16 {
    open spec fn obeys_from_spec() -> bool {
        true
    }

    open spec fn from_spec(control: BackgroundControl) -> u16 {
        control.raw
    }
}

/// Turning a register into its value and the value into a register again
/// gives the register back, fields and all; and turning a value into a
/// register and the register into its value gives the value back, bit for bit.
pub proof fn lemma_background_raw_round_trip(control: BackgroundControl, raw: u16)
    ensures
        <BackgroundControl as FromSpec<u16>>::from_spec(<u16 as FromSpec<BackgroundControl>>::from_spec(control))
            == control,
        <BackgroundControl as FromSpec<u16>>::from_spec(<u16 as FromSpec<BackgroundControl>>::from_spec(control))@
            == control@,
        <u16 as FromSpec<BackgroundControl>>::from_spec(<BackgroundControl as FromSpec<u16>>::from_spec(raw)) == raw,
{
}

impl BackgroundControl {
    /// The register with every bit clear.
    pub fn new() -> (control: BackgroundControl)
        ensures
            control.raw == 0,
            control@ == (BackgroundControlView {
                priority: 0,
                tiledata_base: 0,
                mosaic_enabled: false,
                palette_setting: 0,
                tilemap_base: 0,
                bit13: 0,
                screen_size: 0,
            }),
    {
        proof {
            lemma_field_of_zero();
        }
        BackgroundControl { raw: 0 }
    }

    /// Reads the field `(lo, width)`.
    fn read_bits(&self, lo: u32, width: u32) -> (value: u8)
        requires
            0 < width <= 6,
            lo + width <= 16,
        ensures
            value == field(self.raw as u32, lo, width),
            value == field(self.raw as u32, lo, width) as u8,
    {
        proof {
            lemma_low_mask_values();
        }
        get_field(self.raw as u32, lo, width) as u8
    }

    /// Replaces the field `(lo, width)`; every field apart from it stays.
    fn write_bits(&mut self, lo: u32, width: u32, value: u8)
        requires
            0 < width <= 6,
            lo + width <= 16,
            value <= low_mask(width),
        ensures
            field(final(self).raw as u32, lo, width) == value,
            forall|lo2: u32, width2: u32|
                slot(lo2, width2) && apart(lo, width, lo2, width2) ==> #[trigger] field(
                    final(self).raw as u32,
                    lo2,
                    width2,
                ) == field(old(self).raw as u32, lo2, width2),
    {
        self.raw = set_field(self.raw as u32, lo, width, value as u32) as u16;
    }

    /// The drawing priority; a layer with a lower value lies above one with a
    /// higher value.
    pub fn priority(&self) -> (value: u8)
        ensures
            value == self@.priority,
    {
        self.read_bits(0, 2)
    }

    /// Sets the drawing priority; no other field changes.
    pub fn set_priority(&mut self, value: u8)
        requires
            value <= 3,
        ensures
            final(self)@ == (BackgroundControlView { priority: value, ..old(self)@ }),
    {
        proof {
            lemma_low_mask_values();
        }
        self.write_bits(0, 2, value);
    }

    /// The register with `priority` replaced by `value`; no other field
    /// changes.
    pub fn with_priority(self, value: u8) -> (control: BackgroundControl)
        requires
            value <= 3,
        ensures
            control@ == (BackgroundControlView { priority: value, ..self@ }),
    {
        let mut control = self;
        control.set_priority(value);
        control
    }

    /// Where the layer's tile data starts.
    pub fn tiledata_base(&self) -> (value: u8)
        ensures
            value == self@.tiledata_base,
    {
        self.read_bits(2, 4)
    }

    /// Sets the tile data base; no other field changes.
    pub fn set_tiledata_base(&mut self, value: u8)
        requires
            value <= 15,
        ensures
            final(self)@ == (BackgroundControlView { tiledata_base: value, ..old(self)@ }),
    {
        proof {
            lemma_low_mask_values();
        }
        self.write_bits(2, 4, value);
    }

    /// The register with `tiledata_base` replaced by `value`; no other field
    /// changes.
    pub fn with_tiledata_base(self, value: u8) -> (control: BackgroundControl)
        requires
            value <= 15,
        ensures
            control@ == (BackgroundControlView { tiledata_base: value, ..self@ }),
    {
        let mut control = self;
        control.set_tiledata_base(value);
        control
    }

    /// Whether the mosaic effect applies to the layer.
    pub fn mosaic_enabled(&self) -> (value: bool)
        ensures
            value == self@.mosaic_enabled,
    {
        self.read_bits(6, 1) == 1
    }

    /// Sets whether the mosaic effect applies; no other field changes.
    pub fn set_mosaic_enabled(&mut self, value: bool)
        ensures
            final(self)@ == (BackgroundControlView { mosaic_enabled: value, ..old(self)@ }),
    {
        proof {
            lemma_low_mask_values();
        }
        self.write_bits(6, 1, if value { 1 } else { 0 });
    }

    /// The register with `mosaic_enabled` replaced by `value`; no other field
    /// changes.
    pub fn with_mosaic_enabled(self, value: bool) -> (control: BackgroundControl)
        ensures
            control@ == (BackgroundControlView { mosaic_enabled: value, ..self@ }),
    {
        let mut control = self;
        control.set_mosaic_enabled(value);
        control
    }

    /// The palette mode.
    pub fn palette_setting(&self) -> (value: u8)
        ensures
            value == self@.palette_setting,
    {
        self.read_bits(7, 1)
    }

    /// Sets the palette mode; no other field changes.
    pub fn set_palette_setting(&mut self, value: u8)
        requires
            value <= 1,
        ensures
            final(self)@ == (BackgroundControlView { palette_setting: value, ..old(self)@ }),
    {
        proof {
            lemma_low_mask_values();
        }
        self.write_bits(7, 1, value);
    }

    /// The register with `palette_setting` replaced by `value`; no other
    /// field changes.
    pub fn with_palette_setting(self, value: u8) -> (control: BackgroundControl)
        requires
            value <= 1,
        ensures
            control@ == (BackgroundControlView { palette_setting: value, ..self@ }),
    {
        let mut control = self;
        control.set_palette_setting(value);
        control
    }

    /// Where the layer's tile map starts.
    pub fn tilemap_base(&self) -> (value: u8)
        ensures
            value == self@.tilemap_base,
    {
        self.read_bits(8, 5)
    }

    /// Sets the tile map base; no other field changes.
    pub fn set_tilemap_base(&mut self, value: u8)
        requires
            value <= 31,
        ensures
            final(self)@ == (BackgroundControlView { tilemap_base: value, ..old(self)@ }),
    {
        proof {
            lemma_low_mask_values();
        }
        self.write_bits(8, 5, value);
    }

    /// The register with `tilemap_base` replaced by `value`; no other field
    /// changes.
    pub fn with_tilemap_base(self, value: u8) -> (control: BackgroundControl)
        requires
            value <= 31,
        ensures
            control@ == (BackgroundControlView { tilemap_base: value, ..self@ }),
    {
        let mut control = self;
        control.set_tilemap_base(value);
        control
    }

    /// For layers 0 and 1 the extended palette slot; for layers 2 and 3 what
    /// lies outside the display area: nothing (0) or the picture again (1).
    pub fn bit13(&self) -> (value: u8)
        ensures
            value == self@.bit13,
    {
        self.read_bits(13, 1)
    }

    /// Sets bit 13; no other field changes.
    pub fn set_bit13(&mut self, value: u8)
        requires
            value <= 1,
        ensures
            final(self)@ == (BackgroundControlView { bit13: value, ..old(self)@ }),
    {
        proof {
            lemma_low_mask_values();
        }
        self.write_bits(13, 1, value);
    }

    /// The register with `bit13` replaced by `value`; no other field changes.
    pub fn with_bit13(self, value: u8) -> (control: BackgroundControl)
        requires
            value <= 1,
        ensures
            control@ == (BackgroundControlView { bit13: value, ..self@ }),
    {
        let mut control = self;
        control.set_bit13(value);
        control
    }

    /// The screen size.
    pub fn screen_size(&self) -> (value: u8)
        ensures
            value == self@.screen_size,
    {
        self.read_bits(14, 2)
    }

    /// Sets the screen size; no other field changes.
    pub fn set_screen_size(&mut self, value: u8)
        requires
            value <= 3,
        ensures
            final(self)@ == (BackgroundControlView { screen_size: value, ..old(self)@ }),
    {
        proof {
            lemma_low_mask_values();
        }
        self.write_bits(14, 2, value);
    }

    /// The register with `screen_size` replaced by `value`; no other field
    /// changes.
    pub fn with_screen_size(self, value: u8) -> (control: BackgroundControl)
        requires
            value <= 3,
        ensures
            control@ == (BackgroundControlView { screen_size: value, ..self@ }),
    {
        let mut control = self;
        control.set_screen_size(value);
        control
    }
}

} // verus!
