//! The display control register of the sub engine.

use vstd::prelude::*;
use vstd::std_specs::convert::{FromSpec, FromSpecImpl};
use crate::bits::{
    apart, field, flag, get_field, in_one_part, lemma_field_bound, lemma_field_of_parts,
    lemma_field_of_zero, lemma_low_mask_values, lemma_parts_of_word, low_mask, part_at, set_field,
    slot,
};

verus! {

/// The display control register of the sub engine, 32 bits wide, as the
/// hardware holds it.
/// It is laid out like that of the main engine, but some bits of that
/// register have no meaning here. A register value keeps such bits as they
/// came; no operation on a field changes them, and a new register has them
/// clear.
///
/// | bits  | field               |
/// |-------|---------------------|
/// | 0-2   | bg_mode             |
/// | 3     | (not used)          |
/// | 4     | tile_obj_mapping    |
/// | 5     | bm_obj_2d_dim       |
/// | 6     | bm_obj_mapping      |
/// | 7     | forced_blank        |
/// | 8     | display_bg0         |
/// | 9     | display_bg1         |
/// | 10    | display_bg2         |
/// | 11    | display_bg3         |
/// | 12    | display_obj         |
/// | 13    | display_win0        |
/// | 14    | display_win1        |
/// | 15    | display_obj_win     |
/// | 16-17 | display_mode        |
/// | 18-19 | (not used)          |
/// | 20-21 | tile_obj_1d_bound   |
/// | 22    | (not used)          |
/// | 23    | obj_during_hblank   |
/// | 24-29 | (not used)          |
/// | 30    | bg_ext_pal_enabled  |
/// | 31    | obj_ext_pal_enabled |
#[derive(Clone, Copy, Debug, PartialEq, Eq, Structural)]
pub struct DisplayControlSub {
    /// The register value.
    pub raw: u32,
}

/// The fields of the sub engine's display control register, each as a value of its own.
pub struct DisplayControlSubView {
    /// The background mode.
    pub bg_mode: u8,
    /// Bit 3, which has no meaning for the sub engine.
    pub unused_3: u8,
    /// The mapping mode of tile objects.
    pub tile_obj_mapping: bool,
    /// The dimension of two-dimensional bitmap objects.
    pub bm_obj_2d_dim: bool,
    /// The mapping mode of bitmap objects.
    pub bm_obj_mapping: bool,
    /// Whether the screen is forced blank.
    pub forced_blank: bool,
    /// Whether background layer 0 is shown.
    pub display_bg0: bool,
    /// Whether background layer 1 is shown.
    pub display_bg1: bool,
    /// Whether background layer 2 is shown.
    pub display_bg2: bool,
    /// Whether background layer 3 is shown.
    pub display_bg3: bool,
    /// Whether objects are shown.
    pub display_obj: bool,
    /// Whether window 0 is in effect.
    pub display_win0: bool,
    /// Whether window 1 is in effect.
    pub display_win1: bool,
    /// Whether the object window is in effect.
    pub display_obj_win: bool,
    /// The display mode.
    pub display_mode: u8,
    /// Bits 18 and 19, which have no meaning for the sub engine.
    pub unused_18: u8,
    /// The boundary of one-dimensional tile objects.
    pub tile_obj_1d_bound: u8,
    /// Bit 22, which has no meaning for the sub engine.
    pub unused_22: u8,
    /// Whether objects are processed during the horizontal blanking interval.
    pub obj_during_hblank: bool,
    /// Bits 24 to 29, which have no meaning for the sub engine.
    pub unused_24: u8,
    /// Whether backgrounds use extended palettes.
    pub bg_ext_pal_enabled: bool,
    /// Whether objects use extended palettes.
    pub obj_ext_pal_enabled: bool,
}

impl DisplayControlSubView {
    /// Each field fits into the bits that the register has for it.
    pub open spec fn valid(self) -> bool {
        &&& self.bg_mode <= 7
        &&& self.unused_3 <= 1
        &&& self.display_mode <= 3
        &&& self.unused_18 <= 3
        &&& self.tile_obj_1d_bound <= 3
        &&& self.unused_22 <= 1
        &&& self.unused_24 <= 63
    }

    /// Bits 0 to 7 of the register value that holds the fields, in place.
    #[verifier::opaque]
    pub open spec fn mode_byte(self) -> u32 {
        sub_control_mode_byte(
            self.bg_mode,
            self.unused_3,
            self.tile_obj_mapping,
            self.bm_obj_2d_dim,
            self.bm_obj_mapping,
            self.forced_blank,
        )
    }

    /// Bits 8 to 15 of the register value that holds the fields, in place.
    #[verifier::opaque]
    pub open spec fn show_byte(self) -> u32 {
        sub_control_show_byte(
            self.display_bg0,
            self.display_bg1,
            self.display_bg2,
            self.display_bg3,
            self.display_obj,
            self.display_win0,
            self.display_win1,
            self.display_obj_win,
        )
    }

    /// Bits 16 to 31 of the register value that holds the fields, in place.
    #[verifier::opaque]
    pub open spec fn upper_half(self) -> u32 {
        sub_control_upper_half(
            self.display_mode,
            self.unused_18,
            self.tile_obj_1d_bound,
            self.unused_22,
            self.obj_during_hblank,
            self.unused_24,
            self.bg_ext_pal_enabled,
            self.obj_ext_pal_enabled,
        )
    }
}

/// Bits 0 to 7 of the register value made of the given fields.
pub open spec fn sub_control_mode_byte(
    bg_mode: u8,
    unused_3: u8,
    tile_obj_mapping: bool,
    bm_obj_2d_dim: bool,
    bm_obj_mapping: bool,
    forced_blank: bool,
) -> u32 {
    (bg_mode as u32)
        | ((unused_3 as u32) << 3)
        | ((if tile_obj_mapping { 1u32 } else { 0u32 }) << 4)
        | ((if bm_obj_2d_dim { 1u32 } else { 0u32 }) << 5)
        | ((if bm_obj_mapping { 1u32 } else { 0u32 }) << 6)
        | ((if forced_blank { 1u32 } else { 0u32 }) << 7)
}

/// Bits 8 to 15 of the register value made of the given fields.
pub open spec fn sub_control_show_byte(
    display_bg0: bool,
    display_bg1: bool,
    display_bg2: bool,
    display_bg3: bool,
    display_obj: bool,
    display_win0: bool,
    display_win1: bool,
    display_obj_win: bool,
) -> u32 {
    ((if display_bg0 { 1u32 } else { 0u32 }) << 8)
        | ((if display_bg1 { 1u32 } else { 0u32 }) << 9)
        | ((if display_bg2 { 1u32 } else { 0u32 }) << 10)
        | ((if display_bg3 { 1u32 } else { 0u32 }) << 11)
        | ((if display_obj { 1u32 } else { 0u32 }) << 12)
        | ((if display_win0 { 1u32 } else { 0u32 }) << 13)
        | ((if display_win1 { 1u32 } else { 0u32 }) << 14)
        | ((if display_obj_win { 1u32 } else { 0u32 }) << 15)
}

/// Bits 16 to 31 of the register value made of the given fields.
pub open spec fn sub_control_upper_half(
    display_mode: u8,
    unused_18: u8,
    tile_obj_1d_bound: u8,
    unused_22: u8,
    obj_during_hblank: bool,
    unused_24: u8,
    bg_ext_pal_enabled: bool,
    obj_ext_pal_enabled: bool,
) -> u32 {
    ((display_mode as u32) << 16)
        | ((unused_18 as u32) << 18)
        | ((tile_obj_1d_bound as u32) << 20)
        | ((unused_22 as u32) << 22)
        | ((if obj_during_hblank { 1u32 } else { 0u32 }) << 23)
        | ((unused_24 as u32) << 24)
        | ((if bg_ext_pal_enabled { 1u32 } else { 0u32 }) << 30)
        | ((if obj_ext_pal_enabled { 1u32 } else { 0u32 }) << 31)
}

/// The register value that holds the fields `view`, each at its place.
pub open spec fn sub_control_pack(view: DisplayControlSubView) -> u32 {
    view.mode_byte() | view.show_byte() | view.upper_half()
}

/// The fields that the register value `raw` holds.
pub open spec fn sub_control_unpack(raw: u32) -> DisplayControlSubView {
    DisplayControlSubView {
        bg_mode: field(raw, 0, 3) as u8,
        unused_3: field(raw, 3, 1) as u8,
        tile_obj_mapping: flag(raw, 4),
        bm_obj_2d_dim: flag(raw, 5),
        bm_obj_mapping: flag(raw, 6),
        forced_blank: flag(raw, 7),
        display_bg0: flag(raw, 8),
        display_bg1: flag(raw, 9),
        display_bg2: flag(raw, 10),
        display_bg3: flag(raw, 11),
        display_obj: flag(raw, 12),
        display_win0: flag(raw, 13),
        display_win1: flag(raw, 14),
        display_obj_win: flag(raw, 15),
        display_mode: field(raw, 16, 2) as u8,
        unused_18: field(raw, 18, 2) as u8,
        tile_obj_1d_bound: field(raw, 20, 2) as u8,
        unused_22: field(raw, 22, 1) as u8,
        obj_during_hblank: flag(raw, 23),
        unused_24: field(raw, 24, 6) as u8,
        bg_ext_pal_enabled: flag(raw, 30),
        obj_ext_pal_enabled: flag(raw, 31),
    }
}

impl View for DisplayControlSub {
    type V = DisplayControlSubView;

    open spec fn view(&self) -> DisplayControlSubView {
        sub_control_unpack(self.raw)
    }
}

proof fn lemma_sub_control_fields_of_mode_byte(
    bg_mode: u8,
    unused_3: u8,
    tile_obj_mapping: bool,
    bm_obj_2d_dim: bool,
    bm_obj_mapping: bool,
    forced_blank: bool,
    part: u32,
)
    by (bit_vector)
    requires
        bg_mode <= 7,
        unused_3 <= 1,
        part == sub_control_mode_byte(
            bg_mode,
            unused_3,
            tile_obj_mapping,
            bm_obj_2d_dim,
            bm_obj_mapping,
            forced_blank,
        ),
    ensures
        field(part, 0, 3) as u8 == bg_mode,
        field(part, 3, 1) as u8 == unused_3,
        flag(part, 4) == tile_obj_mapping,
        flag(part, 5) == bm_obj_2d_dim,
        flag(part, 6) == bm_obj_mapping,
        flag(part, 7) == forced_blank,
        part & !0x0000_00FFu32 == 0,
{
}

proof fn lemma_sub_control_mode_byte_of_fields(raw: u32)
    by (bit_vector)
    ensures
        sub_control_mode_byte(
            field(raw, 0, 3) as u8,
            field(raw, 3, 1) as u8,
            flag(raw, 4),
            flag(raw, 5),
            flag(raw, 6),
            flag(raw, 7),
        ) == raw & 0x0000_00FFu32,
{
}

/// The fields of bits 0 to 7 are read back from the part that holds them, and
/// the part has no bit outside its place.
proof fn lemma_sub_control_mode_byte_read(view: DisplayControlSubView)
    requires
        view.valid(),
    ensures
        field(view.mode_byte(), 0, 3) as u8 == view.bg_mode,
        field(view.mode_byte(), 3, 1) as u8 == view.unused_3,
        flag(view.mode_byte(), 4) == view.tile_obj_mapping,
        flag(view.mode_byte(), 5) == view.bm_obj_2d_dim,
        flag(view.mode_byte(), 6) == view.bm_obj_mapping,
        flag(view.mode_byte(), 7) == view.forced_blank,
        view.mode_byte() & !0x0000_00FFu32 == 0,
{
    reveal(DisplayControlSubView::mode_byte);
    lemma_sub_control_fields_of_mode_byte(
        view.bg_mode,
        view.unused_3,
        view.tile_obj_mapping,
        view.bm_obj_2d_dim,
        view.bm_obj_mapping,
        view.forced_blank,
        view.mode_byte(),
    );
}

/// The part made of the fields that a register value holds in bits 0 to 7 is
/// those bits of the value.
proof fn lemma_sub_control_mode_byte_kept(raw: u32)
    ensures
        sub_control_unpack(raw).mode_byte() == raw & 0x0000_00FFu32,
{
    reveal(DisplayControlSubView::mode_byte);
    lemma_sub_control_mode_byte_of_fields(raw);
}

proof fn lemma_sub_control_fields_of_show_byte(
    display_bg0: bool,
    display_bg1: bool,
    display_bg2: bool,
    display_bg3: bool,
    display_obj: bool,
    display_win0: bool,
    display_win1: bool,
    display_obj_win: bool,
    part: u32,
)
    by (bit_vector)
    requires
        part == sub_control_show_byte(
            display_bg0,
            display_bg1,
            display_bg2,
            display_bg3,
            display_obj,
            display_win0,
            display_win1,
            display_obj_win,
        ),
    ensures
        flag(part, 8) == display_bg0,
        flag(part, 9) == display_bg1,
        flag(part, 10) == display_bg2,
        flag(part, 11) == display_bg3,
        flag(part, 12) == display_obj,
        flag(part, 13) == display_win0,
        flag(part, 14) == display_win1,
        flag(part, 15) == display_obj_win,
        part & !0x0000_FF00u32 == 0,
{
}

proof fn lemma_sub_control_show_byte_of_fields(raw: u32)
    by (bit_vector)
    ensures
        sub_control_show_byte(
            flag(raw, 8),
            flag(raw, 9),
            flag(raw, 10),
            flag(raw, 11),
            flag(raw, 12),
            flag(raw, 13),
            flag(raw, 14),
            flag(raw, 15),
        ) == raw & 0x0000_FF00u32,
{
}

/// The fields of bits 8 to 15 are read back from the part that holds them,
/// and the part has no bit outside its place.
proof fn lemma_sub_control_show_byte_read(view: DisplayControlSubView)
    requires
        view.valid(),
    ensures
        flag(view.show_byte(), 8) == view.display_bg0,
        flag(view.show_byte(), 9) == view.display_bg1,
        flag(view.show_byte(), 10) == view.display_bg2,
        flag(view.show_byte(), 11) == view.display_bg3,
        flag(view.show_byte(), 12) == view.display_obj,
        flag(view.show_byte(), 13) == view.display_win0,
        flag(view.show_byte(), 14) == view.display_win1,
        flag(view.show_byte(), 15) == view.display_obj_win,
        view.show_byte() & !0x0000_FF00u32 == 0,
{
    reveal(DisplayControlSubView::show_byte);
    lemma_sub_control_fields_of_show_byte(
        view.display_bg0,
        view.display_bg1,
        view.display_bg2,
        view.display_bg3,
        view.display_obj,
        view.display_win0,
        view.display_win1,
        view.display_obj_win,
        view.show_byte(),
    );
}

/// The part made of the fields that a register value holds in bits 8 to 15 is
/// those bits of the value.
proof fn lemma_sub_control_show_byte_kept(raw: u32)
    ensures
        sub_control_unpack(raw).show_byte() == raw & 0x0000_FF00u32,
{
    reveal(DisplayControlSubView::show_byte);
    lemma_sub_control_show_byte_of_fields(raw);
}

proof fn lemma_sub_control_fields_of_upper_half(
    display_mode: u8,
    unused_18: u8,
    tile_obj_1d_bound: u8,
    unused_22: u8,
    obj_during_hblank: bool,
    unused_24: u8,
    bg_ext_pal_enabled: bool,
    obj_ext_pal_enabled: bool,
    part: u32,
)
    by (bit_vector)
    requires
        display_mode <= 3,
        unused_18 <= 3,
        tile_obj_1d_bound <= 3,
        unused_22 <= 1,
        unused_24 <= 63,
        part == sub_control_upper_half(
            display_mode,
            unused_18,
            tile_obj_1d_bound,
            unused_22,
            obj_during_hblank,
            unused_24,
            bg_ext_pal_enabled,
            obj_ext_pal_enabled,
        ),
    ensures
        field(part, 16, 2) as u8 == display_mode,
        field(part, 18, 2) as u8 == unused_18,
        field(part, 20, 2) as u8 == tile_obj_1d_bound,
        field(part, 22, 1) as u8 == unused_22,
        flag(part, 23) == obj_during_hblank,
        field(part, 24, 6) as u8 == unused_24,
        flag(part, 30) == bg_ext_pal_enabled,
        flag(part, 31) == obj_ext_pal_enabled,
        part & !0xFFFF_0000u32 == 0,
{
}

proof fn lemma_sub_control_upper_half_of_fields(raw: u32)
    by (bit_vector)
    ensures
        sub_control_upper_half(
            field(raw, 16, 2) as u8,
            field(raw, 18, 2) as u8,
            field(raw, 20, 2) as u8,
            field(raw, 22, 1) as u8,
            flag(raw, 23),
            field(raw, 24, 6) as u8,
            flag(raw, 30),
            flag(raw, 31),
        ) == raw & 0xFFFF_0000u32,
{
}

/// The fields of bits 16 to 31 are read back from the part that holds them,
/// and the part has no bit outside its place.
proof fn lemma_sub_control_upper_half_read(view: DisplayControlSubView)
    requires
        view.valid(),
    ensures
        field(view.upper_half(), 16, 2) as u8 == view.display_mode,
        field(view.upper_half(), 18, 2) as u8 == view.unused_18,
        field(view.upper_half(), 20, 2) as u8 == view.tile_obj_1d_bound,
        field(view.upper_half(), 22, 1) as u8 == view.unused_22,
        flag(view.upper_half(), 23) == view.obj_during_hblank,
        field(view.upper_half(), 24, 6) as u8 == view.unused_24,
        flag(view.upper_half(), 30) == view.bg_ext_pal_enabled,
        flag(view.upper_half(), 31) == view.obj_ext_pal_enabled,
        view.upper_half() & !0xFFFF_0000u32 == 0,
{
    reveal(DisplayControlSubView::upper_half);
    lemma_sub_control_fields_of_upper_half(
        view.display_mode,
        view.unused_18,
        view.tile_obj_1d_bound,
        view.unused_22,
        view.obj_during_hblank,
        view.unused_24,
        view.bg_ext_pal_enabled,
        view.obj_ext_pal_enabled,
        view.upper_half(),
    );
}

/// The part made of the fields that a register value holds in bits 16 to 31
/// is those bits of the value.
proof fn lemma_sub_control_upper_half_kept(raw: u32)
    ensures
        sub_control_unpack(raw).upper_half() == raw & 0xFFFF_0000u32,
{
    reveal(DisplayControlSubView::upper_half);
    lemma_sub_control_upper_half_of_fields(raw);
}

/// Fields that fit their bits are read back unchanged from the register
/// value that holds them.
pub proof fn lemma_sub_control_unpack_pack(view: DisplayControlSubView)
    requires
        view.valid(),
    ensures
        sub_control_unpack(sub_control_pack(view)) == view,
{
    lemma_sub_control_mode_byte_read(view);
    lemma_sub_control_show_byte_read(view);
    lemma_sub_control_upper_half_read(view);
    assert forall|lo: u32, width: u32| slot(lo, width) && in_one_part(lo, width) implies #[trigger] field(
        sub_control_pack(view),
        lo,
        width,
    ) == field(part_at(view.mode_byte(), view.show_byte(), view.upper_half(), lo, width), lo, width) by {
        lemma_field_of_parts(view.mode_byte(), view.show_byte(), view.upper_half(), lo, width);
    }
}

/// Every register value holds fields that fit their bits, and is the value
/// that holds them: no bit of it is lost in its fields.
pub proof fn lemma_sub_control_pack_unpack(raw: u32)
    ensures
        sub_control_unpack(raw).valid(),
        sub_control_pack(sub_control_unpack(raw)) == raw,
{
    lemma_low_mask_values();
    lemma_field_bound(raw, 0, 3);
    lemma_field_bound(raw, 3, 1);
    lemma_field_bound(raw, 16, 2);
    lemma_field_bound(raw, 18, 2);
    lemma_field_bound(raw, 20, 2);
    lemma_field_bound(raw, 22, 1);
    lemma_field_bound(raw, 24, 6);
    lemma_sub_control_mode_byte_kept(raw);
    lemma_sub_control_show_byte_kept(raw);
    lemma_sub_control_upper_half_kept(raw);
    lemma_parts_of_word(raw);
}

impl From<u32> for DisplayControlSub {
    /// The register that holds `raw`, bit for bit.
    fn from(raw: u32) -> (control: DisplayControlSub) {
        DisplayControlSub { raw }
    }
}

impl FromSpecImpl<u32> for DisplayControlSub {
    open spec fn obeys_from_spec() -> bool {
        true
    }

    open spec fn from_spec(raw: u32) -> DisplayControlSub {
        DisplayControlSub { raw }
    }
}

impl From<DisplayControlSub> for u32 {
    /// The value that the register holds, bit for bit.
    fn from(control: DisplayControlSub) -> (raw: u32) {
        control.raw
    }
}

impl FromSpecImpl<DisplayControlSub> for u32 {
    open spec fn obeys_from_spec() -> bool {
        true
    }

    open spec fn from_spec(control: DisplayControlSub) -> u32 {
        control.raw
    }
}

/// Turning a register into its value and the value into a register again
/// gives the register back, fields and all; and turning a value into a
/// register and the register into its value gives the value back, bit for bit.
pub proof fn lemma_sub_control_raw_round_trip(control: DisplayControlSub, raw: u32)
    ensures
        <DisplayControlSub as FromSpec<u32>>::from_spec(<u32 as FromSpec<DisplayControlSub>>::from_spec(control))
            == control,
        <DisplayControlSub as FromSpec<u32>>::from_spec(<u32 as FromSpec<DisplayControlSub>>::from_spec(control))@
            == control@,
        <u32 as FromSpec<DisplayControlSub>>::from_spec(<DisplayControlSub as FromSpec<u32>>::from_spec(raw)) == raw,
{
}

impl DisplayControlSub {
    /// The register with every bit clear.
    pub fn new() -> (control: DisplayControlSub)
        ensures
            control.raw == 0,
            control@ == (DisplayControlSubView {
                bg_mode: 0,
                unused_3: 0,
                tile_obj_mapping: false,
                bm_obj_2d_dim: false,
                bm_obj_mapping: false,
                forced_blank: false,
                display_bg0: false,
                display_bg1: false,
                display_bg2: false,
                display_bg3: false,
                display_obj: false,
                display_win0: false,
                display_win1: false,
                display_obj_win: false,
                display_mode: 0,
                unused_18: 0,
                tile_obj_1d_bound: 0,
                unused_22: 0,
                obj_during_hblank: false,
                unused_24: 0,
                bg_ext_pal_enabled: false,
                obj_ext_pal_enabled: false,
            }),
    {
        proof {
            lemma_field_of_zero();
        }
        DisplayControlSub { raw: 0 }
    }

    /// Reads the field `(lo, width)`.
    fn read_bits(&self, lo: u32, width: u32) -> (value: u8)
        requires
            0 < width <= 6,
            lo + width <= 32,
        ensures
            value == field(self.raw, lo, width),
            value == field(self.raw, lo, width) as u8,
    {
        proof {
            lemma_low_mask_values();
        }
        get_field(self.raw, lo, width) as u8
    }

    /// Replaces the field `(lo, width)`; every field apart from it stays.
    fn write_bits(&mut self, lo: u32, width: u32, value: u8)
        requires
            0 < width <= 6,
            lo + width <= 32,
            value <= low_mask(width),
        ensures
            field(final(self).raw, lo, width) == value,
            forall|lo2: u32, width2: u32|
                slot(lo2, width2) && apart(lo, width, lo2, width2) ==> #[trigger] field(
                    final(self).raw,
                    lo2,
                    width2,
                ) == field(old(self).raw, lo2, width2),
    {
        self.raw = set_field(self.raw, lo, width, value as u32);
    }

    /// The background mode.
    pub fn bg_mode(&self) -> (value: u8)
        ensures
            value == self@.bg_mode,
    {
        self.read_bits(0, 3)
    }

    /// Sets the background mode; no other field changes.
    pub fn set_bg_mode(&mut self, value: u8)
        requires
            value <= 7,
        ensures
            final(self)@ == (DisplayControlSubView { bg_mode: value, ..old(self)@ }),
    {
        proof {
            lemma_low_mask_values();
        }
        self.write_bits(0, 3, value);
    }

    /// The register with `bg_mode` replaced by `value`; no other field
    /// changes.
    pub fn with_bg_mode(self, value: u8) -> (control: DisplayControlSub)
        requires
            value <= 7,
        ensures
            control@ == (DisplayControlSubView { bg_mode: value, ..self@ }),
    {
        let mut control = self;
        control.set_bg_mode(value);
        control
    }

    /// The mapping mode of tile objects.
    pub fn tile_obj_mapping(&self) -> (value: bool)
        ensures
            value == self@.tile_obj_mapping,
    {
        self.read_bits(4, 1) == 1
    }

    /// Sets the mapping mode of tile objects; no other field changes.
    pub fn set_tile_obj_mapping(&mut self, value: bool)
        ensures
            final(self)@ == (DisplayControlSubView { tile_obj_mapping: value, ..old(self)@ }),
    {
        proof {
            lemma_low_mask_values();
        }
        self.write_bits(4, 1, if value { 1 } else { 0 });
    }

    /// The register with `tile_obj_mapping` replaced by `value`; no other
    /// field changes.
    pub fn with_tile_obj_mapping(self, value: bool) -> (control: DisplayControlSub)
        ensures
            control@ == (DisplayControlSubView { tile_obj_mapping: value, ..self@ }),
    {
        let mut control = self;
        control.set_tile_obj_mapping(value);
        control
    }

    /// The dimension of two-dimensional bitmap objects.
    pub fn bm_obj_2d_dim(&self) -> (value: bool)
        ensures
            value == self@.bm_obj_2d_dim,
    {
        self.read_bits(5, 1) == 1
    }

    /// Sets the dimension of two-dimensional bitmap objects; no other field
    /// changes.
    pub fn set_bm_obj_2d_dim(&mut self, value: bool)
        ensures
            final(self)@ == (DisplayControlSubView { bm_obj_2d_dim: value, ..old(self)@ }),
    {
        proof {
            lemma_low_mask_values();
        }
        self.write_bits(5, 1, if value { 1 } else { 0 });
    }

    /// The register with `bm_obj_2d_dim` replaced by `value`; no other field
    /// changes.
    pub fn with_bm_obj_2d_dim(self, value: bool) -> (control: DisplayControlSub)
        ensures
            control@ == (DisplayControlSubView { bm_obj_2d_dim: value, ..self@ }),
    {
        let mut control = self;
        control.set_bm_obj_2d_dim(value);
        control
    }

    /// The mapping mode of bitmap objects.
    pub fn bm_obj_mapping(&self) -> (value: bool)
        ensures
            value == self@.bm_obj_mapping,
    {
        self.read_bits(6, 1) == 1
    }

    /// Sets the mapping mode of bitmap objects; no other field changes.
    pub fn set_bm_obj_mapping(&mut self, value: bool)
        ensures
            final(self)@ == (DisplayControlSubView { bm_obj_mapping: value, ..old(self)@ }),
    {
        proof {
            lemma_low_mask_values();
        }
        self.write_bits(6, 1, if value { 1 } else { 0 });
    }

    /// The register with `bm_obj_mapping` replaced by `value`; no other field
    /// changes.
    pub fn with_bm_obj_mapping(self, value: bool) -> (control: DisplayControlSub)
        ensures
            control@ == (DisplayControlSubView { bm_obj_mapping: value, ..self@ }),
    {
        let mut control = self;
        control.set_bm_obj_mapping(value);
        control
    }

    /// Whether the screen is forced blank.
    pub fn forced_blank(&self) -> (value: bool)
        ensures
            value == self@.forced_blank,
    {
        self.read_bits(7, 1) == 1
    }

    /// Sets whether the screen is forced blank; no other field changes.
    pub fn set_forced_blank(&mut self, value: bool)
        ensures
            final(self)@ == (DisplayControlSubView { forced_blank: value, ..old(self)@ }),
    {
        proof {
            lemma_low_mask_values();
        }
        self.write_bits(7, 1, if value { 1 } else { 0 });
    }

    /// The register with `forced_blank` replaced by `value`; no other field
    /// changes.
    pub fn with_forced_blank(self, value: bool) -> (control: DisplayControlSub)
        ensures
            control@ == (DisplayControlSubView { forced_blank: value, ..self@ }),
    {
        let mut control = self;
        control.set_forced_blank(value);
        control
    }

    /// Whether background layer 0 is shown.
    pub fn display_bg0(&self) -> (value: bool)
        ensures
            value == self@.display_bg0,
    {
        self.read_bits(8, 1) == 1
    }

    /// Sets whether background layer 0 is shown; no other field changes.
    pub fn set_display_bg0(&mut self, value: bool)
        ensures
            final(self)@ == (DisplayControlSubView { display_bg0: value, ..old(self)@ }),
    {
        proof {
            lemma_low_mask_values();
        }
        self.write_bits(8, 1, if value { 1 } else { 0 });
    }

    /// The register with `display_bg0` replaced by `value`; no other field
    /// changes.
    pub fn with_display_bg0(self, value: bool) -> (control: DisplayControlSub)
        ensures
            control@ == (DisplayControlSubView { display_bg0: value, ..self@ }),
    {
        let mut control = self;
        control.set_display_bg0(value);
        control
    }

    /// Whether background layer 1 is shown.
    pub fn display_bg1(&self) -> (value: bool)
        ensures
            value == self@.display_bg1,
    {
        self.read_bits(9, 1) == 1
    }

    /// Sets whether background layer 1 is shown; no other field changes.
    pub fn set_display_bg1(&mut self, value: bool)
        ensures
            final(self)@ == (DisplayControlSubView { display_bg1: value, ..old(self)@ }),
    {
        proof {
            lemma_low_mask_values();
        }
        self.write_bits(9, 1, if value { 1 } else { 0 });
    }

    /// The register with `display_bg1` replaced by `value`; no other field
    /// changes.
    pub fn with_display_bg1(self, value: bool) -> (control: DisplayControlSub)
        ensures
            control@ == (DisplayControlSubView { display_bg1: value, ..self@ }),
    {
        let mut control = self;
        control.set_display_bg1(value);
        control
    }

    /// Whether background layer 2 is shown.
    pub fn display_bg2(&self) -> (value: bool)
        ensures
            value == self@.display_bg2,
    {
        self.read_bits(10, 1) == 1
    }

    /// Sets whether background layer 2 is shown; no other field changes.
    pub fn set_display_bg2(&mut self, value: bool)
        ensures
            final(self)@ == (DisplayControlSubView { display_bg2: value, ..old(self)@ }),
    {
        proof {
            lemma_low_mask_values();
        }
        self.write_bits(10, 1, if value { 1 } else { 0 });
    }

    /// The register with `display_bg2` replaced by `value`; no other field
    /// changes.
    pub fn with_display_bg2(self, value: bool) -> (control: DisplayControlSub)
        ensures
            control@ == (DisplayControlSubView { display_bg2: value, ..self@ }),
    {
        let mut control = self;
        control.set_display_bg2(value);
        control
    }

    /// Whether background layer 3 is shown.
    pub fn display_bg3(&self) -> (value: bool)
        ensures
            value == self@.display_bg3,
    {
        self.read_bits(11, 1) == 1
    }

    /// Sets whether background layer 3 is shown; no other field changes.
    pub fn set_display_bg3(&mut self, value: bool)
        ensures
            final(self)@ == (DisplayControlSubView { display_bg3: value, ..old(self)@ }),
    {
        proof {
            lemma_low_mask_values();
        }
        self.write_bits(11, 1, if value { 1 } else { 0 });
    }

    /// The register with `display_bg3` replaced by `value`; no other field
    /// changes.
    pub fn with_display_bg3(self, value: bool) -> (control: DisplayControlSub)
        ensures
            control@ == (DisplayControlSubView { display_bg3: value, ..self@ }),
    {
        let mut control = self;
        control.set_display_bg3(value);
        control
    }

    /// Whether objects are shown.
    pub fn display_obj(&self) -> (value: bool)
        ensures
            value == self@.display_obj,
    {
        self.read_bits(12, 1) == 1
    }

    /// Sets whether objects are shown; no other field changes.
    pub fn set_display_obj(&mut self, value: bool)
        ensures
            final(self)@ == (DisplayControlSubView { display_obj: value, ..old(self)@ }),
    {
        proof {
            lemma_low_mask_values();
        }
        self.write_bits(12, 1, if value { 1 } else { 0 });
    }

    /// The register with `display_obj` replaced by `value`; no other field
    /// changes.
    pub fn with_display_obj(self, value: bool) -> (control: DisplayControlSub)
        ensures
            control@ == (DisplayControlSubView { display_obj: value, ..self@ }),
    {
        let mut control = self;
        control.set_display_obj(value);
        control
    }

    /// Whether window 0 is in effect.
    pub fn display_win0(&self) -> (value: bool)
        ensures
            value == self@.display_win0,
    {
        self.read_bits(13, 1) == 1
    }

    /// Sets whether window 0 is in effect; no other field changes.
    pub fn set_display_win0(&mut self, value: bool)
        ensures
            final(self)@ == (DisplayControlSubView { display_win0: value, ..old(self)@ }),
    {
        proof {
            lemma_low_mask_values();
        }
        self.write_bits(13, 1, if value { 1 } else { 0 });
    }

    /// The register with `display_win0` replaced by `value`; no other field
    /// changes.
    pub fn with_display_win0(self, value: bool) -> (control: DisplayControlSub)
        ensures
            control@ == (DisplayControlSubView { display_win0: value, ..self@ }),
    {
        let mut control = self;
        control.set_display_win0(value);
        control
    }

    /// Whether window 1 is in effect.
    pub fn display_win1(&self) -> (value: bool)
        ensures
            value == self@.display_win1,
    {
        self.read_bits(14, 1) == 1
    }

    /// Sets whether window 1 is in effect; no other field changes.
    pub fn set_display_win1(&mut self, value: bool)
        ensures
            final(self)@ == (DisplayControlSubView { display_win1: value, ..old(self)@ }),
    {
        proof {
            lemma_low_mask_values();
        }
        self.write_bits(14, 1, if value { 1 } else { 0 });
    }

    /// The register with `display_win1` replaced by `value`; no other field
    /// changes.
    pub fn with_display_win1(self, value: bool) -> (control: DisplayControlSub)
        ensures
            control@ == (DisplayControlSubView { display_win1: value, ..self@ }),
    {
        let mut control = self;
        control.set_display_win1(value);
        control
    }

    /// Whether the object window is in effect.
    pub fn display_obj_win(&self) -> (value: bool)
        ensures
            value == self@.display_obj_win,
    {
        self.read_bits(15, 1) == 1
    }

    /// Sets whether the object window is in effect; no other field changes.
    pub fn set_display_obj_win(&mut self, value: bool)
        ensures
            final(self)@ == (DisplayControlSubView { display_obj_win: value, ..old(self)@ }),
    {
        proof {
            lemma_low_mask_values();
        }
        self.write_bits(15, 1, if value { 1 } else { 0 });
    }

    /// The register with `display_obj_win` replaced by `value`; no other
    /// field changes.
    pub fn with_display_obj_win(self, value: bool) -> (control: DisplayControlSub)
        ensures
            control@ == (DisplayControlSubView { display_obj_win: value, ..self@ }),
    {
        let mut control = self;
        control.set_display_obj_win(value);
        control
    }

    /// The display mode.
    pub fn display_mode(&self) -> (value: u8)
        ensures
            value == self@.display_mode,
    {
        self.read_bits(16, 2)
    }

    /// Sets the display mode; no other field changes.
    pub fn set_display_mode(&mut self, value: u8)
        requires
            value <= 3,
        ensures
            final(self)@ == (DisplayControlSubView { display_mode: value, ..old(self)@ }),
    {
        proof {
            lemma_low_mask_values();
        }
        self.write_bits(16, 2, value);
    }

    /// The register with `display_mode` replaced by `value`; no other field
    /// changes.
    pub fn with_display_mode(self, value: u8) -> (control: DisplayControlSub)
        requires
            value <= 3,
        ensures
            control@ == (DisplayControlSubView { display_mode: value, ..self@ }),
    {
        let mut control = self;
        control.set_display_mode(value);
        control
    }

    /// The boundary of one-dimensional tile objects.
    pub fn tile_obj_1d_bound(&self) -> (value: u8)
        ensures
            value == self@.tile_obj_1d_bound,
    {
        self.read_bits(20, 2)
    }

    /// Sets the boundary of one-dimensional tile objects; no other field
    /// changes.
    pub fn set_tile_obj_1d_bound(&mut self, value: u8)
        requires
            value <= 3,
        ensures
            final(self)@ == (DisplayControlSubView { tile_obj_1d_bound: value, ..old(self)@ }),
    {
        proof {
            lemma_low_mask_values();
        }
        self.write_bits(20, 2, value);
    }

    /// The register with `tile_obj_1d_bound` replaced by `value`; no other
    /// field changes.
    pub fn with_tile_obj_1d_bound(self, value: u8) -> (control: DisplayControlSub)
        requires
            value <= 3,
        ensures
            control@ == (DisplayControlSubView { tile_obj_1d_bound: value, ..self@ }),
    {
        let mut control = self;
        control.set_tile_obj_1d_bound(value);
        control
    }

    /// Whether objects are processed during the horizontal blanking interval.
    pub fn obj_during_hblank(&self) -> (value: bool)
        ensures
            value == self@.obj_during_hblank,
    {
        self.read_bits(23, 1) == 1
    }

    /// Sets whether objects are processed during the horizontal blanking
    /// interval; no other field changes.
    pub fn set_obj_during_hblank(&mut self, value: bool)
        ensures
            final(self)@ == (DisplayControlSubView { obj_during_hblank: value, ..old(self)@ }),
    {
        proof {
            lemma_low_mask_values();
        }
        self.write_bits(23, 1, if value { 1 } else { 0 });
    }

    /// The register with `obj_during_hblank` replaced by `value`; no other
    /// field changes.
    pub fn with_obj_during_hblank(self, value: bool) -> (control: DisplayControlSub)
        ensures
            control@ == (DisplayControlSubView { obj_during_hblank: value, ..self@ }),
    {
        let mut control = self;
        control.set_obj_during_hblank(value);
        control
    }

    /// Whether backgrounds use extended palettes.
    pub fn bg_ext_pal_enabled(&self) -> (value: bool)
        ensures
            value == self@.bg_ext_pal_enabled,
    {
        self.read_bits(30, 1) == 1
    }

    /// Sets whether backgrounds use extended palettes; no other field
    /// changes.
    pub fn set_bg_ext_pal_enabled(&mut self, value: bool)
        ensures
            final(self)@ == (DisplayControlSubView { bg_ext_pal_enabled: value, ..old(self)@ }),
    {
        proof {
            lemma_low_mask_values();
        }
        self.write_bits(30, 1, if value { 1 } else { 0 });
    }

    /// The register with `bg_ext_pal_enabled` replaced by `value`; no other
    /// field changes.
    pub fn with_bg_ext_pal_enabled(self, value: bool) -> (control: DisplayControlSub)
        ensures
            control@ == (DisplayControlSubView { bg_ext_pal_enabled: value, ..self@ }),
    {
        let mut control = self;
        control.set_bg_ext_pal_enabled(value);
        control
    }

    /// Whether objects use extended palettes.
    pub fn obj_ext_pal_enabled(&self) -> (value: bool)
        ensures
            value == self@.obj_ext_pal_enabled,
    {
        self.read_bits(31, 1) == 1
    }

    /// Sets whether objects use extended palettes; no other field changes.
    pub fn set_obj_ext_pal_enabled(&mut self, value: bool)
        ensures
            final(self)@ == (DisplayControlSubView { obj_ext_pal_enabled: value, ..old(self)@ }),
    {
        proof {
            lemma_low_mask_values();
        }
        self.write_bits(31, 1, if value { 1 } else { 0 });
    }

    /// The register with `obj_ext_pal_enabled` replaced by `value`; no other
    /// field changes.
    pub fn with_obj_ext_pal_enabled(self, value: bool) -> (control: DisplayControlSub)
        ensures
            control@ == (DisplayControlSubView { obj_ext_pal_enabled: value, ..self@ }),
    {
        let mut control = self;
        control.set_obj_ext_pal_enabled(value);
        control
    }
}

} // verus!
