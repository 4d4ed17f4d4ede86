//! Bit fields inside a 32-bit word: a field is `width` consecutive bits
//! starting at bit `lo`, counted from the least significant bit.

use vstd::prelude::*;
use vstd::arithmetic::power2::pow2;
use vstd::bits::{
    lemma_u32_low_bits_mask_is_mod, lemma_u32_pow2_no_overflow, lemma_u32_shl_is_mul,
    lemma_u32_shr_is_div, low_bits_mask,
};

verus! {

/// The word whose `width` lowest bits are set and whose other bits are clear:
/// the largest value of a field of that width.
pub open spec fn low_mask(width: u32) -> u32 {
    !(0xFFFF_FFFFu32 << width)
}

/// A field lies inside the word, and is narrower than the word.
pub open spec fn slot(lo: u32, width: u32) -> bool {
    0 < width < 32 && lo + width <= 32
}

/// Two fields share no bit.
pub open spec fn apart(lo: u32, width: u32, lo2: u32, width2: u32) -> bool {
    lo + width <= lo2 || lo2 + width2 <= lo
}

/// The value held by the field `(lo, width)` of `raw`.
pub open spec fn field(raw: u32, lo: u32, width: u32) -> u32 {
    (raw >> lo) & low_mask(width)
}

/// The single bit `index` of `raw`, as a flag.
pub open spec fn flag(raw: u32, index: u32) -> bool {
    field(raw, index, 1) == 1
}

/// `raw` with the field `(lo, width)` replaced by `value`.
pub open spec fn with_field(raw: u32, lo: u32, width: u32, value: u32) -> u32 {
    (raw & !(low_mask(width) << lo)) | (value << lo)
}

/// The field `(lo, width)` lies within bits 0 to 7, within bits 8 to 15 or
/// within bits 16 to 31.
pub open spec fn in_one_part(lo: u32, width: u32) -> bool {
    lo + width <= 8 || (8 <= lo && lo + width <= 16) || 16 <= lo
}

/// Of three parts of a word, the one in which the field `(lo, width)` lies:
/// `low` for bits 0 to 7, `mid` for bits 8 to 15, `high` for bits 16 to 31.
pub open spec fn part_at(low: u32, mid: u32, high: u32, lo: u32, width: u32) -> u32 {
    if lo + width <= 8 {
        low
    } else if 8 <= lo && lo + width <= 16 {
        mid
    } else {
        high
    }
}

/// Reads the field `(lo, width)` of `raw`.
pub fn get_field(raw: u32, lo: u32, width: u32) -> (value: u32)
    requires
        slot(lo, width),
    ensures
        value == field(raw, lo, width),
        value <= low_mask(width),
{
    proof {
        lemma_field_bound(raw, lo, width);
    }
    (raw >> lo) & !(0xFFFF_FFFFu32 << width)
}

/// Replaces the field `(lo, width)` of `raw` by `value`. Every field apart
/// from it keeps its value, so no bit outside the field changes; a word that
/// fits into 16 bits still does if the field lies there.
pub fn set_field(raw: u32, lo: u32, width: u32, value: u32) -> (next: u32)
    requires
        slot(lo, width),
        value <= low_mask(width),
    ensures
        next == with_field(raw, lo, width, value),
        field(next, lo, width) == value,
        forall|lo2: u32, width2: u32|
            slot(lo2, width2) && apart(lo, width, lo2, width2) ==> #[trigger] field(
                next,
                lo2,
                width2,
            ) == field(raw, lo2, width2),
        raw <= 0xFFFF && lo + width <= 16 ==> next <= 0xFFFF,
{
    let next = (raw & !(!(0xFFFF_FFFFu32 << width) << lo)) | (value << lo);
    proof {
        lemma_with_field_same(raw, lo, width, value);
        if raw <= 0xFFFF && lo + width <= 16 {
            lemma_with_field_half(raw, lo, width, value);
        }
        assert forall|lo2: u32, width2: u32|
            slot(lo2, width2) && apart(lo, width, lo2, width2) implies #[trigger] field(
            next,
            lo2,
            width2,
        ) == field(raw, lo2, width2) by {
            lemma_with_field_apart(raw, lo, width, value, lo2, width2);
        }
    }
    next
}

/// A field's value never exceeds the largest value of its width.
pub proof fn lemma_field_bound(raw: u32, lo: u32, width: u32)
    by (bit_vector)
    requires
        width < 32,
    ensures
        field(raw, lo, width) <= low_mask(width),
{
}

/// In numbers: the field `(lo, width)` of `raw` is `raw / 2^lo`, reduced
/// modulo `2^width`, and the largest value of the field is `2^width - 1`.
pub proof fn lemma_field_as_number(raw: u32, lo: u32, width: u32)
    requires
        slot(lo, width),
    ensures
        field(raw, lo, width) == (raw as nat / pow2(lo as nat)) % pow2(width as nat),
        low_mask(width) == pow2(width as nat) - 1,
{
    let shifted = raw >> lo;
    let top = 1u32 << width;
    lemma_u32_shr_is_div(raw, lo);
    lemma_u32_pow2_no_overflow(width as nat);
    lemma_u32_shl_is_mul(1, width);
    assert(!(0xFFFF_FFFFu32 << width) == top - 1) by (bit_vector)
        requires
            top == 1u32 << width,
            width < 32,
    ;
    assert(low_mask(width) == low_bits_mask(width as nat));
    lemma_u32_low_bits_mask_is_mod(shifted, width as nat);
}

/// The largest values of the narrow fields.
pub proof fn lemma_low_mask_values()
    by (bit_vector)
    ensures
        low_mask(1) == 1,
        low_mask(2) == 3,
        low_mask(3) == 7,
        low_mask(4) == 15,
        low_mask(5) == 31,
        low_mask(6) == 63,
{
}

/// Every field of the word 0 holds 0.
pub proof fn lemma_field_of_zero()
    by (bit_vector)
    ensures
        forall|lo: u32, width: u32| #[trigger] field(0, lo, width) == 0,
{
}

/// A field that was just written reads back as the value written.
pub proof fn lemma_with_field_same(raw: u32, lo: u32, width: u32, value: u32)
    by (bit_vector)
    requires
        slot(lo, width),
        value <= low_mask(width),
    ensures
        field(with_field(raw, lo, width, value), lo, width) == value,
{
}

/// Writing one field leaves every field apart from it as it was.
pub proof fn lemma_with_field_apart(
    raw: u32,
    lo: u32,
    width: u32,
    value: u32,
    lo2: u32,
    width2: u32,
)
    by (bit_vector)
    requires
        slot(lo, width),
        slot(lo2, width2),
        apart(lo, width, lo2, width2),
        value <= low_mask(width),
    ensures
        field(with_field(raw, lo, width, value), lo2, width2) == field(raw, lo2, width2),
{
}

/// A field of the lower half of a word can be written without touching the
/// upper half.
pub proof fn lemma_with_field_half(raw: u32, lo: u32, width: u32, value: u32)
    by (bit_vector)
    requires
        0 < width < 32,
        lo + width <= 16,
        raw <= 0xFFFF,
        value <= low_mask(width),
    ensures
        with_field(raw, lo, width, value) <= 0xFFFF,
{
}

/// A word is put together from a part in bits 0 to 7, one in bits 8 to 15 and
/// one in bits 16 to 31. A field that lies within one part holds in the word
/// what it holds in that part.
pub proof fn lemma_field_of_parts(low: u32, mid: u32, high: u32, lo: u32, width: u32)
    by (bit_vector)
    requires
        low & !0x0000_00FFu32 == 0,
        mid & !0x0000_FF00u32 == 0,
        high & !0xFFFF_0000u32 == 0,
        slot(lo, width),
        in_one_part(lo, width),
    ensures
        field(low | mid | high, lo, width) == field(part_at(low, mid, high, lo, width), lo, width),
{
}

/// A word is put together from its bits 0 to 7, its bits 8 to 15 and its
/// bits 16 to 31.
pub proof fn lemma_parts_of_word(raw: u32)
    by (bit_vector)
    ensures
        (raw & 0x0000_00FFu32) | (raw & 0x0000_FF00u32) | (raw & 0xFFFF_0000u32) == raw,
{
}

} // verus!
