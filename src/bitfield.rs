//! # Bit fields
//! Every register of the L9961 is a 16-bit word made of fields at fixed bit offsets.
//! This module holds the one definition of such a field and the two operations on it,
//! proved once and shared by every register type.
use vstd::prelude::*;

verus! {

/// Ones in the low `width` bits.
pub open spec fn low_mask(width: u16) -> u16 {
    ((1u16 << width) - 1u16) as u16
}

/// `offset` and `width` describe a field that lies inside a 16-bit word.
pub open spec fn is_field(offset: u16, width: u16) -> bool {
    1 <= width <= 15 && offset + width <= 16
}

/// The two fields share no bit.
pub open spec fn disjoint(offset_a: u16, width_a: u16, offset_b: u16, width_b: u16) -> bool {
    offset_a + width_a <= offset_b || offset_b + width_b <= offset_a
}

/// The value of the `width`-bit field that starts at bit `offset` of `raw`.
pub open spec fn field(raw: u16, offset: u16, width: u16) -> u16 {
    (raw >> offset) & low_mask(width)
}

/// Every field of `a` that does not overlap the given one has the same value in `b`.
pub open spec fn agrees_outside(a: u16, b: u16, offset: u16, width: u16) -> bool {
    forall|o: u16, w: u16|
        is_field(o, w) && disjoint(o, w, offset, width) ==> #[trigger] field(b, o, w) == field(
            a,
            o,
            w,
        )
}

/// The single bit at `offset` is set.
pub open spec fn bit(raw: u16, offset: u16) -> bool {
    field(raw, offset, 1) == 1
}

/// The masks of the widths that the registers use.
pub proof fn lemma_low_masks()
    by (bit_vector)
    ensures
        low_mask(1) == 1,
        low_mask(2) == 3,
        low_mask(3) == 7,
        low_mask(4) == 15,
        low_mask(5) == 31,
        low_mask(7) == 127,
        low_mask(8) == 255,
        low_mask(12) == 4095,
        low_mask(15) == 32767,
{
}

/// Every field of the all-zero word is zero.
pub proof fn lemma_field_of_zero(offset: u16, width: u16)
    by (bit_vector)
    requires
        is_field(offset, width),
    ensures
        field(0, offset, width) == 0,
{
}

/// A word made of an 8-bit field, a 4-bit field above it and four zero bits.
pub proof fn lemma_word_8_4(w: u16, low: u16, high: u16)
    by (bit_vector)
    requires
        field(w, 0, 8) == low,
        field(w, 8, 4) == high,
        field(w, 12, 4) == 0,
    ensures
        w == low + high * 256,
{
}

/// A word made of a 12-bit field and a 4-bit field above it.
pub proof fn lemma_word_12_4(w: u16, low: u16, high: u16)
    by (bit_vector)
    requires
        field(w, 0, 12) == low,
        field(w, 12, 4) == high,
    ensures
        w == low + high * 4096,
{
}

/// A word made of two 8-bit fields.
pub proof fn lemma_word_8_8(w: u16, low: u16, high: u16)
    by (bit_vector)
    requires
        field(w, 0, 8) == low,
        field(w, 8, 8) == high,
    ensures
        w == low + high * 256,
{
}

/// A word made of a 12-bit field and four zero bits.
pub proof fn lemma_word_12(w: u16, low: u16)
    by (bit_vector)
    requires
        field(w, 0, 12) == low,
        field(w, 12, 4) == 0,
    ensures
        w == low,
{
}

/// A word made of fields of 2, 3, 2 and 5 bits from bit 0 up, and four zero bits.
pub proof fn lemma_word_2_3_2_5(w: u16, a: u16, b: u16, c: u16, d: u16)
    by (bit_vector)
    requires
        field(w, 0, 2) == a,
        field(w, 2, 3) == b,
        field(w, 5, 2) == c,
        field(w, 7, 5) == d,
        field(w, 12, 4) == 0,
    ensures
        w == a + b * 4 + c * 32 + d * 128,
{
}

proof fn lemma_field_bound(raw: u16, offset: u16, width: u16)
    by (bit_vector)
    requires
        is_field(offset, width),
    ensures
        field(raw, offset, width) <= low_mask(width),
        (1u16 << width) >= 1,
        low_mask(width) << offset >> offset == low_mask(width),
{
}

proof fn lemma_set_reads_back(raw: u16, offset: u16, width: u16, value: u16)
    by (bit_vector)
    requires
        is_field(offset, width),
        value <= low_mask(width),
    ensures
        field((raw & !(low_mask(width) << offset)) | (value << offset), offset, width) == value,
{
}

proof fn lemma_set_keeps_others(raw: u16, offset: u16, width: u16, value: u16, o: u16, w: u16)
    by (bit_vector)
    requires
        is_field(offset, width),
        is_field(o, w),
        disjoint(o, w, offset, width),
        value <= low_mask(width),
    ensures
        field((raw & !(low_mask(width) << offset)) | (value << offset), o, w) == field(raw, o, w),
{
}

/// Reads the field of `width` bits at `offset`.
pub fn get_field(raw: u16, offset: u16, width: u16) -> (r: u16)
    requires
        is_field(offset, width),
    ensures
        r == field(raw, offset, width),
        r <= low_mask(width),
{
    proof {
        lemma_field_bound(raw, offset, width);
    }
    (raw >> offset) & ((1u16 << width) - 1)
}

/// Reads the single bit at `offset`.
pub fn get_bit(raw: u16, offset: u16) -> (r: bool)
    requires
        offset < 16,
    ensures
        r == bit(raw, offset),
{
    get_field(raw, offset, 1) == 1
}

/// Replaces the field of `width` bits at `offset` with `value`, and leaves every other bit.
pub fn set_field(raw: u16, offset: u16, width: u16, value: u16) -> (r: u16)
    requires
        is_field(offset, width),
        value <= low_mask(width),
    ensures
        field(r, offset, width) == value,
        agrees_outside(raw, r, offset, width),
{
    proof {
        lemma_field_bound(raw, offset, width);
        lemma_set_reads_back(raw, offset, width, value);
        assert forall|o: u16, w: u16|
            is_field(o, w) && disjoint(o, w, offset, width) implies #[trigger] field(
                (raw & !(low_mask(width) << offset)) | (value << offset),
                o,
                w,
            ) == field(raw, o, w) by {
            lemma_set_keeps_others(raw, offset, width, value, o, w);
        }
    }
    let mask: u16 = (1u16 << width) - 1;
    (raw & !(mask << offset)) | (value << offset)
}

/// Sets or clears the single bit at `offset`.
pub fn set_bit(raw: u16, offset: u16, value: bool) -> (r: u16)
    requires
        offset < 16,
    ensures
        bit(r, offset) == value,
        agrees_outside(raw, r, offset, 1),
{
    proof {
        lemma_low_masks();
    }
    let v: u16 = if value {
        1
    } else {
        0
    };
    set_field(raw, offset, 1, v)
}

} // verus!
