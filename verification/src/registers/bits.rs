//! Bit fields within a 32-bit register word.
//!
//! A field is a run of `width` bits whose lowest bit is bit `lo` of the word.
//! Every register type reads and writes its fields through [`field`] and
//! [`with_field`]; the lemmas below are what makes those two a codec: a field
//! that is written can be read back, and writing one field disturbs no other.

use vstd::prelude::*;

verus! {

/// The word whose lowest `width` bits are set and whose other bits are clear.
pub open spec fn low_mask(width: u32) -> u32 {
    if width >= 32 {
        0xFFFF_FFFFu32
    } else {
        ((1u32 << width) - 1) as u32
    }
}

/// The value of the field of `width` bits that starts at bit `lo` of `word`.
pub open spec fn field(word: u32, lo: u32, width: u32) -> u32 {
    (word >> lo) & low_mask(width)
}

/// `word` with the field of `width` bits at bit `lo` replaced by the lowest
/// `width` bits of `value`.
pub open spec fn with_field(word: u32, lo: u32, width: u32, value: u32) -> u32 {
    (word & !(low_mask(width) << lo)) | ((value & low_mask(width)) << lo)
}

/// A flag as the value of a one-bit field: 1 when set, 0 when clear.
pub open spec fn bit(flag: bool) -> u32 {
    if flag {
        1u32
    } else {
        0u32
    }
}

/// A field lies within the word.
pub open spec fn in_word(lo: u32, width: u32) -> bool {
    1 <= width && lo + width <= 32
}

/// Two fields share no bit.
pub open spec fn disjoint(lo: u32, width: u32, other_lo: u32, other_width: u32) -> bool {
    lo + width <= other_lo || other_lo + other_width <= lo
}

/// A field's value has no bit above the field's width.
pub proof fn lemma_field_fits(word: u32, lo: u32, width: u32)
    ensures
        field(word, lo, width) <= low_mask(width),
        field(word, lo, width) & low_mask(width) == field(word, lo, width),
        width <= 8 ==> field(word, lo, width) <= 0xFF,
        width <= 16 ==> field(word, lo, width) <= 0xFFFF,
{
    assert(field(word, lo, width) <= low_mask(width) && field(word, lo, width) & low_mask(width)
        == field(word, lo, width) && (width <= 8 ==> field(word, lo, width) <= 0xFF) && (width
        <= 16 ==> field(word, lo, width) <= 0xFFFF)) by (bit_vector);
}

/// Reading a field that was just written gives the written value, cut to the
/// field's width.
pub proof fn lemma_field_written(word: u32, lo: u32, width: u32, value: u32)
    requires
        in_word(lo, width),
    ensures
        field(with_field(word, lo, width, value), lo, width) == value & low_mask(width),
        value <= low_mask(width) ==> field(with_field(word, lo, width, value), lo, width) == value,
{
    assert(field(with_field(word, lo, width, value), lo, width) == value & low_mask(width) && (
    value <= low_mask(width) ==> value & low_mask(width) == value)) by (bit_vector)
        requires
            1 <= width && lo + width <= 32,
    ;
}

/// Writing one field leaves every field that shares no bit with it as it was.
pub proof fn lemma_field_kept(
    word: u32,
    lo: u32,
    width: u32,
    value: u32,
    other_lo: u32,
    other_width: u32,
)
    requires
        in_word(lo, width),
        in_word(other_lo, other_width),
        disjoint(lo, width, other_lo, other_width),
    ensures
        field(with_field(word, lo, width, value), other_lo, other_width) == field(
            word,
            other_lo,
            other_width,
        ),
{
    assert(field(with_field(word, lo, width, value), other_lo, other_width) == field(
        word,
        other_lo,
        other_width,
    )) by (bit_vector)
        requires
            1 <= width && lo + width <= 32,
            1 <= other_width && other_lo + other_width <= 32,
            lo + width <= other_lo || other_lo + other_width <= lo,
    ;
}

/// Writing a field's own value back changes nothing.
pub proof fn lemma_field_rewritten(word: u32, lo: u32, width: u32)
    requires
        in_word(lo, width),
    ensures
        with_field(word, lo, width, field(word, lo, width)) == word,
{
    assert(with_field(word, lo, width, field(word, lo, width)) == word) by (bit_vector)
        requires
            1 <= width && lo + width <= 32,
    ;
}

/// A layout is a list of fields, each given by its lowest bit and its width.
/// It is sound when every field lies within the word and no two fields share a
/// bit.
pub open spec fn sound(layout: Seq<(u32, u32)>) -> bool {
    &&& forall|i: int| 0 <= i < layout.len() ==> in_word(#[trigger] layout[i].0, layout[i].1)
    &&& forall|i: int, j: int|
        0 <= i < layout.len() && 0 <= j < layout.len() && i != j ==> disjoint(
            (#[trigger] layout[i]).0,
            layout[i].1,
            (#[trigger] layout[j]).0,
            layout[j].1,
        )
}

/// There is one value for each field of the layout, and each value is within
/// the width of its field.
pub open spec fn fitting(layout: Seq<(u32, u32)>, values: Seq<u32>) -> bool {
    &&& values.len() == layout.len()
    &&& forall|i: int| 0 <= i < layout.len() ==> #[trigger] values[i] <= low_mask(layout[i].1)
}

/// The word that holds each value in its field and zero in every other bit.
pub open spec fn pack(layout: Seq<(u32, u32)>, values: Seq<u32>) -> u32
    decreases layout.len(),
{
    if layout.len() == 0 {
        0
    } else {
        with_field(
            pack(layout.drop_last(), values.drop_last()),
            layout.last().0,
            layout.last().1,
            values.last(),
        )
    }
}

/// The values of the fields of a word, in the order of the layout.
pub open spec fn unpack(layout: Seq<(u32, u32)>, word: u32) -> Seq<u32> {
    Seq::new(layout.len(), |i: int| field(word, layout[i].0, layout[i].1))
}

/// Values that are packed into a word come out of it again as they went in: for
/// a sound layout and values that fit their fields, unpacking the packed word
/// gives the values back.
pub proof fn lemma_pack_unpack(layout: Seq<(u32, u32)>, values: Seq<u32>)
    requires
        sound(layout),
        fitting(layout, values),
    ensures
        unpack(layout, pack(layout, values)) == values,
    decreases layout.len(),
{
    if layout.len() > 0 {
        let last = layout.len() - 1;
        let front = layout.drop_last();
        let front_values = values.drop_last();
        assert(sound(front)) by {
            assert forall|i: int| 0 <= i < front.len() implies in_word(
                #[trigger] front[i].0,
                front[i].1,
            ) by {
                assert(front[i] == layout[i]);
            }
            assert forall|i: int, j: int|
                0 <= i < front.len() && 0 <= j < front.len() && i != j implies disjoint(
                (#[trigger] front[i]).0,
                front[i].1,
                (#[trigger] front[j]).0,
                front[j].1,
            ) by {
                assert(front[i] == layout[i] && front[j] == layout[j]);
            }
        }
        assert(fitting(front, front_values)) by {
            assert forall|i: int| 0 <= i < front.len() implies #[trigger] front_values[i]
                <= low_mask(front[i].1) by {
                assert(front_values[i] == values[i] && front[i] == layout[i]);
            }
        }
        lemma_pack_unpack(front, front_values);
        let inner = pack(front, front_values);
        let word = pack(layout, values);
        assert forall|i: int| 0 <= i < layout.len() implies unpack(layout, word)[i]
            == values[i] by {
            if i == last {
                lemma_field_written(inner, layout[last].0, layout[last].1, values[last]);
            } else {
                lemma_field_kept(
                    inner,
                    layout[last].0,
                    layout[last].1,
                    values[last],
                    layout[i].0,
                    layout[i].1,
                );
                assert(unpack(front, inner)[i] == front_values[i]);
                assert(front[i] == layout[i]);
            }
        }
    }
    assert(unpack(layout, pack(layout, values)) =~= values);
}

/// Writing one field of a sound layout changes the value of that field and of
/// no other.
pub proof fn lemma_field_updated(layout: Seq<(u32, u32)>, word: u32, index: int, value: u32)
    requires
        sound(layout),
        0 <= index < layout.len(),
    ensures
        unpack(layout, with_field(word, layout[index].0, layout[index].1, value)) == unpack(
            layout,
            word,
        ).update(index, value & low_mask(layout[index].1)),
{
    let written = with_field(word, layout[index].0, layout[index].1, value);
    assert forall|i: int| 0 <= i < layout.len() implies unpack(layout, written)[i] == unpack(
        layout,
        word,
    ).update(index, value & low_mask(layout[index].1))[i] by {
        if i == index {
            lemma_field_written(word, layout[index].0, layout[index].1, value);
        } else {
            lemma_field_kept(
                word,
                layout[index].0,
                layout[index].1,
                value,
                layout[i].0,
                layout[i].1,
            );
        }
    }
    assert(unpack(layout, written) =~= unpack(layout, word).update(
        index,
        value & low_mask(layout[index].1),
    ));
}

/// The values that come out of a word fit their fields, and packing them gives
/// a word that holds the same value in every field.
pub proof fn lemma_unpack_pack(layout: Seq<(u32, u32)>, word: u32)
    requires
        sound(layout),
    ensures
        fitting(layout, unpack(layout, word)),
        unpack(layout, pack(layout, unpack(layout, word))) == unpack(layout, word),
{
    assert forall|i: int| 0 <= i < layout.len() implies #[trigger] unpack(layout, word)[i]
        <= low_mask(layout[i].1) by {
        lemma_field_fits(word, layout[i].0, layout[i].1);
    }
    lemma_pack_unpack(layout, unpack(layout, word));
}

/// The masks of the field widths that the registers use, written out.
pub proof fn lemma_mask_values()
    ensures
        low_mask(1) == 0x1,
        low_mask(2) == 0x3,
        low_mask(3) == 0x7,
        low_mask(4) == 0xF,
        low_mask(5) == 0x1F,
        low_mask(7) == 0x7F,
        low_mask(8) == 0xFF,
        low_mask(10) == 0x3FF,
{
    assert(low_mask(1) == 0x1 && low_mask(2) == 0x3 && low_mask(3) == 0x7 && low_mask(4) == 0xF
        && low_mask(5) == 0x1F && low_mask(7) == 0x7F && low_mask(8) == 0xFF && low_mask(10)
        == 0x3FF) by (bit_vector);
}

/// The value of a flag is 0 or 1, and is 1 exactly when the flag is set.
pub proof fn lemma_bit_values(flag: bool)
    ensures
        bit(flag) <= 1,
        (bit(flag) == 1) == flag,
        bit(flag) & low_mask(1) == bit(flag),
{
    assert(0u32 & low_mask(1) == 0u32 && 1u32 & low_mask(1) == 1u32) by (bit_vector);
}

/// The mask of the lowest `width` bits.
pub fn mask_of(width: u32) -> (mask: u32)
    ensures
        mask == low_mask(width),
{
    if width >= 32 {
        0xFFFF_FFFF
    } else {
        assert(1u32 << width >= 1) by (bit_vector)
            requires
                width < 32,
        ;
        (1u32 << width) - 1
    }
}

/// Reads the field of `width` bits at bit `lo` of `word`. Bits beyond the word
/// read as zero.
pub fn get_field(word: u32, lo: u32, width: u32) -> (value: u32)
    ensures
        value == field(word, lo, width),
        width <= 8 ==> value <= 0xFF,
        width <= 16 ==> value <= 0xFFFF,
{
    proof {
        lemma_field_fits(word, lo, width);
    }
    if lo >= 32 {
        assert(field(word, lo, width) == 0) by (bit_vector)
            requires
                lo >= 32,
        ;
        0
    } else {
        (word >> lo) & mask_of(width)
    }
}

/// Writes the lowest `width` bits of `value` to the field at bit `lo` of
/// `word`; the bits outside the field stay as they are, and what would lie
/// beyond the word is dropped.
pub fn set_field(word: u32, lo: u32, width: u32, value: u32) -> (result: u32)
    ensures
        result == with_field(word, lo, width, value),
{
    if lo >= 32 {
        assert(with_field(word, lo, width, value) == word) by (bit_vector)
            requires
                lo >= 32,
        ;
        word
    } else {
        let mask: u32 = mask_of(width);
        (word & !(mask << lo)) | ((value & mask) << lo)
    }
}

/// Reads the one-bit field at bit `lo` of `word` as a flag.
pub fn get_flag(word: u32, lo: u32) -> (flag: bool)
    ensures
        flag == (field(word, lo, 1) == 1),
{
    get_field(word, lo, 1) == 1
}

/// Writes a flag to the one-bit field at bit `lo` of `word`.
pub fn set_flag(word: u32, lo: u32, flag: bool) -> (result: u32)
    ensures
        result == with_field(word, lo, 1, bit(flag)),
{
    set_field(word, lo, 1, if flag { 1 } else { 0 })
}

} // verus!
