//! Arithmetic on 32-bit registers: single bits and packed fields.
//!
//! A field is a run of bits inside a register, given by the offset of its
//! lowest bit and by the mask of its width (`0b11` for two bits, `0b1111`
//! for four).

use vstd::prelude::*;

verus! {

/// The register word with only bit `i` set.
pub open spec fn bit(i: u32) -> u32 {
    1u32 << i
}

/// Whether bit `i` of `word` is set.
pub open spec fn bit_is_set(word: u32, i: u32) -> bool {
    word & (1u32 << i) != 0
}

/// The field of `word` that starts at `offset` and is as wide as `mask`.
pub open spec fn field(word: u32, offset: u32, mask: u32) -> u32 {
    (word >> offset) & mask
}

/// `word` with the field at `offset` replaced by `value`.
pub open spec fn with_field(word: u32, offset: u32, mask: u32, value: u32) -> u32 {
    word & !(mask << offset) | (value << offset)
}

/// `word` after a read-modify-write that clears the bits of `clear` and then
/// sets the bits of `set`.
pub open spec fn modified(word: u32, clear: u32, set: u32) -> u32 {
    word & !clear | set
}

/// The word with only bit `i` set.
pub fn bit_mask(i: u32) -> (m: u32)
    requires
        i < 32,
    ensures
        m == bit(i),
        bit_is_set(m, i),
        forall|j: u32| j < 32 && j != i ==> !bit_is_set(m, j),
{
    let m: u32 = 1u32 << i;
    proof {
        lemma_bit_alone(i);
    }
    m
}

/// The word that a read-modify-write leaves where it found `word`: the bits
/// of `clear` are cleared, then those of `set` are set.
pub fn modify(word: u32, clear: u32, set: u32) -> (after: u32)
    ensures
        after == modified(word, clear, set),
{
    word & !clear | set
}

/// Whether all bits of `mask` are set in `word`.
pub fn all_set(word: u32, mask: u32) -> (all: bool)
    ensures
        all == (word & mask == mask),
{
    word & mask == mask
}

/// Whether bit `i` of `word` is clear.
pub fn bit_is_clear(word: u32, i: u32) -> (clear: bool)
    requires
        i < 32,
    ensures
        clear == !bit_is_set(word, i),
{
    word & (1u32 << i) == 0
}

/// A word with one bit set has no other bit set.
pub proof fn lemma_bit_alone(i: u32)
    requires
        i < 32,
    ensures
        bit_is_set(bit(i), i),
        forall|j: u32| j < 32 && j != i ==> !bit_is_set(bit(i), j),
{
    assert((1u32 << i) & (1u32 << i) != 0) by (bit_vector)
        requires
            i < 32,
    ;
    assert forall|j: u32| j < 32 && j != i implies !bit_is_set(bit(i), j) by {
        assert((1u32 << i) & (1u32 << j) == 0) by (bit_vector)
            requires
                i < 32,
                j < 32,
                j != i,
        ;
    }
}

/// A field that was written reads back as the value written, where the value
/// fits the field and the field fits the register.
pub proof fn lemma_field_written(word: u32, offset: u32, mask: u32, value: u32)
    requires
        offset < 32,
        value & !mask == 0,
        (mask << offset) >> offset == mask,
    ensures
        field(with_field(word, offset, mask, value), offset, mask) == value,
{
    assert(((word & !(mask << offset) | (value << offset)) >> offset) & mask == value)
        by (bit_vector)
        requires
            offset < 32,
            value & !mask == 0,
            (mask << offset) >> offset == mask,
    ;
}

/// Writing a field changes no bit outside the field.
pub proof fn lemma_field_frame(word: u32, offset: u32, mask: u32, value: u32)
    requires
        offset < 32,
        value & !mask == 0,
    ensures
        with_field(word, offset, mask, value) & !(mask << offset) == word & !(mask
            << offset),
        forall|i: u32|
            i < 32 && !bit_is_set(mask << offset, i) ==> (bit_is_set(
                with_field(word, offset, mask, value),
                i,
            ) <==> bit_is_set(word, i)),
{
    assert((word & !(mask << offset) | (value << offset)) & !(mask << offset) == word & !(mask
        << offset)) by (bit_vector)
        requires
            offset < 32,
            value & !mask == 0,
    ;
    assert forall|i: u32| i < 32 && !bit_is_set(mask << offset, i) implies (bit_is_set(
        with_field(word, offset, mask, value),
        i,
    ) <==> bit_is_set(word, i)) by {
        assert(((word & !(mask << offset) | (value << offset)) & (1u32 << i) != 0) == (word & (1u32
            << i) != 0)) by (bit_vector)
            requires
                offset < 32,
                i < 32,
                value & !mask == 0,
                (mask << offset) & (1u32 << i) == 0,
        ;
    }
}

/// A field reads the same after another field, which does not overlap it,
/// was written.
pub proof fn lemma_other_field_kept(
    word: u32,
    offset: u32,
    mask: u32,
    value: u32,
    other_offset: u32,
    other_mask: u32,
)
    requires
        offset < 32,
        other_offset < 32,
        value & !mask == 0,
        (mask << offset) & (other_mask << other_offset) == 0,
        (other_mask << other_offset) >> other_offset == other_mask,
    ensures
        field(with_field(word, offset, mask, value), other_offset, other_mask) == field(
            word,
            other_offset,
            other_mask,
        ),
{
    assert(((word & !(mask << offset) | (value << offset)) >> other_offset) & other_mask == (word
        >> other_offset) & other_mask) by (bit_vector)
        requires
            offset < 32,
            other_offset < 32,
            value & !mask == 0,
            (mask << offset) & (other_mask << other_offset) == 0,
            (other_mask << other_offset) >> other_offset == other_mask,
    ;
}

} // verus!
