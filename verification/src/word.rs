//! Little-endian words in byte sequences.

use vstd::prelude::*;

verus! {

/// The word whose bytes, least significant first, are `b0`, `b1`, `b2`, `b3`.
pub open spec fn word_of_bytes(b0: u8, b1: u8, b2: u8, b3: u8) -> u32 {
    (b0 + 0x100 * b1 + 0x1_0000 * b2 + 0x100_0000 * b3) as u32
}

/// The byte of a word at `place`, counted from the least significant.
pub open spec fn byte_of_word(word: u32, place: int) -> u8 {
    if place == 0 {
        (word % 0x100) as u8
    } else if place == 1 {
        (word / 0x100 % 0x100) as u8
    } else if place == 2 {
        (word / 0x1_0000 % 0x100) as u8
    } else {
        (word / 0x100_0000 % 0x100) as u8
    }
}

/// The little-endian word in the four bytes that start at `offset`.
pub open spec fn word_at(bytes: Seq<u8>, offset: int) -> u32 {
    word_of_bytes(bytes[offset], bytes[offset + 1], bytes[offset + 2], bytes[offset + 3])
}

/// The bytes with the little-endian word written over the four that start at
/// `offset`.
pub open spec fn write_word(bytes: Seq<u8>, offset: int, word: u32) -> Seq<u8> {
    bytes.update(offset, byte_of_word(word, 0)).update(offset + 1, byte_of_word(word, 1)).update(
        offset + 2,
        byte_of_word(word, 2),
    ).update(offset + 3, byte_of_word(word, 3))
}

/// A word is the word of its own bytes.
pub proof fn lemma_word_of_its_bytes(word: u32)
    ensures
        word_of_bytes(
            byte_of_word(word, 0),
            byte_of_word(word, 1),
            byte_of_word(word, 2),
            byte_of_word(word, 3),
        ) == word,
{
}

/// A word that was written is the word that is read back, and writing keeps
/// the length.
pub proof fn lemma_write_then_read(bytes: Seq<u8>, offset: int, word: u32)
    requires
        0 <= offset,
        offset + 4 <= bytes.len(),
    ensures
        write_word(bytes, offset, word).len() == bytes.len(),
        word_at(write_word(bytes, offset, word), offset) == word,
{
    lemma_word_of_its_bytes(word);
}

/// Writing a word leaves every byte outside its four unchanged, and with
/// them every word that does not overlap it.
pub proof fn lemma_write_keeps_others(bytes: Seq<u8>, offset: int, word: u32, other: int)
    requires
        0 <= offset,
        offset + 4 <= bytes.len(),
        0 <= other,
        other + 4 <= bytes.len(),
        other + 4 <= offset || offset + 4 <= other,
    ensures
        forall|i: int|
            0 <= i < bytes.len() && !(offset <= i < offset + 4) ==> write_word(
                bytes,
                offset,
                word,
            )[i] == bytes[i],
        word_at(write_word(bytes, offset, word), other) == word_at(bytes, other),
{
}

/// The word made of four bytes with shifts is the word of those bytes.
pub proof fn lemma_word_by_shifts(b0: u32, b1: u32, b2: u32, b3: u32)
    requires
        b0 < 0x100,
        b1 < 0x100,
        b2 < 0x100,
        b3 < 0x100,
    ensures
        b0 | (b1 << 8) | (b2 << 16) | (b3 << 24) == b0 + 0x100 * b1 + 0x1_0000 * b2 + 0x100_0000
            * b3,
{
    assert(b0 | (b1 << 8) | (b2 << 16) | (b3 << 24) == b0 + 0x100 * b1 + 0x1_0000 * b2
        + 0x100_0000 * b3) by (bit_vector)
        requires
            b0 < 0x100,
            b1 < 0x100,
            b2 < 0x100,
            b3 < 0x100,
    ;
}

/// The bytes that masks and shifts take out of a word are its bytes.
pub proof fn lemma_bytes_by_masks(word: u32)
    ensures
        word & 0xff == word % 0x100,
        (word & 0xff00) >> 8 == word / 0x100 % 0x100,
        (word & 0xff0000) >> 16 == word / 0x1_0000 % 0x100,
        (word & 0xff000000) >> 24 == word / 0x100_0000 % 0x100,
{
    assert({
        &&& word & 0xff == word % 0x100
        &&& (word & 0xff00) >> 8 == word / 0x100 % 0x100
        &&& (word & 0xff0000) >> 16 == word / 0x1_0000 % 0x100
        &&& (word & 0xff000000) >> 24 == word / 0x100_0000 % 0x100
    }) by (bit_vector);
}

} // verus!
