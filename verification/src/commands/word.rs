//! Little-endian layout of 32-bit words.

use vstd::prelude::*;

verus! {

/// The four bytes of `word`, least significant first.
pub open spec fn le_bytes(word: u32) -> Seq<u8> {
    seq![
        (word % 0x100) as u8,
        (word / 0x100 % 0x100) as u8,
        (word / 0x1_0000 % 0x100) as u8,
        (word / 0x100_0000) as u8,
    ]
}

/// The word whose little-endian layout starts `bytes`.
pub open spec fn le_word(bytes: Seq<u8>) -> u32
    recommends
        bytes.len() >= 4,
{
    (bytes[0] + 0x100 * bytes[1] + 0x1_0000 * bytes[2] + 0x100_0000 * bytes[3]) as u32
}

/// Lays `word` out in little-endian order.
pub fn to_le_bytes(word: u32) -> (bytes: [u8; 4])
    ensures
        bytes@ == le_bytes(word),
{
    let bytes: [u8; 4] = [
        (word % 0x100) as u8,
        (word / 0x100 % 0x100) as u8,
        (word / 0x1_0000 % 0x100) as u8,
        (word / 0x100_0000) as u8,
    ];
    assert(bytes@ =~= le_bytes(word));
    bytes
}

/// Reads a word from four bytes in little-endian order.
pub fn from_le_bytes(bytes: [u8; 4]) -> (word: u32)
    ensures
        word == le_word(bytes@),
{
    let b0: u32 = bytes[0] as u32;
    let b1: u32 = bytes[1] as u32;
    let b2: u32 = bytes[2] as u32;
    let b3: u32 = bytes[3] as u32;
    b0 + 0x100 * b1 + 0x1_0000 * b2 + 0x100_0000 * b3
}

/// Reading back the layout of a word yields the word.
pub proof fn lemma_le_word_of_bytes(word: u32)
    ensures
        le_bytes(word).len() == 4,
        le_word(le_bytes(word)) == word,
{
}

/// Laying out the word read from four bytes yields those four bytes.
pub proof fn lemma_le_bytes_of_word(bytes: Seq<u8>)
    requires
        bytes.len() == 4,
    ensures
        le_bytes(le_word(bytes)) == bytes,
{
    let b0 = bytes[0] as int;
    let b1 = bytes[1] as int;
    let b2 = bytes[2] as int;
    let b3 = bytes[3] as int;
    let word = b0 + 0x100 * b1 + 0x1_0000 * b2 + 0x100_0000 * b3;
    assert(le_word(bytes) == word);
    assert(word % 0x100 == b0);
    assert(word / 0x100 == b1 + 0x100 * b2 + 0x1_0000 * b3);
    assert(word / 0x1_0000 == b2 + 0x100 * b3);
    assert(word / 0x100_0000 == b3);
    assert(le_bytes(le_word(bytes)) =~= bytes);
}

} // verus!
