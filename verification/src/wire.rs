//! Byte order of the 32-bit data word.
//!
//! The chip's bus carries every data word most significant byte first. The
//! register codec hands its packed words out least significant byte first.
//! [`swap_bytes`] is the single place where the two orders are reconciled.

use vstd::prelude::*;

verus! {

/// The value of four bytes read most significant byte first.
pub open spec fn be_value(bytes: Seq<u8>) -> int
    recommends
        bytes.len() == 4,
{
    bytes[0] * 0x100_0000 + bytes[1] * 0x1_0000 + bytes[2] * 0x100 + bytes[3]
}

/// The value of four bytes read least significant byte first.
pub open spec fn le_value(bytes: Seq<u8>) -> int
    recommends
        bytes.len() == 4,
{
    bytes[3] * 0x100_0000 + bytes[2] * 0x1_0000 + bytes[1] * 0x100 + bytes[0]
}

/// The four bytes of `word`, most significant first.
pub open spec fn be_bytes(word: u32) -> Seq<u8> {
    seq![
        (word / 0x100_0000) as u8,
        (word / 0x1_0000 % 0x100) as u8,
        (word / 0x100 % 0x100) as u8,
        (word % 0x100) as u8,
    ]
}

/// The four bytes of `word`, least significant first.
pub open spec fn le_bytes(word: u32) -> Seq<u8> {
    seq![
        (word % 0x100) as u8,
        (word / 0x100 % 0x100) as u8,
        (word / 0x1_0000 % 0x100) as u8,
        (word / 0x100_0000) as u8,
    ]
}

/// Four bytes joined most significant first and split again are the same four
/// bytes, and their value fits a word.
pub proof fn lemma_be_joined(b0: u8, b1: u8, b2: u8, b3: u8)
    ensures
        0 <= be_value(seq![b0, b1, b2, b3]) <= u32::MAX,
        be_bytes(be_value(seq![b0, b1, b2, b3]) as u32) == seq![b0, b1, b2, b3],
{
    let word: u32 = (b0 * 0x100_0000 + b1 * 0x1_0000 + b2 * 0x100 + b3) as u32;
    assert(word / 0x100_0000 == b0 && word / 0x1_0000 % 0x100 == b1 && word / 0x100 % 0x100 == b2
        && word % 0x100 == b3) by (bit_vector)
        requires
            word == b0 * 0x100_0000 + b1 * 0x1_0000 + b2 * 0x100 + b3,
    ;
    assert(be_bytes(word) =~= seq![b0, b1, b2, b3]);
}

/// A sequence of four bytes in the opposite order.
pub open spec fn reversed(bytes: Seq<u8>) -> Seq<u8>
    recommends
        bytes.len() == 4,
{
    seq![bytes[3], bytes[2], bytes[1], bytes[0]]
}

/// Reversing the bytes of a word turns its little-endian form into its
/// big-endian form and back, and reversing twice changes nothing.
pub proof fn lemma_reversed(word: u32, bytes: Seq<u8>)
    requires
        bytes.len() == 4,
    ensures
        reversed(le_bytes(word)) == be_bytes(word),
        reversed(be_bytes(word)) == le_bytes(word),
        reversed(reversed(bytes)) == bytes,
        be_value(reversed(bytes)) == le_value(bytes),
{
    assert(reversed(le_bytes(word)) =~= be_bytes(word));
    assert(reversed(be_bytes(word)) =~= le_bytes(word));
    assert(reversed(reversed(bytes)) =~= bytes);
}

/// Reverses the order of four bytes, turning a little-endian word into the
/// big-endian form of the wire and back.
pub fn swap_bytes(input: [u8; 4]) -> (output: [u8; 4])
    ensures
        output@ == reversed(input@),
{
    let output: [u8; 4] = [input[3], input[2], input[1], input[0]];
    assert(output@ =~= reversed(input@));
    output
}

/// Splits a word into its bytes, most significant first.
pub fn to_be_bytes(word: u32) -> (bytes: [u8; 4])
    ensures
        bytes@ == be_bytes(word),
        be_value(bytes@) == word,
{
    let b0: u8 = (word >> 24) as u8;
    let b1: u8 = ((word >> 16) & 0xff) as u8;
    let b2: u8 = ((word >> 8) & 0xff) as u8;
    let b3: u8 = (word & 0xff) as u8;
    assert(word >> 24 == word / 0x100_0000 && (word >> 16) & 0xff == word / 0x1_0000 % 0x100
        && (word >> 8) & 0xff == word / 0x100 % 0x100 && word & 0xff == word % 0x100)
        by (bit_vector);
    let bytes: [u8; 4] = [b0, b1, b2, b3];
    assert(bytes@ =~= be_bytes(word));
    bytes
}

/// Joins four bytes, most significant first, into a word.
pub fn from_be_bytes(bytes: [u8; 4]) -> (word: u32)
    ensures
        word == be_value(bytes@),
        be_bytes(word) == bytes@,
{
    let b0: u8 = bytes[0];
    let b1: u8 = bytes[1];
    let b2: u8 = bytes[2];
    let b3: u8 = bytes[3];
    let word: u32 = ((b0 as u32) << 24) | ((b1 as u32) << 16) | ((b2 as u32) << 8) | (b3 as u32);
    assert(word == b0 * 0x100_0000 + b1 * 0x1_0000 + b2 * 0x100 + b3 && word / 0x100_0000 == b0
        && word / 0x1_0000 % 0x100 == b1 && word / 0x100 % 0x100 == b2 && word % 0x100 == b3)
        by (bit_vector)
        requires
            word == ((b0 as u32) << 24) | ((b1 as u32) << 16) | ((b2 as u32) << 8) | (b3 as u32),
    ;
    assert(be_bytes(word) =~= bytes@);
    word
}

/// Splits a word into its bytes, least significant first.
pub fn to_le_bytes(word: u32) -> (bytes: [u8; 4])
    ensures
        bytes@ == le_bytes(word),
        le_value(bytes@) == word,
{
    let b0: u8 = (word & 0xff) as u8;
    let b1: u8 = ((word >> 8) & 0xff) as u8;
    let b2: u8 = ((word >> 16) & 0xff) as u8;
    let b3: u8 = (word >> 24) as u8;
    assert(word >> 24 == word / 0x100_0000 && (word >> 16) & 0xff == word / 0x1_0000 % 0x100
        && (word >> 8) & 0xff == word / 0x100 % 0x100 && word & 0xff == word % 0x100)
        by (bit_vector);
    let bytes: [u8; 4] = [b0, b1, b2, b3];
    assert(bytes@ =~= le_bytes(word));
    bytes
}

/// Joins four bytes, least significant first, into a word.
pub fn from_le_bytes(bytes: [u8; 4]) -> (word: u32)
    ensures
        word == le_value(bytes@),
        le_bytes(word) == bytes@,
{
    let b0: u8 = bytes[0];
    let b1: u8 = bytes[1];
    let b2: u8 = bytes[2];
    let b3: u8 = bytes[3];
    let word: u32 = ((b3 as u32) << 24) | ((b2 as u32) << 16) | ((b1 as u32) << 8) | (b0 as u32);
    assert(word == b3 * 0x100_0000 + b2 * 0x1_0000 + b1 * 0x100 + b0 && word / 0x100_0000 == b3
        && word / 0x1_0000 % 0x100 == b2 && word / 0x100 % 0x100 == b1 && word % 0x100 == b0)
        by (bit_vector)
        requires
            word == ((b3 as u32) << 24) | ((b2 as u32) << 16) | ((b1 as u32) << 8) | (b0 as u32),
    ;
    assert(le_bytes(word) =~= bytes@);
    word
}

} // verus!
