//! Direction codes and their byte representation.
//!
//! The kernel writes one record of [`RECORD_WIDTH`] unsigned 32-bit codes
//! per sample. On the host the codes cross the device boundary as raw
//! bytes in the byte order of the machine, so every statement here is made
//! for both byte orders: `little` selects the one that is meant.
use vstd::prelude::*;

verus! {

/// Number of codes in the record of one sample.
pub const RECORD_WIDTH: u64 = 4;

/// Size in bytes of one code, and of one sample.
pub const WORD_BYTES: u64 = 4;

/// The reserved code of a slot whose value overflowed or is undefined.
pub const OVERFLOW: u32 = 0xFFFF_FFFF;

/// The 32-bit word that four consecutive bytes hold.
pub open spec fn word_of(little: bool, b0: u8, b1: u8, b2: u8, b3: u8) -> u32 {
    if little {
        (b0 + 0x100 * b1 + 0x1_0000 * b2 + 0x100_0000 * b3) as u32
    } else {
        (b3 + 0x100 * b2 + 0x1_0000 * b1 + 0x100_0000 * b0) as u32
    }
}

/// The words held by a byte string; trailing bytes that do not fill a word
/// are left out.
pub open spec fn words_of(little: bool, bytes: Seq<u8>) -> Seq<u32> {
    Seq::new(
        bytes.len() / 4,
        |i: int| word_of(little, bytes[4 * i], bytes[4 * i + 1], bytes[4 * i + 2], bytes[4 * i + 3]),
    )
}

/// Byte `k` (0 to 3, in memory order) of a word.
pub open spec fn byte_of(little: bool, word: u32, k: int) -> u8 {
    let place = if little { k } else { 3 - k };
    if place == 0 {
        (word % 0x100) as u8
    } else if place == 1 {
        (word / 0x100 % 0x100) as u8
    } else if place == 2 {
        (word / 0x1_0000 % 0x100) as u8
    } else {
        (word / 0x100_0000 % 0x100) as u8
    }
}

/// The bytes that hold a sequence of words.
pub open spec fn bytes_of(little: bool, words: Seq<u32>) -> Seq<u8> {
    Seq::new(4 * words.len(), |k: int| byte_of(little, words[k / 4], k % 4))
}

/// `words` is what `bytes` holds in one of the two byte orders.
pub open spec fn decodes_to(bytes: Seq<u8>, words: Seq<u32>) -> bool {
    words == words_of(true, bytes) || words == words_of(false, bytes)
}

/// `bytes` is what holds `words` in one of the two byte orders.
pub open spec fn encodes_to(words: Seq<u32>, bytes: Seq<u8>) -> bool {
    bytes == bytes_of(true, words) || bytes == bytes_of(false, words)
}

/// Calls `bytemuck::cast_slice` from `u32` to `u8` and copies the bytes out.
///
/// The cast reinterprets the memory of the slice, which holds each word in
/// the byte order of the machine; a cast to bytes never fails, since bytes
/// have no alignment and any length is a whole number of them.
#[verifier::external_body]
pub(crate) fn cast_words_to_bytes(words: &[u32]) -> (bytes: Vec<u8>)
    ensures
        encodes_to(words@, bytes@),
{
    bytemuck::cast_slice::<u32, u8>(words).to_vec()
}

/// Calls `bytemuck::pod_collect_to_vec` from `u8` to `u32`.
///
/// The call copies the bytes into a fresh vector of words, whatever their
/// alignment; the vector has as many words as are needed to hold all bytes,
/// and where the bytes fill whole words, each word is the one its four bytes
/// hold in the byte order of the machine.
#[verifier::external_body]
pub(crate) fn collect_bytes_to_words(bytes: &[u8]) -> (words: Vec<u32>)
    ensures
        words@.len() == (bytes@.len() + 3) / 4,
        bytes@.len() % 4 == 0 ==> decodes_to(bytes@, words@),
{
    bytemuck::pod_collect_to_vec::<u8, u32>(bytes)
}

/// Whether a code is the reserved overflow marker.
pub fn is_overflow(code: u32) -> (marked: bool)
    ensures
        marked == (code == OVERFLOW),
{
    code == OVERFLOW
}

/// Decodes the bytes of a mapped buffer into codes.
///
/// The bytes are accepted only if they are exactly `expected` codes long;
/// anything else yields `None` and no code at all.
pub fn decode_records(bytes: &[u8], expected: u64) -> (decoded: Option<Vec<u32>>)
    ensures
        decoded is Some <==> bytes@.len() == 4 * expected,
        decoded matches Some(codes) ==> codes@.len() == expected && decodes_to(bytes@, codes@),
{
    let length: u64 = bytes.len() as u64;
    if length % 4 == 0 && length / 4 == expected {
        Some(collect_bytes_to_words(bytes))
    } else {
        None
    }
}

/// A decoded code is the overflow marker exactly when each of its four
/// bytes is `0xFF`, and zero exactly when each is zero, in either byte
/// order: the marker reaches the caller as it was written, it cannot be
/// mistaken for any other value, and no other value can be mistaken for it.
pub proof fn lemma_marker_is_exact(little: bool, bytes: Seq<u8>, slot: int)
    requires
        0 <= slot < bytes.len() / 4,
    ensures
        words_of(little, bytes)[slot] == OVERFLOW <==> bytes[4 * slot] == 0xFF && bytes[4 * slot
            + 1] == 0xFF && bytes[4 * slot + 2] == 0xFF && bytes[4 * slot + 3] == 0xFF,
        words_of(little, bytes)[slot] == 0 <==> bytes[4 * slot] == 0 && bytes[4 * slot + 1] == 0
            && bytes[4 * slot + 2] == 0 && bytes[4 * slot + 3] == 0,
{
}

/// The four bytes of a word hold that word.
proof fn lemma_word_of_its_bytes(little: bool, word: u32)
    ensures
        word_of(
            little,
            byte_of(little, word, 0),
            byte_of(little, word, 1),
            byte_of(little, word, 2),
            byte_of(little, word, 3),
        ) == word,
{
    let low = word % 0x100;
    let mid = word / 0x100 % 0x100;
    let high = word / 0x1_0000 % 0x100;
    let top = word / 0x100_0000 % 0x100;
    assert(low + 0x100 * mid + 0x1_0000 * high + 0x100_0000 * top == word) by (bit_vector)
        requires
            low == word % 0x100,
            mid == word / 0x100 % 0x100,
            high == word / 0x1_0000 % 0x100,
            top == word / 0x100_0000 % 0x100,
    ;
}

/// Bytes that were made from words hold those words: what the host writes
/// into a buffer is what a reader with the same byte order finds there.
pub proof fn lemma_bytes_hold_words(little: bool, words: Seq<u32>)
    ensures
        words_of(little, bytes_of(little, words)) == words,
{
    let bytes = bytes_of(little, words);
    assert forall|slot: int| 0 <= slot < words.len() implies words_of(little, bytes)[slot]
        == words[slot] by {
        lemma_word_of_its_bytes(little, words[slot]);
    }
    assert(words_of(little, bytes) =~= words);
}

} // verus!
