//! The byte form in which an embedding is kept in the memory store.
//!
//! An embedding is a vector of 32-bit words, each the bit pattern of one
//! component. It is stored as four bytes per word, least significant first.

use vstd::prelude::*;

verus! {

/// Byte `k` of `word`, counted from the least significant.
pub open spec fn byte_of(word: u32, k: int) -> u8 {
    if k == 0 {
        (word % 256) as u8
    } else if k == 1 {
        (word / 256 % 256) as u8
    } else if k == 2 {
        (word / 65536 % 256) as u8
    } else {
        (word / 16777216 % 256) as u8
    }
}

/// The word whose four bytes are `b0` to `b3`, least significant first.
pub open spec fn word_of(b0: u8, b1: u8, b2: u8, b3: u8) -> u32 {
    (b0 + 256 * b1 + 65536 * b2 + 16777216 * b3) as u32
}

/// The stored form of `words`: four bytes for each, in order.
pub open spec fn encoded(words: Seq<u32>) -> Seq<u8> {
    Seq::new(4 * words.len(), |i: int| byte_of(words[i / 4], i % 4))
}

/// The words that `bytes` store, four bytes each.
pub open spec fn decoded(bytes: Seq<u8>) -> Seq<u32> {
    Seq::new(
        bytes.len() / 4,
        |i: int| word_of(bytes[4 * i], bytes[4 * i + 1], bytes[4 * i + 2], bytes[4 * i + 3]),
    )
}

/// Reading back what was stored gives the words that were stored.
pub proof fn lemma_decode_inverts_encode(words: Seq<u32>)
    ensures
        decoded(encoded(words)) == words,
{
    let bytes = encoded(words);
    assert(bytes.len() / 4 == words.len());
    assert forall|i: int| 0 <= i < words.len() implies decoded(bytes)[i] == words[i] by {
        let w = words[i];
        assert(bytes[4 * i] == byte_of(w, 0));
        assert(bytes[4 * i + 1] == byte_of(w, 1));
        assert(bytes[4 * i + 2] == byte_of(w, 2));
        assert(bytes[4 * i + 3] == byte_of(w, 3));
    }
    assert(decoded(bytes) =~= words);
}

proof fn lemma_bytes_of_word(b0: u8, b1: u8, b2: u8, b3: u8)
    ensures
        byte_of(word_of(b0, b1, b2, b3), 0) == b0,
        byte_of(word_of(b0, b1, b2, b3), 1) == b1,
        byte_of(word_of(b0, b1, b2, b3), 2) == b2,
        byte_of(word_of(b0, b1, b2, b3), 3) == b3,
{
    let w: int = b0 + 256 * b1 + 65536 * b2 + 16777216 * b3;
    assert(0 <= w <= u32::MAX);
    assert(w / 256 == b1 + 256 * b2 + 65536 * b3);
    assert(w / 65536 == b2 + 256 * b3);
    assert(w / 16777216 == b3 as int);
}

/// Every byte string of a length that is a multiple of four is the stored
/// form of the words read from it.
pub proof fn lemma_encode_inverts_decode(bytes: Seq<u8>)
    requires
        bytes.len() % 4 == 0,
    ensures
        encoded(decoded(bytes)) == bytes,
{
    let words = decoded(bytes);
    assert(4 * words.len() == bytes.len());
    assert forall|i: int| 0 <= i < bytes.len() implies encoded(words)[i] == bytes[i] by {
        let q = i / 4;
        lemma_bytes_of_word(bytes[4 * q], bytes[4 * q + 1], bytes[4 * q + 2], bytes[4 * q + 3]);
        assert(i == 4 * q + i % 4);
    }
    assert(encoded(words) =~= bytes);
}

/// Encodes an embedding for storage: each word as four bytes, least
/// significant first, the words in order.
pub fn encode_embedding(words: &Vec<u32>) -> (bytes: Vec<u8>)
    ensures
        bytes@ == encoded(words@),
{
    let mut bytes: Vec<u8> = Vec::new();
    let mut i: usize = 0;
    while i < words.len()
        invariant
            i <= words.len(),
            bytes@ == encoded(words@.take(i as int)),
        decreases words.len() - i,
    {
        let w: u32 = words[i];
        bytes.push((w % 256) as u8);
        bytes.push((w / 256 % 256) as u8);
        bytes.push((w / 65536 % 256) as u8);
        bytes.push((w / 16777216 % 256) as u8);
        assert(bytes@ =~= encoded(words@.take(i + 1)));
        i += 1;
    }
    assert(words@.take(i as int) =~= words@);
    bytes
}

/// Reads an embedding back from its stored form. A byte string whose
/// length is no multiple of four stores no embedding.
pub fn decode_embedding(bytes: &Vec<u8>) -> (words: Option<Vec<u32>>)
    ensures
        words is Some <==> bytes.len() % 4 == 0,
        words matches Some(w) ==> w@ == decoded(bytes@),
{
    if bytes.len() % 4 != 0 {
        return None;
    }
    let count: usize = bytes.len() / 4;
    let mut words: Vec<u32> = Vec::new();
    let mut i: usize = 0;
    while i < count
        invariant
            i <= count,
            count == bytes.len() / 4,
            words@ == decoded(bytes@).take(i as int),
        decreases count - i,
    {
        let b0: u32 = bytes[4 * i] as u32;
        let b1: u32 = bytes[4 * i + 1] as u32;
        let b2: u32 = bytes[4 * i + 2] as u32;
        let b3: u32 = bytes[4 * i + 3] as u32;
        words.push(b0 + 256 * b1 + 65536 * b2 + 16777216 * b3);
        assert(words@ =~= decoded(bytes@).take(i + 1));
        i += 1;
    }
    assert(decoded(bytes@).take(i as int) =~= decoded(bytes@));
    Some(words)
}

} // verus!
