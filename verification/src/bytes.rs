//! Words and the two bytes each becomes on the wire.
//!
//! Modbus is big-endian throughout: the first byte of a word is its most
//! significant one.

use vstd::prelude::*;

verus! {

/// The most significant byte of a word, which the wire carries first.
pub open spec fn high_byte(word: u16) -> u8 {
    (word / 256) as u8
}

/// The least significant byte of a word, which the wire carries second.
pub open spec fn low_byte(word: u16) -> u8 {
    (word % 256) as u8
}

/// The word that two bytes in wire order spell.
pub open spec fn word_of(high: u8, low: u8) -> u16 {
    (high * 256 + low) as u16
}

/// A byte sequence read as consecutive words. A byte left over at the end
/// belongs to no word.
pub open spec fn words_of(bytes: Seq<u8>) -> Seq<u16> {
    Seq::new(bytes.len() / 2, |i: int| word_of(bytes[2 * i], bytes[2 * i + 1]))
}

/// A word sequence as the bytes that carry it.
pub open spec fn bytes_of(words: Seq<u16>) -> Seq<u8> {
    Seq::new(
        2 * words.len(),
        |i: int|
            if i % 2 == 0 {
                high_byte(words[i / 2])
            } else {
                low_byte(words[i / 2])
            },
    )
}

/// The two bytes of a word, in wire order.
pub(crate) fn split(word: u16) -> (pair: (u8, u8))
    ensures
        pair.0 == high_byte(word),
        pair.1 == low_byte(word),
        pair.0 * 256 + pair.1 == word,
{
    ((word / 256) as u8, (word % 256) as u8)
}

/// The word that two bytes in wire order spell.
pub(crate) fn join(high: u8, low: u8) -> (word: u16)
    ensures
        word == word_of(high, low),
        word == high * 256 + low,
{
    high as u16 * 256 + low as u16
}

/// Splitting a word and joining its bytes gives the word back.
pub proof fn join_undoes_split(word: u16)
    ensures
        word_of(high_byte(word), low_byte(word)) == word,
{
}

/// Joining two bytes and splitting the word gives the bytes back.
pub proof fn split_undoes_join(high: u8, low: u8)
    ensures
        high_byte(word_of(high, low)) == high,
        low_byte(word_of(high, low)) == low,
{
}

/// Words survive the trip through bytes.
pub proof fn words_survive_bytes(words: Seq<u16>)
    ensures
        words_of(bytes_of(words)) == words,
{
    let bytes = bytes_of(words);
    assert forall|i: int| 0 <= i < words.len() implies words_of(bytes)[i] == words[i] by {
        assert(bytes[2 * i] == high_byte(words[i]));
        assert(bytes[2 * i + 1] == low_byte(words[i]));
    }
    assert(words_of(bytes) =~= words);
}

/// An even number of bytes survives the trip through words.
pub proof fn even_bytes_survive_words(bytes: Seq<u8>)
    requires
        bytes.len() % 2 == 0,
    ensures
        bytes_of(words_of(bytes)) == bytes,
{
    let words = words_of(bytes);
    assert forall|i: int| 0 <= i < bytes.len() implies bytes_of(words)[i] == bytes[i] by {
        assert(words[i / 2] == word_of(bytes[2 * (i / 2)], bytes[2 * (i / 2) + 1]));
        split_undoes_join(bytes[2 * (i / 2)], bytes[2 * (i / 2) + 1]);
    }
    assert(bytes_of(words) =~= bytes);
}

} // verus!
