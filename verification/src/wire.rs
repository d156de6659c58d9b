//! Little-endian 32-bit integers, as the device puts them on the wire.

use vstd::prelude::*;

verus! {

/// The four bytes of `val`, least significant first.
pub open spec fn le_bytes(val: u32) -> Seq<u8> {
    seq![
        (val % 0x100) as u8,
        ((val / 0x100) % 0x100) as u8,
        ((val / 0x1_0000) % 0x100) as u8,
        (val / 0x100_0000) as u8,
    ]
}

/// The number that the first four bytes of `s` spell, least significant first.
pub open spec fn le_value(s: Seq<u8>) -> int {
    s[0] + 0x100 * s[1] + 0x1_0000 * s[2] + 0x100_0000 * s[3]
}

/// The unsigned word that stands for `val` in two's complement.
pub open spec fn twos_complement(val: i32) -> u32 {
    if val >= 0 {
        val as u32
    } else {
        (val + 0x1_0000_0000) as u32
    }
}

/// The signed number that the unsigned word `word` stands for in two's
/// complement.
pub open spec fn signed_value(word: int) -> int {
    if word < 0x8000_0000 {
        word
    } else {
        word - 0x1_0000_0000
    }
}

/// The bytes of `words`, each word least significant byte first.
pub open spec fn le_words(words: Seq<u32>) -> Seq<u8>
    decreases words.len(),
{
    if words.len() == 0 {
        Seq::empty()
    } else {
        le_words(words.drop_last()) + le_bytes(words.last())
    }
}

/// `count` zero bytes.
pub open spec fn zeros(count: nat) -> Seq<u8> {
    Seq::new(count, |i: int| 0u8)
}

/// Reading gives back what writing stored: the four bytes of a word spell
/// that word.
pub proof fn lemma_le_round_trip(val: u32)
    ensures
        le_bytes(val).len() == 4,
        le_value(le_bytes(val)) == val,
{
}

/// Two's complement loses nothing: the word that stands for a signed number
/// stands for that number only.
pub proof fn lemma_signed_round_trip(val: i32)
    ensures
        signed_value(twos_complement(val) as int) == val,
{
}

/// Each word of `words` takes four bytes of `le_words(words)`, at four
/// times its index.
pub proof fn lemma_le_words_at(words: Seq<u32>, index: int)
    requires
        0 <= index < words.len(),
    ensures
        le_words(words).len() == 4 * words.len(),
        le_words(words).subrange(4 * index, 4 * index + 4) == le_bytes(words[index]),
    decreases words.len(),
{
    lemma_le_words_len(words);
    lemma_le_words_len(words.drop_last());
    if index < words.len() - 1 {
        lemma_le_words_at(words.drop_last(), index);
    }
}

/// `le_words` makes four bytes of each word.
pub proof fn lemma_le_words_len(words: Seq<u32>)
    ensures
        le_words(words).len() == 4 * words.len(),
    decreases words.len(),
{
    if words.len() > 0 {
        lemma_le_words_len(words.drop_last());
    }
}

/// The word that stands for `val` in two's complement.
pub fn word_of(val: i32) -> (word: u32)
    ensures
        word == twos_complement(val),
{
    if val >= 0 {
        val as u32
    } else {
        (val as i64 + 0x1_0000_0000) as u32
    }
}

/// The signed number that `word` stands for in two's complement.
pub fn signed_of(word: u32) -> (val: i32)
    ensures
        val == signed_value(word as int),
{
    if word < 0x8000_0000 {
        word as i32
    } else {
        (word as i64 - 0x1_0000_0000) as i32
    }
}

/// Reads an unsigned 32-bit integer from the first four bytes of `input`.
pub fn read_le_u32(input: &[u8]) -> (val: u32)
    requires
        input@.len() >= 4,
    ensures
        val == le_value(input@),
{
    let b0: u32 = input[0] as u32;
    let b1: u32 = input[1] as u32;
    let b2: u32 = input[2] as u32;
    let b3: u32 = input[3] as u32;
    b0 + 0x100 * b1 + 0x1_0000 * b2 + 0x100_0000 * b3
}

/// Reads a signed 32-bit integer from the first four bytes of `input`.
pub fn read_le_i32(input: &[u8]) -> (val: i32)
    requires
        input@.len() >= 4,
    ensures
        val == signed_value(le_value(input@)),
{
    signed_of(read_le_u32(input))
}

/// Writes `val` into the first four bytes of `dest` and leaves the rest
/// alone.
pub fn write_le_u32(dest: &mut [u8], val: u32)
    requires
        old(dest)@.len() >= 4,
    ensures
        final(dest)@.len() == old(dest)@.len(),
        final(dest)@.subrange(0, 4) == le_bytes(val),
        final(dest)@.skip(4) == old(dest)@.skip(4),
{
    dest[0] = (val % 0x100) as u8;
    dest[1] = ((val / 0x100) % 0x100) as u8;
    dest[2] = ((val / 0x1_0000) % 0x100) as u8;
    dest[3] = (val / 0x100_0000) as u8;
}

/// Writes `val` in two's complement into the first four bytes of `dest` and
/// leaves the rest alone.
pub fn write_le_i32(dest: &mut [u8], val: i32)
    requires
        old(dest)@.len() >= 4,
    ensures
        final(dest)@.len() == old(dest)@.len(),
        final(dest)@.subrange(0, 4) == le_bytes(twos_complement(val)),
        final(dest)@.skip(4) == old(dest)@.skip(4),
{
    write_le_u32(dest, word_of(val));
}

/// Appends the four bytes of `val` to `out`.
pub fn push_le_u32(out: &mut Vec<u8>, val: u32)
    ensures
        final(out)@ == old(out)@ + le_bytes(val),
{
    let mut word = [0u8; 4];
    write_le_u32(&mut word, val);
    out.push(word[0]);
    out.push(word[1]);
    out.push(word[2]);
    out.push(word[3]);
}

} // verus!
