//! The word stream that the guest reads and writes: 32-bit words, each
//! stored as four bytes with the least significant byte first, and 64-bit
//! values as two words with the low word first.

use vstd::prelude::*;

verus! {

/// `risc0_zkvm::serde::Error`, the error of the zkVM's word serializer and
/// deserializer. A value of it is passed on and never looked into.
#[verifier::external_type_specification]
#[verifier::external_body]
pub struct ExWordError(risc0_zkvm::serde::Error);

/// The word that four bytes stand for, least significant byte first.
pub open spec fn word_of_bytes(b0: u8, b1: u8, b2: u8, b3: u8) -> u32 {
    (b0 as int + 0x100 * (b1 as int) + 0x1_0000 * (b2 as int) + 0x100_0000 * (b3 as int)) as u32
}

/// The words that a byte string stands for. The byte string must hold
/// whole words.
pub open spec fn words_of_bytes(bytes: Seq<u8>) -> Seq<u32>
    recommends
        bytes.len() % 4 == 0,
{
    Seq::new(
        (bytes.len() / 4) as nat,
        |i: int| word_of_bytes(bytes[4 * i], bytes[4 * i + 1], bytes[4 * i + 2], bytes[4 * i + 3]),
    )
}

/// One byte of a word: byte 0 is the least significant.
pub open spec fn byte_of_word(word: u32, k: int) -> u8 {
    if k == 0 {
        (word as int % 0x100) as u8
    } else if k == 1 {
        (word as int / 0x100 % 0x100) as u8
    } else if k == 2 {
        (word as int / 0x1_0000 % 0x100) as u8
    } else {
        (word as int / 0x100_0000 % 0x100) as u8
    }
}

/// The bytes in which a sequence of words is stored.
pub open spec fn bytes_of_words(words: Seq<u32>) -> Seq<u8> {
    Seq::new(4 * words.len(), |i: int| byte_of_word(words[i / 4], i % 4))
}

/// The low word of a value: its 32 least significant bits.
pub open spec fn low_word(v: int) -> u32 {
    (v % 0x1_0000_0000) as u32
}

/// The high word of a value: the 32 bits above its low word.
pub open spec fn high_word(v: int) -> u32 {
    ((v / 0x1_0000_0000) % 0x1_0000_0000) as u32
}

/// The words of a sequence of 64-bit values: for each value its low word,
/// then its high word.
pub open spec fn dword_words(values: Seq<u64>) -> Seq<u32> {
    Seq::new(
        2 * values.len(),
        |i: int|
            if i % 2 == 0 {
                low_word(values[i / 2] as int)
            } else {
                high_word(values[i / 2] as int)
            },
    )
}

/// Reads a byte string as words. A byte string that does not hold whole
/// words gives `None`.
pub fn words_from_bytes(bytes: &[u8]) -> (r: Option<Vec<u32>>)
    ensures
        r is Some <==> bytes@.len() % 4 == 0,
        r is Some ==> r->Some_0@ == words_of_bytes(bytes@),
{
    let n: usize = bytes.len();
    if n % 4 != 0 {
        return None;
    }
    let count: usize = n / 4;
    let mut words: Vec<u32> = Vec::new();
    let mut i: usize = 0;
    while i < count
        invariant
            n == bytes@.len(),
            n % 4 == 0,
            count == n / 4,
            i <= count,
            words@.len() == i,
            forall|k: int| 0 <= k < i ==> #[trigger] words@[k] == words_of_bytes(bytes@)[k],
        decreases count - i,
    {
        let b0: u32 = bytes[4 * i] as u32;
        let b1: u32 = bytes[4 * i + 1] as u32;
        let b2: u32 = bytes[4 * i + 2] as u32;
        let b3: u32 = bytes[4 * i + 3] as u32;
        let word: u32 = b0 + 0x100 * b1 + 0x1_0000 * b2 + 0x100_0000 * b3;
        words.push(word);
        i = i + 1;
    }
    assert(words@ =~= words_of_bytes(bytes@));
    Some(words)
}

/// Words that are stored as bytes are read back as they were.
pub proof fn lemma_words_round_trip(words: Seq<u32>)
    ensures
        bytes_of_words(words).len() == 4 * words.len(),
        words_of_bytes(bytes_of_words(words)) == words,
{
    let back = words_of_bytes(bytes_of_words(words));
    assert(back =~= words);
}

} // verus!
