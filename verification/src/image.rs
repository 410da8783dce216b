//! Decoding a program image: a byte sequence of even length in which each
//! consecutive pair is one little-endian unsigned 16-bit word. There is no
//! header, magic number, or length field; the words are loaded verbatim
//! from memory address 0 on.

use vstd::prelude::*;

verus! {

/// The word encoded by a little-endian pair of bytes.
pub open spec fn word_of_bytes(lo: u8, hi: u8) -> u16 {
    (lo + hi * 256) as u16
}

/// The words of a whole image, pair by pair.
pub open spec fn image_words(bytes: Seq<u8>) -> Seq<u16>
    recommends
        bytes.len() % 2 == 0,
{
    Seq::new(bytes.len() / 2, |i: int| word_of_bytes(bytes[2 * i], bytes[2 * i + 1]))
}

/// Decode an image into the word sequence to load at address 0.
pub fn decode_image(bytes: &Vec<u8>) -> (words: Vec<u16>)
    requires
        bytes@.len() % 2 == 0,
    ensures
        words@ == image_words(bytes@),
{
    let mut words: Vec<u16> = Vec::new();
    let mut i: usize = 0;
    while i < bytes.len()
        invariant
            i <= bytes@.len(),
            i % 2 == 0,
            bytes@.len() % 2 == 0,
            words@.len() == i / 2,
            forall|j: int| 0 <= j < words@.len() ==> words@[j] == word_of_bytes(
                bytes@[2 * j],
                bytes@[2 * j + 1],
            ),
        decreases bytes@.len() - i,
    {
        let lo = bytes[i];
        let hi = bytes[i + 1];
        words.push(lo as u16 + (hi as u16) * 256);
        i += 2;
    }
    proof {
        assert(words@ =~= image_words(bytes@));
    }
    words
}

} // verus!
