//! The 16-byte bcrypt salt, held as four big-endian 32-bit words.

use vstd::prelude::*;

use crate::model::be_word;
use crate::model::lemma_byte_bounds;
use crate::SALT_SIZE;

verus! {

/// A bcrypt salt: any 16 bytes, held as four big-endian words.
#[derive(Clone, Debug)]
pub struct Salt {
    pub(crate) be: [u32; 4],
}

impl View for Salt {
    type V = Seq<u32>;

    closed spec fn view(&self) -> Seq<u32> {
        self.be@
    }
}

/// The four big-endian words of a 16-byte sequence.
pub open spec fn salt_words(b: Seq<u8>) -> Seq<u32> {
    seq![
        be_word(b[0], b[1], b[2], b[3]),
        be_word(b[4], b[5], b[6], b[7]),
        be_word(b[8], b[9], b[10], b[11]),
        be_word(b[12], b[13], b[14], b[15]),
    ]
}

/// Four 32-bit words serialised as 16 big-endian bytes.
pub open spec fn salt_bytes(w: Seq<u32>) -> Seq<u8> {
    seq![
        ((w[0] >> 24) & 0xff) as u8,
        ((w[0] >> 16) & 0xff) as u8,
        ((w[0] >> 8) & 0xff) as u8,
        (w[0] & 0xff) as u8,
        ((w[1] >> 24) & 0xff) as u8,
        ((w[1] >> 16) & 0xff) as u8,
        ((w[1] >> 8) & 0xff) as u8,
        (w[1] & 0xff) as u8,
        ((w[2] >> 24) & 0xff) as u8,
        ((w[2] >> 16) & 0xff) as u8,
        ((w[2] >> 8) & 0xff) as u8,
        (w[2] & 0xff) as u8,
        ((w[3] >> 24) & 0xff) as u8,
        ((w[3] >> 16) & 0xff) as u8,
        ((w[3] >> 8) & 0xff) as u8,
        (w[3] & 0xff) as u8,
    ]
}

impl Salt {
    /// Creates a bcrypt salt from any 16 bytes.
    pub fn from_bytes(bytes: &[u8; SALT_SIZE]) -> (s: Salt)
        ensures
            s@ == salt_words(bytes@),
    {
        let w0 = ((bytes[0] as u32) << 24) | ((bytes[1] as u32) << 16) | ((bytes[2] as u32) << 8)
            | (bytes[3] as u32);
        let w1 = ((bytes[4] as u32) << 24) | ((bytes[5] as u32) << 16) | ((bytes[6] as u32) << 8)
            | (bytes[7] as u32);
        let w2 = ((bytes[8] as u32) << 24) | ((bytes[9] as u32) << 16) | ((bytes[10] as u32) << 8)
            | (bytes[11] as u32);
        let w3 = ((bytes[12] as u32) << 24) | ((bytes[13] as u32) << 16) | ((bytes[14] as u32)
            << 8) | (bytes[15] as u32);
        Salt { be: [w0, w1, w2, w3] }
    }

    /// The four big-endian salt words, as the hashing driver consumes them.
    pub(crate) fn words(&self) -> (w: &[u32; 4])
        ensures
            w@ == self@,
    {
        &self.be
    }

    /// Gets the bytes making up a bcrypt salt.
    pub fn to_bytes(&self) -> (b: [u8; SALT_SIZE])
        ensures
            b@ == salt_bytes(self@),
    {
        proof {
            lemma_byte_bounds(self@[0]);
            lemma_byte_bounds(self@[1]);
            lemma_byte_bounds(self@[2]);
            lemma_byte_bounds(self@[3]);
        }
        [
            ((self.be[0] >> 24) & 0xff) as u8,
            ((self.be[0] >> 16) & 0xff) as u8,
            ((self.be[0] >> 8) & 0xff) as u8,
            (self.be[0] & 0xff) as u8,
            ((self.be[1] >> 24) & 0xff) as u8,
            ((self.be[1] >> 16) & 0xff) as u8,
            ((self.be[1] >> 8) & 0xff) as u8,
            (self.be[1] & 0xff) as u8,
            ((self.be[2] >> 24) & 0xff) as u8,
            ((self.be[2] >> 16) & 0xff) as u8,
            ((self.be[2] >> 8) & 0xff) as u8,
            (self.be[2] & 0xff) as u8,
            ((self.be[3] >> 24) & 0xff) as u8,
            ((self.be[3] >> 16) & 0xff) as u8,
            ((self.be[3] >> 8) & 0xff) as u8,
            (self.be[3] & 0xff) as u8,
        ]
    }
}

/// Unpacking a big-endian word recovers the four bytes it was packed from.
proof fn lemma_be_word_unpack(b0: u8, b1: u8, b2: u8, b3: u8)
    by (bit_vector)
    ensures
        ((be_word(b0, b1, b2, b3) >> 24) & 0xff) as u8 == b0,
        ((be_word(b0, b1, b2, b3) >> 16) & 0xff) as u8 == b1,
        ((be_word(b0, b1, b2, b3) >> 8) & 0xff) as u8 == b2,
        (be_word(b0, b1, b2, b3) & 0xff) as u8 == b3,
{
}

/// Salt round-trip: converting any 16 bytes to a salt and back yields the
/// same bytes, so salt construction is injective and loses nothing.
pub proof fn lemma_salt_round_trip(b: Seq<u8>)
    requires
        b.len() == 16,
    ensures
        salt_bytes(salt_words(b)) == b,
{
    lemma_be_word_unpack(b[0], b[1], b[2], b[3]);
    lemma_be_word_unpack(b[4], b[5], b[6], b[7]);
    lemma_be_word_unpack(b[8], b[9], b[10], b[11]);
    lemma_be_word_unpack(b[12], b[13], b[14], b[15]);
    assert(salt_bytes(salt_words(b)) =~= b);
}

/// Packing the four big-endian bytes of a word recovers the word.
proof fn lemma_be_word_pack(w: u32)
    by (bit_vector)
    ensures
        be_word(
            ((w >> 24) & 0xff) as u8,
            ((w >> 16) & 0xff) as u8,
            ((w >> 8) & 0xff) as u8,
            (w & 0xff) as u8,
        ) == w,
{
}

/// The inverse round-trip: serialising any four salt words to bytes and
/// reading them back yields the same words, so the two conversions are a
/// bijection between 16-byte arrays and four-word salts.
pub proof fn lemma_salt_words_round_trip(w: Seq<u32>)
    requires
        w.len() == 4,
    ensures
        salt_words(salt_bytes(w)) == w,
{
    lemma_be_word_pack(w[0]);
    lemma_be_word_pack(w[1]);
    lemma_be_word_pack(w[2]);
    lemma_be_word_pack(w[3]);
    assert(salt_words(salt_bytes(w)) =~= w);
}

} // verus!
