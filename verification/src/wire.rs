//! Sixteen-bit words on the wire, in both byte orders, and byte buffers.

use vstd::prelude::*;

verus! {

/// The word whose high byte is `hi` and whose low byte is `lo`.
pub open spec fn word(hi: u8, lo: u8) -> int {
    hi as int * 256 + lo as int
}

/// The high byte of `w`.
pub open spec fn high_byte(w: u16) -> u8 {
    (w / 256) as u8
}

/// The low byte of `w`.
pub open spec fn low_byte(w: u16) -> u8 {
    (w % 256) as u8
}

/// `w` as two bytes, most significant first.
pub open spec fn be_bytes(w: u16) -> Seq<u8> {
    seq![high_byte(w), low_byte(w)]
}

/// `w` as two bytes, least significant first.
pub open spec fn le_bytes(w: u16) -> Seq<u8> {
    seq![low_byte(w), high_byte(w)]
}

/// Splitting a word into its bytes and joining them again gives the word back.
pub proof fn lemma_word_of_bytes(w: u16)
    ensures
        word(high_byte(w), low_byte(w)) == w,
{
}

/// The bytes of a joined word are the bytes that were joined.
pub proof fn lemma_bytes_of_word(hi: u8, lo: u8)
    ensures
        0 <= word(hi, lo) <= u16::MAX,
        high_byte(word(hi, lo) as u16) == hi,
        low_byte(word(hi, lo) as u16) == lo,
{
}

/// Joins a high and a low byte into a word.
pub fn join_word(hi: u8, lo: u8) -> (w: u16)
    ensures
        w == word(hi, lo),
{
    let h: u16 = hi as u16;
    let l: u16 = lo as u16;
    h * 256 + l
}

/// The two bytes of `w`, high byte first.
pub fn split_word(w: u16) -> (bytes: (u8, u8))
    ensures
        bytes.0 == high_byte(w),
        bytes.1 == low_byte(w),
{
    ((w / 256) as u8, (w % 256) as u8)
}

/// Appends `src` to `dst`.
pub fn append_bytes(dst: &mut Vec<u8>, src: &[u8])
    ensures
        final(dst)@ == old(dst)@ + src@,
{
    let mut i: usize = 0;
    while i < src.len()
        invariant
            i <= src@.len(),
            dst@ == old(dst)@ + src@.subrange(0, i as int),
        decreases src@.len() - i,
    {
        dst.push(src[i]);
        i = i + 1;
    }
    assert(src@.subrange(0, i as int) == src@);
}

} // verus!
