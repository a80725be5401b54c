//! The checksum that closes every frame on the serial bus.
//!
//! The sixteen-bit value itself comes from the `crc16` crate. Everything
//! around it is decided here: where the checksum stands in a frame, in which
//! byte order, and when a received frame counts as intact.

use vstd::prelude::*;
use crate::wire::{
    append_bytes, join_word, le_bytes, lemma_bytes_of_word, lemma_word_of_bytes, split_word, word,
};

verus! {

/// Number of bytes that the checksum takes at the end of a frame.
pub const CHECKSUM_LEN: usize = 2;

/// The CRC-16/MODBUS value of `data`: what `crc16::State::<crc16::MODBUS>::calculate`
/// returns for these bytes.
pub uninterp spec fn modbus_crc16(data: Seq<u8>) -> u16;

/// `payload` followed by its checksum, low byte first: a frame as it travels
/// on the serial bus.
pub open spec fn sealed(payload: Seq<u8>) -> Seq<u8> {
    payload + le_bytes(modbus_crc16(payload))
}

/// The bytes of `frame` that its checksum covers: all but the last two.
pub open spec fn covered(frame: Seq<u8>) -> Seq<u8>
    recommends
        frame.len() >= CHECKSUM_LEN,
{
    frame.subrange(0, frame.len() - CHECKSUM_LEN)
}

/// The checksum that `frame` carries in its last two bytes.
pub open spec fn carried(frame: Seq<u8>) -> int
    recommends
        frame.len() >= CHECKSUM_LEN,
{
    word(frame[frame.len() - 1], frame[frame.len() - 2])
}

/// Whether `frame` ends in the checksum of the bytes before it.
pub open spec fn intact(frame: Seq<u8>) -> bool {
    frame.len() >= CHECKSUM_LEN && carried(frame) == modbus_crc16(covered(frame))
}

/// Trusted, not proved: calls `crc16::State::<crc16::MODBUS>::calculate` on
/// `data` and gives its result the name `modbus_crc16(data@)`. The call
/// depends on the bytes alone and cannot fail; nothing else is claimed of it.
#[verifier::external_body]
fn crc16_modbus(data: &[u8]) -> (crc: u16)
    ensures
        crc == modbus_crc16(data@),
{
    crc16::State::<crc16::MODBUS>::calculate(data)
}

/// The checksum of `data`: its CRC-16/MODBUS value, as the `crc16` crate
/// computes it.
pub fn compute_checksum(data: &[u8]) -> (crc: u16)
    ensures
        crc == modbus_crc16(data@),
{
    crc16_modbus(data)
}

/// `payload` followed by the two bytes of `crc`, low byte first.
pub fn append_checksum(payload: &[u8], crc: u16) -> (frame: Vec<u8>)
    ensures
        frame@ == payload@ + le_bytes(crc),
{
    let mut frame: Vec<u8> = Vec::new();
    append_bytes(&mut frame, payload);
    let (hi, lo) = split_word(crc);
    frame.push(lo);
    frame.push(hi);
    frame
}

/// Frames `payload` for the serial bus: the result is the payload followed
/// by its checksum, and it is intact.
pub fn seal(payload: &[u8]) -> (frame: Vec<u8>)
    ensures
        frame@ == sealed(payload@),
        frame@.len() == payload@.len() + CHECKSUM_LEN,
        intact(frame@),
{
    let crc = compute_checksum(payload);
    proof {
        lemma_sealed_is_intact(payload@);
    }
    append_checksum(payload, crc)
}

/// Whether the last two bytes of `frame` hold `crc`, low byte first.
pub fn carries(frame: &[u8], crc: u16) -> (same: bool)
    ensures
        same == (frame@.len() >= CHECKSUM_LEN && carried(frame@) == crc),
{
    let n = frame.len();
    if n < CHECKSUM_LEN {
        return false;
    }
    join_word(frame[n - 1], frame[n - 2]) == crc
}

/// Whether `frame` is intact: at least two bytes long, the last two being the
/// checksum of the rest.
pub fn verify(frame: &[u8]) -> (ok: bool)
    ensures
        ok == intact(frame@),
{
    let n = frame.len();
    if n < CHECKSUM_LEN {
        return false;
    }
    let crc = compute_checksum(vstd::slice::slice_subrange(frame, 0, n - CHECKSUM_LEN));
    carries(frame, crc)
}

/// A sealed frame is intact and covers exactly the payload it was sealed from.
pub proof fn lemma_sealed_is_intact(payload: Seq<u8>)
    ensures
        intact(sealed(payload)),
        covered(sealed(payload)) == payload,
        sealed(payload).len() == payload.len() + CHECKSUM_LEN,
{
    let crc = modbus_crc16(payload);
    let frame = sealed(payload);
    assert(covered(frame) =~= payload);
    lemma_word_of_bytes(crc);
}

/// An intact frame is the sealed form of the bytes its checksum covers.
pub proof fn lemma_intact_is_sealed(frame: Seq<u8>)
    requires
        intact(frame),
    ensures
        frame == sealed(covered(frame)),
{
    let n = frame.len();
    lemma_bytes_of_word(frame[n - 1], frame[n - 2]);
    assert(frame =~= sealed(covered(frame)));
}

} // verus!
