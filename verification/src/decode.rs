//! Decoding raw capture bytes into samples.
//!
//! The device hands the producer a run of raw bytes; every four consecutive
//! bytes encode one 32-bit sample, little-endian. A trailing partial sample
//! (one to three leftover bytes) is discarded. Samples are kept as their
//! 32-bit bit patterns; interpreting them as floating-point values is left to
//! the unverified surroundings.

use vstd::prelude::*;

verus! {

/// The sample encoded by four little-endian bytes.
pub open spec fn le_sample(b0: u8, b1: u8, b2: u8, b3: u8) -> u32 {
    (b0 as u32) | ((b1 as u32) << 8) | ((b2 as u32) << 16) | ((b3 as u32) << 24)
}

/// The samples encoded by a byte run: one per complete group of four bytes,
/// in order, with any trailing partial group dropped.
pub open spec fn decoded(bytes: Seq<u8>) -> Seq<u32> {
    Seq::new((bytes.len() / 4) as nat, |i: int| le_sample(
        bytes[4 * i],
        bytes[4 * i + 1],
        bytes[4 * i + 2],
        bytes[4 * i + 3],
    ))
}

/// Decodes a raw byte run into samples, four little-endian bytes per sample,
/// discarding a trailing partial sample.
pub fn decode_samples(bytes: &Vec<u8>) -> (out: Vec<u32>)
    ensures
        out@ == decoded(bytes@),
{
    let mut out: Vec<u32> = Vec::new();
    let n = bytes.len() / 4;
    assert(4 * n <= bytes@.len());
    for k in 0..n
        invariant
            n == bytes@.len() / 4,
            4 * n <= bytes@.len(),
            n <= usize::MAX / 4,
            out@ =~= decoded(bytes@).take(k as int),
    {
        assert(4 * k + 3 < bytes@.len());
        let b0 = bytes[4 * k];
        let b1 = bytes[4 * k + 1];
        let b2 = bytes[4 * k + 2];
        let b3 = bytes[4 * k + 3];
        let sample: u32 = (b0 as u32) | ((b1 as u32) << 8) | ((b2 as u32) << 16) | ((b3
            as u32) << 24);
        out.push(sample);
        assert(out@ =~= decoded(bytes@).take(k + 1));
    }
    assert(out@ =~= decoded(bytes@));
    out
}

} // verus!
