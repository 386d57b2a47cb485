use vstd::prelude::*;

use crate::geometry::mag_ok;
use crate::rational::Rat;

verus! {

/// Failure of the external spectrum producer. Both variants are fatal:
/// the visualization has no degraded or paused mode.
#[derive(Clone, Copy, Debug, PartialEq, Eq, Structural)]
pub enum ProducerError {
    /// The stream ended before one full frame of samples was available.
    StreamClosed,
    /// A lower-level I/O failure on the stream.
    StreamError,
}

/// The little-endian 16-bit value stored at bytes `b0` (low) and `b1` (high).
pub open spec fn le16(b0: u8, b1: u8) -> int {
    b0 + 256 * b1
}

/// The samples decoded from the first `2 * bar_count` bytes of `bytes`.
pub open spec fn spec_decode(bytes: Seq<u8>, bar_count: int) -> Seq<u16> {
    Seq::new(bar_count as nat, |i: int| le16(bytes[2 * i], bytes[2 * i + 1]) as u16)
}

/// The normalized magnitude of a raw 16-bit sample: `s / 65535`,
/// 65535 being the largest representable sample, not a sentinel.
pub open spec fn normal_of(s: int) -> Rat {
    Rat { num: s as i64, den: 65535i64 }
}

/// The normalized magnitudes of a whole frame of raw samples.
pub open spec fn spec_normalize(samples: Seq<u16>) -> Seq<Rat> {
    Seq::new(samples.len(), |i: int| normal_of(samples[i] as int))
}

/// Law: normalization maps every valid raw sample into the unit
/// interval, sending 0 to exactly 0 and 65535 to exactly 1.
pub proof fn lemma_normal_in_unit_interval(s: int)
    requires
        0 <= s <= 65535,
    ensures
        normal_of(s).in_unit_interval(),
        mag_ok(normal_of(s)),
        s == 0 ==> normal_of(s).same_value((Rat { num: 0i64, den: 1i64 })),
        s == 65535 ==> normal_of(s).same_value((Rat { num: 1i64, den: 1i64 })),
{
    if s == 0 {
        assert(normal_of(s).num * 1 == 0 * normal_of(s).den) by (nonlinear_arith)
            requires
                normal_of(s).num == 0,
        ;
    }
    if s == 65535 {
        assert(normal_of(s).num * 1 == 1 * normal_of(s).den) by (nonlinear_arith)
            requires
                normal_of(s).num == 65535 && normal_of(s).den == 65535,
        ;
    }
}

/// Decode one spectrum frame: `bar_count` little-endian 16-bit samples
/// in bar order, taken from the first `2 * bar_count` bytes.
///
/// A buffer holding fewer bytes than one full frame means the producer
/// died mid-frame: the result is `StreamClosed`, never a short frame.
pub fn decode_frame(bytes: &Vec<u8>, bar_count: u32) -> (r: Result<Vec<u16>, ProducerError>)
    ensures
        bytes@.len() >= 2 * bar_count as int ==> (r matches Ok(v)
            && v@ == spec_decode(bytes@, bar_count as int)),
        bytes@.len() < 2 * bar_count as int ==> (r matches Err(e)
            && e == ProducerError::StreamClosed),
{
    if bytes.len() / 2 < bar_count as usize {
        return Err(ProducerError::StreamClosed);
    }
    let mut samples: Vec<u16> = Vec::new();
    let mut i: usize = 0;
    while i < bar_count as usize
        invariant
            bytes@.len() >= 2 * bar_count as int,
            bytes@.len() <= usize::MAX as int,
            0 <= i <= bar_count as int,
            samples@.len() == i,
            forall|j: int| 0 <= j < i ==> samples@[j]
                == le16(bytes@[2 * j], bytes@[2 * j + 1]) as u16,
        decreases bar_count as int - i,
    {
        let lo = bytes[2 * i];
        let hi = bytes[2 * i + 1];
        let s: u16 = lo as u16 + 256 * (hi as u16);
        samples.push(s);
        i = i + 1;
    }
    proof {
        assert(samples@ =~= spec_decode(bytes@, bar_count as int));
    }
    Ok(samples)
}

/// Map a failed blocking read to the fatal producer error: reaching
/// the end of the stream mid-frame means the producer died and the
/// stream closed; any other failure is a lower-level stream error.
pub fn classify_read_failure(reached_end: bool) -> (r: ProducerError)
    ensures
        reached_end ==> r == ProducerError::StreamClosed,
        !reached_end ==> r == ProducerError::StreamError,
{
    if reached_end {
        ProducerError::StreamClosed
    } else {
        ProducerError::StreamError
    }
}

/// Normalize a frame of raw samples by the largest 16-bit value.
pub fn normalize(samples: &Vec<u16>) -> (r: Vec<Rat>)
    ensures
        r@ == spec_normalize(samples@),
        r@.len() == samples@.len(),
        forall|i: int| 0 <= i < r@.len() ==> mag_ok(#[trigger] r@[i]),
{
    let mut r: Vec<Rat> = Vec::new();
    let mut i: usize = 0;
    while i < samples.len()
        invariant
            0 <= i <= samples@.len(),
            r@.len() == i,
            forall|j: int| 0 <= j < i ==> r@[j] == normal_of(samples@[j] as int),
        decreases samples@.len() - i,
    {
        r.push(Rat { num: samples[i] as i64, den: 65535 });
        i = i + 1;
    }
    proof {
        assert(r@ =~= spec_normalize(samples@));
        assert forall|i2: int| 0 <= i2 < r@.len() implies mag_ok(#[trigger] r@[i2]) by {
            lemma_normal_in_unit_interval(samples@[i2] as int);
        }
    }
    r
}

} // verus!
