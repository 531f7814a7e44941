//! The three channel counts and how they are read out of the chip's bytes.

use vstd::prelude::*;

verus! {

/// The counts of the last sample, one per channel. A channel is `None`
/// until the first sample has been read.
#[derive(Clone, Copy, Debug, PartialEq, Eq)]
pub struct LedCounter {
    pub red: Option<u16>,
    pub green: Option<u16>,
    pub blue: Option<u16>,
}

/// The 16-bit count whose low byte is `lo` and whose high byte is `hi`.
pub open spec fn combine(lo: u8, hi: u8) -> u16 {
    ((hi as u16) << 8) | (lo as u16)
}

/// The low byte of a count.
pub open spec fn low_byte(value: u16) -> u8 {
    (value & 0xff) as u8
}

/// The high byte of a count.
pub open spec fn high_byte(value: u16) -> u8 {
    (value >> 8) as u8
}

/// The counts that the six bytes read from the green low byte onward hold:
/// green, red and blue, each low byte first.
pub open spec fn decode_counts(payload: Seq<u8>) -> LedCounter
    recommends
        payload.len() == 6,
{
    LedCounter {
        green: Some(combine(payload[0], payload[1])),
        red: Some(combine(payload[2], payload[3])),
        blue: Some(combine(payload[4], payload[5])),
    }
}

/// Puts a low and a high byte together.
pub fn join_bytes(lo: u8, hi: u8) -> (value: u16)
    ensures
        value == combine(lo, hi),
        value == hi * 256 + lo,
{
    proof {
        lemma_combine_is_positional(lo, hi);
    }
    ((hi as u16) << 8) | (lo as u16)
}

/// Takes a count apart into its low and its high byte.
pub fn split_bytes(value: u16) -> (bytes: (u8, u8))
    ensures
        bytes.0 == low_byte(value),
        bytes.1 == high_byte(value),
        bytes.0 == value % 256,
        bytes.1 == value / 256,
        combine(bytes.0, bytes.1) == value,
{
    proof {
        lemma_split_then_combine(value);
        lemma_split_is_positional(value);
    }
    ((value & 0xff) as u8, (value >> 8) as u8)
}

impl LedCounter {
    /// No channel has been read yet.
    pub open spec fn unset() -> LedCounter {
        LedCounter { red: None, green: None, blue: None }
    }

    /// Every channel holds a count.
    pub open spec fn complete(self) -> bool {
        self.red is Some && self.green is Some && self.blue is Some
    }

    /// The counts before the first sample.
    pub fn new() -> (counts: LedCounter)
        ensures
            counts == LedCounter::unset(),
    {
        LedCounter { red: None, green: None, blue: None }
    }

    /// Reads all three counts out of one six-byte sample.
    pub fn decode(values: [u8; 6]) -> (counts: LedCounter)
        ensures
            counts == decode_counts(values@),
            counts.complete(),
    {
        LedCounter {
            green: Some(join_bytes(values[0], values[1])),
            red: Some(join_bytes(values[2], values[3])),
            blue: Some(join_bytes(values[4], values[5])),
        }
    }
}

/// A count is its high byte times 256 plus its low byte.
pub proof fn lemma_combine_is_positional(lo: u8, hi: u8)
    ensures
        combine(lo, hi) == hi * 256 + lo,
{
    assert((((hi as u16) << 8) | (lo as u16)) == (hi as u16) * 256 + (lo as u16)) by (bit_vector);
}

/// The low byte of a count is its remainder by 256, the high byte its
/// quotient.
pub proof fn lemma_split_is_positional(value: u16)
    ensures
        low_byte(value) == value % 256,
        high_byte(value) == value / 256,
{
    assert(((value & 0xff) as u8) == value % 256) by (bit_vector);
    assert(((value >> 8) as u8) == value / 256) by (bit_vector);
}

/// Splitting a count into its two bytes and joining them again gives the
/// count back, for every 16-bit count.
pub proof fn lemma_split_then_combine(value: u16)
    ensures
        combine(low_byte(value), high_byte(value)) == value,
{
    assert(((((value >> 8) as u8) as u16) << 8) | (((value & 0xff) as u8) as u16) == value)
        by (bit_vector);
}

/// Joining two bytes and splitting the count again gives the two bytes
/// back, so different byte pairs never give the same count.
pub proof fn lemma_combine_then_split(lo: u8, hi: u8)
    ensures
        low_byte(combine(lo, hi)) == lo,
        high_byte(combine(lo, hi)) == hi,
{
    assert((((((hi as u16) << 8) | (lo as u16)) & 0xff) as u8) == lo) by (bit_vector);
    assert((((((hi as u16) << 8) | (lo as u16)) >> 8) as u8) == hi) by (bit_vector);
}

/// Each channel is read from its own two bytes: changing the bytes of one
/// channel leaves the other two counts as they were.
pub proof fn lemma_channels_independent(a: Seq<u8>, b: Seq<u8>)
    requires
        a.len() == 6,
        b.len() == 6,
    ensures
        a[0] == b[0] && a[1] == b[1] ==> decode_counts(a).green == decode_counts(b).green,
        a[2] == b[2] && a[3] == b[3] ==> decode_counts(a).red == decode_counts(b).red,
        a[4] == b[4] && a[5] == b[5] ==> decode_counts(a).blue == decode_counts(b).blue,
{
}

} // verus!
