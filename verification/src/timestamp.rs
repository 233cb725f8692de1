//! `NtpTimestamp`: a point in time within an NTP era, in units of 2^-32
//! seconds. Timestamp arithmetic rolls over at era boundaries.

use vstd::prelude::*;
use std::ops::{Add, AddAssign, Sub, SubAssign};
use crate::arith::{
    be_bytes_8, be_value_8, fixed_point_from_secs_nanos,
    lemma_be_8_value_of_bytes, lemma_i64_as_u64, lemma_u64_as_i64, lemma_wrap_i64,
    lemma_wrap_u64, nanos_to_fraction, pow2_32, u64_from_be_bytes, u64_to_be_bytes, wrap_i64,
    wrap_u64,
};
use crate::duration::NtpDuration;

verus! {

/// An NTP timestamp without the era number.
#[derive(Debug, Copy, Clone, PartialEq, Eq, Structural, PartialOrd, Ord)]
pub struct NtpTimestamp {
    timestamp: u64,
}

impl View for NtpTimestamp {
    type V = u64;

    /// The position within the era, in units of 2^-32 seconds.
    closed spec fn view(&self) -> u64 {
        self.timestamp
    }
}

/// `t` moved by `d`, rolling over at the era boundary.
pub open spec fn shift_timestamp(t: NtpTimestamp, d: int) -> NtpTimestamp {
    NtpTimestamp::spec_new(wrap_u64(t@ + d))
}

/// The signed difference `a - b`, for the eras that make it smallest.
pub open spec fn timestamp_difference(a: NtpTimestamp, b: NtpTimestamp) -> NtpDuration {
    NtpDuration::spec_new(wrap_i64(a@ - b@))
}

/// wrapping_add of a `u64` and an `i64` reinterpreted as `u64` is addition modulo 2^64.
proof fn lemma_wrapping_add_signed(t: u64, d: i64)
    ensures
        t.wrapping_add(d as u64) == wrap_u64(t + d),
{
    lemma_i64_as_u64(d);
    lemma_wrap_u64(d as int);
    lemma_wrap_u64(t + d);
    lemma_wrap_u64(t + (d as u64));
}

/// wrapping_sub of a `u64` and an `i64` reinterpreted as `u64` is subtraction modulo 2^64.
proof fn lemma_wrapping_sub_signed(t: u64, d: i64)
    ensures
        t.wrapping_sub(d as u64) == wrap_u64(t - d),
{
    lemma_i64_as_u64(d);
    lemma_wrap_u64(d as int);
    lemma_wrap_u64(t - d);
    lemma_wrap_u64(t - (d as u64));
}

impl NtpTimestamp {
    /// The timestamp whose value is `t`, for use in specifications.
    pub closed spec fn spec_new(t: u64) -> NtpTimestamp {
        NtpTimestamp { timestamp: t }
    }

    /// The timestamp built from `t` has value `t`.
    pub proof fn lemma_spec_new(t: u64)
        ensures
            #[trigger] Self::spec_new(t)@ == t,
    {
    }

    /// A timestamp is determined by its value.
    pub proof fn lemma_view_determines(a: NtpTimestamp)
        ensures
            a == Self::spec_new(a@),
    {
    }

    /// Reads a timestamp from its eight-byte big-endian wire form.
    pub fn from_bits(bits: [u8; 8]) -> (r: NtpTimestamp)
        ensures
            r@ == be_value_8(bits@),
    {
        NtpTimestamp { timestamp: u64_from_be_bytes(bits) }
    }

    /// Writes this timestamp in its eight-byte big-endian wire form.
    pub fn to_bits(self) -> (r: [u8; 8])
        ensures
            r@ == be_bytes_8(self@),
    {
        u64_to_be_bytes(self.timestamp)
    }

    /// The timestamp `seconds` seconds and `nanos` nanoseconds after the
    /// last era boundary. The fraction is rounded down to a multiple of
    /// 2^-32 seconds.
    pub fn from_seconds_nanos_since_ntp_era(seconds: u32, nanos: u32) -> (r: NtpTimestamp)
        requires
            nanos < 1_000_000_000,
        ensures
            r@ == seconds * pow2_32() + nanos_to_fraction(nanos as int),
            r@ == seconds * 0x1_0000_0000 + nanos * 0x1_0000_0000 / 1_000_000_000,
    {
        let timestamp = fixed_point_from_secs_nanos(seconds as u64, nanos);
        proof {
            lemma_be_8_value_of_bytes(timestamp);
        }
        NtpTimestamp::from_bits(u64_to_be_bytes(timestamp))
    }

    /// The timestamp whose raw fixed-point value is `timestamp`.
    pub fn from_fixed_int(timestamp: u64) -> (r: NtpTimestamp)
        ensures
            r@ == timestamp,
            r == Self::spec_new(timestamp),
    {
        NtpTimestamp { timestamp }
    }
}

impl Default for NtpTimestamp {
    fn default() -> (r: NtpTimestamp)
        ensures
            r@ == 0,
    {
        NtpTimestamp { timestamp: 0 }
    }
}

impl Add<NtpDuration> for NtpTimestamp {
    type Output = NtpTimestamp;

    // To deal with era changes, timestamps roll over; reinterpreting the
    // duration as u64 does so by two's-complement arithmetic.
    fn add(self, rhs: NtpDuration) -> (r: NtpTimestamp)
        ensures
            r@ == wrap_u64(self@ + rhs@),
    {
        let d = rhs.to_fixed_int();
        proof {
            lemma_wrapping_add_signed(self.timestamp, d);
        }
        NtpTimestamp { timestamp: self.timestamp.wrapping_add(d as u64) }
    }
}

impl vstd::std_specs::ops::AddSpecImpl<NtpDuration> for NtpTimestamp {
    open spec fn obeys_add_spec() -> bool {
        true
    }

    open spec fn add_req(self, rhs: NtpDuration) -> bool {
        true
    }

    open spec fn add_spec(self, rhs: NtpDuration) -> NtpTimestamp {
        shift_timestamp(self, rhs@ as int)
    }
}

impl AddAssign<NtpDuration> for NtpTimestamp {
    fn add_assign(&mut self, rhs: NtpDuration)
        ensures
            final(self)@ == wrap_u64(old(self)@ + rhs@),
    {
        let d = rhs.to_fixed_int();
        proof {
            lemma_wrapping_add_signed(self.timestamp, d);
        }
        self.timestamp = self.timestamp.wrapping_add(d as u64);
    }
}

impl Sub for NtpTimestamp {
    type Output = NtpDuration;

    // A wrapping subtraction read as a signed integer gives the difference
    // as if the eras of the timestamps were chosen to minimize its norm.
    fn sub(self, rhs: NtpTimestamp) -> (r: NtpDuration)
        ensures
            r@ == wrap_i64(self@ - rhs@),
    {
        let w = self.timestamp.wrapping_sub(rhs.timestamp);
        proof {
            lemma_u64_as_i64(w);
            lemma_wrap_i64(w as int);
            lemma_wrap_i64(self@ - rhs@);
        }
        NtpDuration::from_fixed_int(w as i64)
    }
}

impl vstd::std_specs::ops::SubSpecImpl for NtpTimestamp {
    open spec fn obeys_sub_spec() -> bool {
        true
    }

    open spec fn sub_req(self, rhs: NtpTimestamp) -> bool {
        true
    }

    open spec fn sub_spec(self, rhs: NtpTimestamp) -> NtpDuration {
        timestamp_difference(self, rhs)
    }
}

impl Sub<NtpDuration> for NtpTimestamp {
    type Output = NtpTimestamp;

    fn sub(self, rhs: NtpDuration) -> (r: NtpTimestamp)
        ensures
            r@ == wrap_u64(self@ - rhs@),
    {
        let d = rhs.to_fixed_int();
        proof {
            lemma_wrapping_sub_signed(self.timestamp, d);
        }
        NtpTimestamp { timestamp: self.timestamp.wrapping_sub(d as u64) }
    }
}

impl vstd::std_specs::ops::SubSpecImpl<NtpDuration> for NtpTimestamp {
    open spec fn obeys_sub_spec() -> bool {
        true
    }

    open spec fn sub_req(self, rhs: NtpDuration) -> bool {
        true
    }

    open spec fn sub_spec(self, rhs: NtpDuration) -> NtpTimestamp {
        shift_timestamp(self, -(rhs@ as int))
    }
}

impl SubAssign<NtpDuration> for NtpTimestamp {
    fn sub_assign(&mut self, rhs: NtpDuration)
        ensures
            final(self)@ == wrap_u64(old(self)@ - rhs@),
    {
        let d = rhs.to_fixed_int();
        proof {
            lemma_wrapping_sub_signed(self.timestamp, d);
        }
        self.timestamp = self.timestamp.wrapping_sub(d as u64);
    }
}

} // verus!
