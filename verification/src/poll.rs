//! `PollInterval`: when we next exchange packets with a remote server, as a
//! power of two seconds; and `FrequencyTolerance`, the clock frequency
//! tolerance PHI.

use vstd::prelude::*;
use vstd::arithmetic::power2::*;
use vstd::bits::*;
use std::ops::Mul;
use std::time::Duration;
use crate::arith::{div_toward_zero, saturate_i64};
use crate::duration::NtpDuration;
use crate::std_time::{duration_from_secs, duration_secs, duration_subsec_nanos};

verus! {

/// The poll interval in log2 seconds: a value of 4 means 2^4 = 16 seconds,
/// a value of 17 means 2^17 seconds (about 36 hours).
#[derive(Debug, Copy, Clone, PartialEq, Eq, Structural, PartialOrd, Ord)]
pub struct PollInterval(pub i8);

/// The smallest poll interval, in log2 seconds.
pub open spec fn min_poll_log() -> i8 {
    4
}

/// The largest poll interval, in log2 seconds.
pub open spec fn max_poll_log() -> i8 {
    17
}

/// The log2 interval after `inc`: one longer, capped at the largest.
pub open spec fn poll_inc(log: i8) -> int {
    if log + 1 < max_poll_log() {
        log + 1
    } else {
        max_poll_log() as int
    }
}

/// The log2 interval after `dec`: one shorter, capped at the smallest.
pub open spec fn poll_dec(log: i8) -> int {
    if log - 1 > min_poll_log() {
        log - 1
    } else {
        min_poll_log() as int
    }
}

/// The value of `as_duration`: 2^log seconds in units of 2^-32 seconds,
/// where 2^(log + 32) fits in an `i64`, and `i64::MIN` where the shift
/// reaches the sign bit.
pub open spec fn poll_duration(log: i8) -> int {
    if log + 32 < 63 {
        pow2((log + 32) as nat) as int
    } else {
        i64::MIN as int
    }
}

/// `1 << k` on `i64` is 2^k below the sign bit, and `i64::MIN` at it.
proof fn lemma_i64_one_shl(k: u32)
    requires
        k < 64,
    ensures
        k < 63 ==> (1i64 << k) == pow2(k as nat),
        k == 63 ==> (1i64 << k) == i64::MIN,
{
    let s: u64 = k as u64;
    assert(((1i64 << k) >= 0 && (1i64 << k) as u64 == 1u64 << s) || k == 63) by (bit_vector)
        requires
            k < 64,
            s == k,
    ;
    assert(k == 63 ==> (1i64 << k) == -0x8000_0000_0000_0000i64) by (bit_vector);
    if k < 63 {
        lemma_u64_pow2_no_overflow(s as nat);
        lemma_u64_shl_is_mul(1u64, s);
    }
}

impl PollInterval {
    /// The smallest poll interval, 2^4 seconds.
    pub fn min_value() -> (r: PollInterval)
        ensures
            r.0 == min_poll_log(),
    {
        PollInterval(4)
    }

    /// The largest poll interval, 2^17 seconds.
    pub fn max_value() -> (r: PollInterval)
        ensures
            r.0 == max_poll_log(),
    {
        PollInterval(17)
    }

    /// The next longer poll interval, capped at the largest.
    pub fn inc(self) -> (r: PollInterval)
        requires
            self.0 < i8::MAX,
        ensures
            r.0 == poll_inc(self.0),
    {
        let next = PollInterval(self.0 + 1);
        let max = PollInterval::max_value();
        if next.0 < max.0 {
            next
        } else {
            max
        }
    }

    /// The next shorter poll interval, capped at the smallest.
    pub fn dec(self) -> (r: PollInterval)
        requires
            self.0 > i8::MIN,
        ensures
            r.0 == poll_dec(self.0),
    {
        let next = PollInterval(self.0 - 1);
        let min = PollInterval::min_value();
        if next.0 > min.0 {
            next
        } else {
            min
        }
    }

    /// The interval in log2 seconds.
    pub fn as_log(self) -> (r: i8)
        ensures
            r == self.0,
    {
        self.0
    }

    /// The interval as an `NtpDuration`.
    pub fn as_duration(self) -> (r: NtpDuration)
        requires
            -32 <= self.0 <= 31,
        ensures
            r@ == poll_duration(self.0),
    {
        let shift = (self.0 + 32) as u32;
        proof {
            lemma_i64_one_shl(shift);
        }
        NtpDuration::from_fixed_int(1i64 << shift)
    }

    /// The interval as a `std::time::Duration` of 2^log whole seconds.
    pub fn as_system_duration(self) -> (r: Duration)
        requires
            0 <= self.0 < 64,
        ensures
            duration_secs(r) == pow2(self.0 as nat),
            duration_subsec_nanos(r) == 0,
    {
        let shift = self.0 as u64;
        proof {
            lemma_u64_pow2_no_overflow(shift as nat);
            lemma_u64_shl_is_mul(1u64, shift);
        }
        duration_from_secs(1u64 << shift)
    }
}

impl Default for PollInterval {
    fn default() -> (r: PollInterval)
        ensures
            r.0 == min_poll_log(),
    {
        PollInterval(4)
    }
}

/// Frequency tolerance PHI, in parts per million (seconds per second).
#[derive(Clone, Copy)]
pub struct FrequencyTolerance {
    ppm: u32,
}

impl View for FrequencyTolerance {
    type V = u32;

    /// The tolerance in parts per million.
    closed spec fn view(&self) -> u32 {
        self.ppm
    }
}

/// The drift bound that a tolerance of `ppm` parts per million gives over `d`.
pub open spec fn tolerance_over(d: NtpDuration, ppm: u32) -> NtpDuration {
    NtpDuration::spec_new(div_toward_zero(saturate_i64(d@ * ppm) as int, 1_000_000) as i64)
}

impl FrequencyTolerance {
    /// A tolerance of `ppm` parts per million.
    pub fn ppm(ppm: u32) -> (r: FrequencyTolerance)
        ensures
            r@ == ppm,
    {
        FrequencyTolerance { ppm }
    }
}

impl Mul<FrequencyTolerance> for NtpDuration {
    type Output = NtpDuration;

    fn mul(self, rhs: FrequencyTolerance) -> (r: NtpDuration)
        ensures
            r@ == div_toward_zero(saturate_i64(self@ * rhs@) as int, 1_000_000),
    {
        let r = (self * rhs.ppm) / 1_000_000u32;
        proof {
            NtpDuration::lemma_spec_new(saturate_i64(self@ * rhs@));
            NtpDuration::lemma_view_determines(r);
        }
        r
    }
}

impl vstd::std_specs::ops::MulSpecImpl<FrequencyTolerance> for NtpDuration {
    open spec fn obeys_mul_spec() -> bool {
        true
    }

    open spec fn mul_req(self, rhs: FrequencyTolerance) -> bool {
        true
    }

    open spec fn mul_spec(self, rhs: FrequencyTolerance) -> NtpDuration {
        tolerance_over(self, rhs@)
    }
}

} // verus!
