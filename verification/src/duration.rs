//! `NtpDuration`: a signed interval in NTP's 32.32 fixed-point format
//! (units of 2^-32 seconds), with saturating arithmetic.

use vstd::prelude::*;
use vstd::arithmetic::power2::*;
use vstd::bits::*;
use vstd::arithmetic::div_mod::*;
use std::ops::{Add, AddAssign, Sub, SubAssign};
use std::time::Duration;
use crate::arith::{
    be_bytes_4, be_value_4, be_value_8, fixed_point_from_secs_nanos, fixed_point_value,
    lemma_be_8_value_of_bytes, lemma_nanos_to_fraction_bound, lemma_u64_as_i64, lemma_wrap_i64,
    nanos_to_fraction, pow2_32, saturate_i64, saturating_add_i64,
    saturating_sub_i64, u32_from_be_bytes, u32_to_be_bytes, u64_from_be_bytes, u64_to_be_bytes,
    wrap_i64,
};
use crate::std_time::{duration_as_secs, duration_secs, duration_subsec, duration_subsec_nanos};

verus! {

/// A signed interval between two `NtpTimestamp`s, in units of 2^-32 seconds.
/// A negative interval means that the first timestamp lies after the second.
#[derive(Debug, Copy, Clone, PartialEq, Eq, Structural, PartialOrd, Ord)]
pub struct NtpDuration {
    duration: i64,
}

impl View for NtpDuration {
    type V = i64;

    /// The interval in units of 2^-32 seconds.
    closed spec fn view(&self) -> i64 {
        self.duration
    }
}

/// The value of `from_exponent(input)`: 2^input seconds, or `i64::MAX`
/// above 2^30 seconds, or zero below 2^-32 seconds.
pub open spec fn exponent_duration(input: i8) -> int {
    if input > 30 {
        i64::MAX as int
    } else if input >= -32 {
        pow2((32 + input) as nat) as int
    } else {
        0
    }
}

/// The value of `from_secs_nanos(seconds, nanos)`: the seconds are taken
/// modulo 2^32 and the result is read as a two's-complement `i64`.
pub open spec fn secs_nanos_duration(seconds: u64, nanos: u32) -> i64 {
    wrap_i64(fixed_point_value(seconds, nanos))
}

/// The value of `from_whole_and_fraction(whole, fraction)`.
pub open spec fn whole_and_fraction_duration(whole: i64, fraction: i64) -> i64 {
    if whole < i32::MIN {
        i64::MIN
    } else if whole > i32::MAX {
        i64::MAX
    } else {
        (whole * pow2_32() + fraction) as i64
    }
}

/// Saturating addition of two durations.
pub open spec fn add_durations(a: NtpDuration, b: NtpDuration) -> NtpDuration {
    NtpDuration::spec_new(saturate_i64(a@ + b@))
}

/// Saturating subtraction of two durations.
pub open spec fn sub_durations(a: NtpDuration, b: NtpDuration) -> NtpDuration {
    NtpDuration::spec_new(saturate_i64(a@ - b@))
}

impl NtpDuration {
    /// The duration whose value is `d`, for use in specifications.
    pub closed spec fn spec_new(d: i64) -> NtpDuration {
        NtpDuration { duration: d }
    }

    /// The duration built from `d` has value `d`.
    pub proof fn lemma_spec_new(d: i64)
        ensures
            #[trigger] Self::spec_new(d)@ == d,
    {
    }

    /// A duration is determined by its value.
    pub proof fn lemma_view_determines(a: NtpDuration)
        ensures
            a == Self::spec_new(a@),
    {
    }

    /// The empty interval.
    pub fn zero() -> (r: NtpDuration)
        ensures
            r@ == 0,
    {
        NtpDuration { duration: 0 }
    }

    /// One second.
    pub fn one() -> (r: NtpDuration)
        ensures
            r@ == pow2_32(),
    {
        NtpDuration { duration: 0x1_0000_0000 }
    }

    /// Sixteen seconds, the largest dispersion.
    pub fn max_dispersion() -> (r: NtpDuration)
        ensures
            r@ == 16 * pow2_32(),
    {
        NtpDuration { duration: 68719476736 }
    }

    /// Five milliseconds (rounded down), the smallest dispersion.
    pub fn min_dispersion() -> (r: NtpDuration)
        ensures
            r@ == 5 * pow2_32() / 1000,
    {
        NtpDuration { duration: 21474836 }
    }

    /// The duration whose raw fixed-point value is `duration`.
    pub fn from_fixed_int(duration: i64) -> (r: NtpDuration)
        ensures
            r@ == duration,
            r == Self::spec_new(duration),
    {
        NtpDuration { duration }
    }

    /// The raw fixed-point value of this duration.
    pub fn to_fixed_int(self) -> (r: i64)
        ensures
            r == self@,
    {
        self.duration
    }

    /// Reads a duration from its eight-byte big-endian wire form.
    pub fn from_bits(bits: [u8; 8]) -> (r: NtpDuration)
        ensures
            r@ == wrap_i64(be_value_8(bits@)),
    {
        let raw = u64_from_be_bytes(bits);
        proof {
            lemma_u64_as_i64(raw);
        }
        NtpDuration { duration: raw as i64 }
    }

    /// Reads a duration from the four-byte short format (16.16 fixed point).
    pub fn from_bits_short(bits: [u8; 4]) -> (r: NtpDuration)
        ensures
            r@ == be_value_4(bits@) * 0x1_0000,
    {
        let raw = u32_from_be_bytes(bits);
        let wide = raw as i64;
        assert(0 <= wide <= 0xffff_ffff ==> (wide << 16i64) == wide * 0x1_0000) by (bit_vector);
        NtpDuration { duration: wide << 16i64 }
    }

    /// Writes this duration in the four-byte short format (16.16 fixed point),
    /// dropping the low 16 fractional bits. Serializing a negative duration
    /// is a programming error elsewhere; a duration of 2^16 seconds or more
    /// saturates to the largest short value.
    pub fn to_bits_short(self) -> (r: [u8; 4])
        requires
            0 <= self@,
        ensures
            self@ <= 0x0000_ffff_ffff_ffff ==> r@ == be_bytes_4((self@ / 0x1_0000) as u32),
            self@ > 0x0000_ffff_ffff_ffff ==> r@ == be_bytes_4(0xffff_ffff),
    {
        let d = self.duration;
        let short: u32 = match d > 0x0000FFFFFFFFFFFF {
            true => 0xFFFFFFFF_u32,
            false => ((d & 0x0000FFFFFFFF0000) >> 16i64) as u32,
        };
        assert(0 <= d <= 0x0000_ffff_ffff_ffff ==> ((d & 0x0000FFFFFFFF0000) >> 16i64) as u32
            == (d / 0x1_0000) as u32) by (bit_vector);
        u32_to_be_bytes(short)
    }

    /// The whole seconds (rounded toward negative infinity) and the remaining
    /// nanoseconds (rounded down, always below 10^9) of this duration.
    pub fn as_seconds_nanos(self) -> (r: (i32, u32))
        ensures
            r.0 == (self@ as int) / pow2_32(),
            r.1 == ((self@ as int) % pow2_32()) * 1_000_000_000 / pow2_32(),
            r.1 < 1_000_000_000,
    {
        let d = self.duration;
        assert((d >> 32i64) as int == d / 0x1_0000_0000) by (bit_vector);
        assert((d & 0xFFFFFFFFi64) as int == d % 0x1_0000_0000) by (bit_vector);
        let low = d & 0xFFFFFFFF;
        assert(0 <= low * 1_000_000_000 < 0x1_0000_0000 * 1_000_000_000) by (nonlinear_arith)
            requires
                0 <= low < 0x1_0000_0000,
        ;
        let scaled = low * 1_000_000_000;
        assert(0 <= scaled ==> (scaled >> 32i64) as int == scaled / 0x1_0000_0000) by (bit_vector);
        assert(scaled / 0x1_0000_0000 < 1_000_000_000) by (nonlinear_arith)
            requires
                0 <= scaled < 0x1_0000_0000 * 1_000_000_000,
        ;
        ((d >> 32i64) as i32, (scaled >> 32i64) as u32)
    }

    /// Interprets an exponent `input` as 2^input seconds. Exponents above 30
    /// saturate to the largest duration; exponents below -32 give zero.
    pub fn from_exponent(input: i8) -> (r: NtpDuration)
        ensures
            r@ == exponent_duration(input),
    {
        let duration = match input {
            exp if exp > 30 => i64::MAX,
            exp if exp > 0 && exp <= 30 => {
                proof {
                    lemma_shifted_second(exp);
                }
                0x1_0000_0000_i64 << (exp as u32)
            },
            exp if exp <= 0 && exp >= -32 => {
                proof {
                    lemma_shifted_second(exp);
                }
                0x1_0000_0000_i64 >> ((-exp) as u32)
            },
            _ => 0,
        };
        NtpDuration { duration }
    }

    /// The duration of `seconds` whole seconds (taken modulo 2^32) and
    /// `nanos` nanoseconds, read as a two's-complement fixed-point value.
    pub fn from_secs_nanos(seconds: u64, nanos: u32) -> (r: NtpDuration)
        requires
            nanos < 1_000_000_000,
        ensures
            r@ == secs_nanos_duration(seconds, nanos),
            r@ == wrap_i64(
                (seconds as int % 0x1_0000_0000) * 0x1_0000_0000 + nanos * 0x1_0000_0000
                    / 1_000_000_000,
            ),
            seconds < 0x8000_0000 ==> r@ == seconds * 0x1_0000_0000 + nanos * 0x1_0000_0000
                / 1_000_000_000,
    {
        let timestamp = fixed_point_from_secs_nanos(seconds, nanos);
        proof {
            lemma_be_8_value_of_bytes(timestamp);
            if seconds < 0x8000_0000 {
                lemma_secs_nanos_duration_nonnegative(seconds, nanos);
            }
        }
        NtpDuration::from_bits(u64_to_be_bytes(timestamp))
    }

    /// Converts a `std::time::Duration`.
    pub fn from_system_duration(duration: Duration) -> (r: NtpDuration)
        ensures
            r@ == secs_nanos_duration(duration_secs(duration), duration_subsec_nanos(duration)),
            r@ == wrap_i64(
                (duration_secs(duration) as int % 0x1_0000_0000) * 0x1_0000_0000
                    + duration_subsec_nanos(duration) * 0x1_0000_0000 / 1_000_000_000,
            ),
            duration_secs(duration) < 0x8000_0000 ==> r@ == duration_secs(duration)
                * 0x1_0000_0000 + duration_subsec_nanos(duration) * 0x1_0000_0000
                / 1_000_000_000,
            duration_subsec_nanos(duration) < 1_000_000_000,
    {
        let seconds = duration_as_secs(&duration);
        let nanos = duration_subsec(&duration);
        NtpDuration::from_secs_nanos(seconds, nanos)
    }

    /// Builds a duration from whole seconds and a fraction of a second in
    /// units of 2^-32 seconds. Whole seconds outside the range of `i32`
    /// saturate to the smallest or largest duration.
    pub fn from_whole_and_fraction(whole: i64, fraction: i64) -> (r: NtpDuration)
        requires
            0 <= fraction <= u32::MAX,
        ensures
            r@ == whole_and_fraction_duration(whole, fraction),
            i32::MIN <= whole <= i32::MAX ==> r@ == whole * 0x1_0000_0000 + fraction,
            whole < i32::MIN ==> r@ == i64::MIN,
            whole > i32::MAX ==> r@ == i64::MAX,
    {
        proof {
            lemma_whole_and_fraction_fits(whole, fraction);
        }
        let duration = if whole >= i32::MIN as i64 && whole <= i32::MAX as i64 {
            assert(((whole << 32u32) | fraction) == whole * 0x1_0000_0000 + fraction)
                by (bit_vector)
                requires
                    -0x8000_0000 <= whole <= 0x7fff_ffff,
                    0 <= fraction <= 0xffff_ffff,
            ;
            (whole << 32u32) | fraction
        } else if whole < i32::MIN as i64 {
            i64::MIN
        } else {
            i64::MAX
        };
        NtpDuration { duration }
    }
}

impl Default for NtpDuration {
    fn default() -> (r: NtpDuration)
        ensures
            r@ == 0,
    {
        NtpDuration { duration: 0 }
    }
}

impl Add for NtpDuration {
    type Output = NtpDuration;

    // Saturation ensures that adding two big durations never
    // unintentionally cancels, so filtering can reject on the result.
    fn add(self, rhs: NtpDuration) -> (r: NtpDuration)
        ensures
            r@ == saturate_i64(self@ + rhs@),
            i64::MIN <= self@ + rhs@ <= i64::MAX ==> r@ == self@ + rhs@,
            self@ + rhs@ > i64::MAX ==> r@ == i64::MAX,
            self@ + rhs@ < i64::MIN ==> r@ == i64::MIN,
    {
        NtpDuration { duration: saturating_add_i64(self.duration, rhs.duration) }
    }
}

impl vstd::std_specs::ops::AddSpecImpl for NtpDuration {
    open spec fn obeys_add_spec() -> bool {
        true
    }

    open spec fn add_req(self, rhs: NtpDuration) -> bool {
        true
    }

    open spec fn add_spec(self, rhs: NtpDuration) -> NtpDuration {
        add_durations(self, rhs)
    }
}

impl AddAssign for NtpDuration {
    fn add_assign(&mut self, rhs: NtpDuration)
        ensures
            final(self)@ == saturate_i64(old(self)@ + rhs@),
            i64::MIN <= old(self)@ + rhs@ <= i64::MAX ==> final(self)@ == old(self)@ + rhs@,
            old(self)@ + rhs@ > i64::MAX ==> final(self)@ == i64::MAX,
            old(self)@ + rhs@ < i64::MIN ==> final(self)@ == i64::MIN,
    {
        self.duration = saturating_add_i64(self.duration, rhs.duration);
    }
}

impl Sub for NtpDuration {
    type Output = NtpDuration;

    fn sub(self, rhs: NtpDuration) -> (r: NtpDuration)
        ensures
            r@ == saturate_i64(self@ - rhs@),
            i64::MIN <= self@ - rhs@ <= i64::MAX ==> r@ == self@ - rhs@,
            self@ - rhs@ > i64::MAX ==> r@ == i64::MAX,
            self@ - rhs@ < i64::MIN ==> r@ == i64::MIN,
    {
        NtpDuration { duration: saturating_sub_i64(self.duration, rhs.duration) }
    }
}

impl vstd::std_specs::ops::SubSpecImpl for NtpDuration {
    open spec fn obeys_sub_spec() -> bool {
        true
    }

    open spec fn sub_req(self, rhs: NtpDuration) -> bool {
        true
    }

    open spec fn sub_spec(self, rhs: NtpDuration) -> NtpDuration {
        sub_durations(self, rhs)
    }
}

impl SubAssign for NtpDuration {
    fn sub_assign(&mut self, rhs: NtpDuration)
        ensures
            final(self)@ == saturate_i64(old(self)@ - rhs@),
            i64::MIN <= old(self)@ - rhs@ <= i64::MAX ==> final(self)@ == old(self)@ - rhs@,
            old(self)@ - rhs@ > i64::MAX ==> final(self)@ == i64::MAX,
            old(self)@ - rhs@ < i64::MIN ==> final(self)@ == i64::MIN,
    {
        self.duration = saturating_sub_i64(self.duration, rhs.duration);
    }
}

/// Fewer than 2^31 seconds and 10^9 nanoseconds make a nonnegative
/// duration, and no time at all makes the empty duration.
pub proof fn lemma_secs_nanos_duration_nonnegative(seconds: u64, nanos: u32)
    requires
        seconds < 0x8000_0000,
        nanos < 1_000_000_000,
    ensures
        secs_nanos_duration(seconds, nanos) >= 0,
        secs_nanos_duration(seconds, nanos) == seconds * 0x1_0000_0000 + nanos * 0x1_0000_0000
            / 1_000_000_000,
        seconds == 0 && nanos == 0 ==> secs_nanos_duration(seconds, nanos) == 0,
{
    lemma_nanos_to_fraction_bound(nanos as int);
    let f = nanos_to_fraction(nanos as int);
    let v = fixed_point_value(seconds, nanos);
    lemma_fundamental_div_mod_converse(seconds as int, pow2_32(), 0, seconds as int);
    assert(0 <= v <= i64::MAX) by (nonlinear_arith)
        requires
            v == seconds * 0x1_0000_0000 + f,
            0 <= seconds < 0x8000_0000,
            0 <= f < 0x1_0000_0000,
    ;
    lemma_wrap_i64(v);
}

/// Whole seconds in the range of `i32` and a fraction below one second
/// make a value in the range of `i64`.
proof fn lemma_whole_and_fraction_fits(whole: i64, fraction: i64)
    requires
        0 <= fraction <= u32::MAX,
    ensures
        i32::MIN <= whole <= i32::MAX ==> i64::MIN <= whole * 0x1_0000_0000 + fraction
            <= i64::MAX,
{
    if i32::MIN <= whole <= i32::MAX {
        assert(i64::MIN <= whole * 0x1_0000_0000 + fraction <= i64::MAX) by (nonlinear_arith)
            requires
                -0x8000_0000 <= whole <= 0x7fff_ffff,
                0 <= fraction <= 0xffff_ffff,
        ;
    }
}

/// One second shifted by `e` binary places is 2^(32 + e) units.
proof fn lemma_shifted_second(e: i8)
    requires
        -32 <= e <= 30,
    ensures
        e > 0 ==> (0x1_0000_0000_i64 << (e as u32)) == pow2((32 + e) as nat),
        e <= 0 ==> (0x1_0000_0000_i64 >> ((-e) as u32)) == pow2((32 + e) as nat),
{
    lemma2_to64();
    if e > 0 {
        let s: u64 = (32 + e) as u64;
        let t: u32 = e as u32;
        assert((0x1_0000_0000_i64 << t) >= 0 && (0x1_0000_0000_i64 << t) as u64 == 1u64 << s)
            by (bit_vector)
            requires
                0 < t <= 30,
                s == t + 32,
        ;
        lemma_u64_pow2_no_overflow(s as nat);
        lemma_u64_shl_is_mul(1u64, s);
    } else {
        let k: u64 = (-e) as u64;
        let t: u32 = (-e) as u32;
        assert((0x1_0000_0000_i64 >> t) == (0x1_0000_0000_u64 >> k) as i64) by (bit_vector)
            requires
                t <= 32,
                k == t,
        ;
        lemma_u64_shr_is_div(0x1_0000_0000_u64, k);
        lemma_pow2_subtracts(k as nat, 32);
        lemma_pow2_pos((32 - k) as nat);
        lemma_u64_pow2_no_overflow((32 - k) as nat);
    }
}

} // verus!
