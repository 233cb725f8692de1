//! Properties that relate the operations of the time types to one another.

use vstd::prelude::*;
use vstd::arithmetic::div_mod::*;
use vstd::arithmetic::power2::*;
use crate::arith::{
    be_bytes_4, be_bytes_8, be_value_4, be_value_8, div_toward_zero, fixed_point_value,
    lemma_be_4_value_of_bytes, lemma_be_8_bytes_of_value, lemma_be_8_value_of_bytes,
    lemma_nanos_to_fraction_bound, lemma_wrap_i64, lemma_wrap_u64, nanos_to_fraction, pow2_32,
    pow2_64, saturate_i64, wrap_i64, wrap_u64,
};
use crate::duration::{
    add_durations, exponent_duration, secs_nanos_duration, sub_durations,
    whole_and_fraction_duration, NtpDuration,
};
use crate::poll::{
    max_poll_log, min_poll_log, poll_dec, poll_duration, poll_inc, tolerance_over,
};
use crate::scaling::{divided, scaled};
use crate::timestamp::{shift_timestamp, timestamp_difference, NtpTimestamp};
use crate::instant::{instant_difference, instant_distance, NtpInstant};
use crate::std_time::{duration_secs, duration_subsec_nanos};

verus! {

/// `|x|`.
pub open spec fn abs(x: int) -> int {
    if x < 0 {
        -x
    } else {
        x
    }
}

/// Adding a duration to a timestamp and then subtracting the timestamp
/// gives back the duration, across era boundaries: `(a + d) - a == d`.
pub proof fn law_timestamp_add_then_difference(a: NtpTimestamp, d: NtpDuration)
    ensures
        timestamp_difference(shift_timestamp(a, d@ as int), a) == d,
{
    let w = a@ + d@;
    lemma_wrap_u64(w);
    NtpTimestamp::lemma_spec_new(wrap_u64(w));
    let back = wrap_u64(w) - a@;
    lemma_wrap_i64(back);
    NtpDuration::lemma_spec_new(wrap_i64(back));
    NtpDuration::lemma_view_determines(d);
}

/// Adding the difference of two timestamps to the second gives the first:
/// `b + (a - b) == a`.
pub proof fn law_timestamp_difference_then_add(a: NtpTimestamp, b: NtpTimestamp)
    ensures
        shift_timestamp(b, timestamp_difference(a, b)@ as int) == a,
{
    lemma_wrap_i64(a@ - b@);
    NtpDuration::lemma_spec_new(wrap_i64(a@ - b@));
    let w = b@ + wrap_i64(a@ - b@);
    lemma_wrap_u64(w);
    NtpTimestamp::lemma_spec_new(wrap_u64(w));
    NtpTimestamp::lemma_view_determines(a);
}

/// Moving a timestamp by a duration and back again gives the timestamp:
/// `(a + d) - d == a` and `(a - d) + d == a`.
pub proof fn law_timestamp_shift_inverse(a: NtpTimestamp, d: NtpDuration)
    ensures
        shift_timestamp(shift_timestamp(a, d@ as int), -(d@ as int)) == a,
        shift_timestamp(shift_timestamp(a, -(d@ as int)), d@ as int) == a,
{
    lemma_wrap_u64(a@ + d@);
    lemma_wrap_u64(a@ - d@);
    let up = wrap_u64(a@ + d@);
    let down = wrap_u64(a@ - d@);
    NtpTimestamp::lemma_spec_new(up);
    NtpTimestamp::lemma_spec_new(down);
    lemma_wrap_u64(up - d@);
    lemma_wrap_u64(down + d@);
    NtpTimestamp::lemma_spec_new(wrap_u64(up - d@));
    NtpTimestamp::lemma_spec_new(wrap_u64(down + d@));
    NtpTimestamp::lemma_view_determines(a);
}

/// The difference of two timestamps is the difference for the eras that
/// make it smallest: it agrees with `a - b` modulo 2^64, and no choice of
/// eras gives a difference of smaller magnitude.
pub proof fn law_timestamp_difference_is_nearest(a: NtpTimestamp, b: NtpTimestamp, eras: int)
    ensures
        (timestamp_difference(a, b)@ - (a@ - b@)) % pow2_64() == 0,
        abs(timestamp_difference(a, b)@ as int) <= abs(a@ - b@ + eras * pow2_64()),
{
    let x = a@ - b@;
    lemma_wrap_i64(x);
    NtpDuration::lemma_spec_new(wrap_i64(x));
    let r = wrap_i64(x) as int;
    let j: int = if x > i64::MAX { -1 } else if x < i64::MIN { 1 } else { 0 };
    assert(r == x + j * pow2_64());
    lemma_fundamental_div_mod_converse_mod(r - x, pow2_64(), j, 0);
    let other = x + eras * pow2_64();
    assert(other == r + (eras - j) * pow2_64());
    if eras != j {
        assert((eras - j) * pow2_64() >= pow2_64() || (eras - j) * pow2_64() <= -pow2_64())
            by (nonlinear_arith)
            requires
                eras != j,
                pow2_64() == 0x1_0000_0000_0000_0000,
        ;
    }
}

/// Swapping two timestamps negates their difference, unless that
/// difference is exactly half an era (`i64::MIN`), which has no negation.
pub proof fn law_timestamp_difference_antisymmetric(a: NtpTimestamp, b: NtpTimestamp)
    requires
        timestamp_difference(a, b)@ != i64::MIN,
    ensures
        timestamp_difference(b, a)@ == -timestamp_difference(a, b)@,
{
    lemma_wrap_i64(a@ - b@);
    lemma_wrap_i64(b@ - a@);
    NtpDuration::lemma_spec_new(wrap_i64(a@ - b@));
    NtpDuration::lemma_spec_new(wrap_i64(b@ - a@));
}

/// Reading back a timestamp's wire form gives the timestamp, and writing
/// the timestamp that eight bytes spell gives those bytes.
pub proof fn law_timestamp_bits_roundtrip(t: NtpTimestamp, bits: Seq<u8>)
    requires
        bits.len() == 8,
    ensures
        be_value_8(be_bytes_8(t@)) == t@,
        be_bytes_8(be_value_8(bits) as u64) == bits,
{
    lemma_be_8_value_of_bytes(t@);
    lemma_be_8_bytes_of_value(bits);
}

/// Writing a nonnegative duration in the short format and reading it back
/// keeps it up to its low 16 bits (a resolution of 2^-16 seconds).
pub proof fn law_short_bits_roundtrip(d: NtpDuration)
    requires
        0 <= d@ <= 0x0000_ffff_ffff_ffff,
    ensures
        be_value_4(be_bytes_4((d@ / 0x1_0000) as u32)) * 0x1_0000 == d@ - d@ % 0x1_0000,
{
    lemma_be_4_value_of_bytes((d@ / 0x1_0000) as u32);
    lemma_fundamental_div_mod(d@ as int, 0x1_0000);
}

/// Saturating addition of durations is commutative and has zero as its identity.
pub proof fn law_duration_add_commutative(a: NtpDuration, b: NtpDuration)
    ensures
        add_durations(a, b) == add_durations(b, a),
        add_durations(a, NtpDuration::spec_new(0)) == a,
{
    NtpDuration::lemma_spec_new(0);
    NtpDuration::lemma_view_determines(a);
}

/// Saturation keeps two big durations from cancelling: adding durations of
/// the same sign, or subtracting one of the opposite sign, never moves the
/// result back toward zero.
pub proof fn law_duration_saturation_never_cancels(a: NtpDuration, b: NtpDuration)
    ensures
        a@ >= 0 && b@ >= 0 ==> add_durations(a, b)@ >= a@ && add_durations(a, b)@ >= b@,
        a@ <= 0 && b@ <= 0 ==> add_durations(a, b)@ <= a@ && add_durations(a, b)@ <= b@,
        a@ >= 0 && b@ <= 0 ==> sub_durations(a, b)@ >= a@,
        a@ <= 0 && b@ >= 0 ==> sub_durations(a, b)@ <= a@,
{
    NtpDuration::lemma_spec_new(saturate_i64(a@ + b@));
    NtpDuration::lemma_spec_new(saturate_i64(a@ - b@));
}

/// Where a sum does not saturate, subtracting the addend undoes it.
pub proof fn law_duration_add_sub_inverse(a: NtpDuration, b: NtpDuration)
    requires
        i64::MIN <= a@ + b@ <= i64::MAX,
    ensures
        sub_durations(add_durations(a, b), b) == a,
{
    NtpDuration::lemma_spec_new(saturate_i64(a@ + b@));
    NtpDuration::lemma_spec_new(saturate_i64(saturate_i64(a@ + b@) - b@));
    NtpDuration::lemma_view_determines(a);
}

/// Where a product does not saturate, dividing by the factor undoes it.
pub proof fn law_scale_then_divide(d: NtpDuration, k: int)
    requires
        k != 0,
        i64::MIN <= d@ * k <= i64::MAX,
    ensures
        divided(scaled(d, k), k) == d,
{
    let p = d@ * k;
    NtpDuration::lemma_spec_new(saturate_i64(p));
    assert(div_toward_zero(p, k) == d@) by {
        lemma_div_toward_zero_of_product(d@ as int, k);
    }
    NtpDuration::lemma_spec_new(d@);
    NtpDuration::lemma_view_determines(d);
}

/// `(x * k)` divided toward zero by `k` is `x`.
proof fn lemma_div_toward_zero_of_product(x: int, k: int)
    requires
        k != 0,
    ensures
        div_toward_zero(x * k, k) == x,
{
    let n = if x >= 0 { x } else { -x };
    let m = if k > 0 { k } else { -k };
    lemma_div_multiples_vanish(n, m);
    assert(m * n == n * m) by (nonlinear_arith);
    if x >= 0 && k > 0 {
        assert(x * k == n * m);
    } else if x >= 0 && k < 0 {
        assert(x * k == -(n * m)) by (nonlinear_arith)
            requires
                n == x,
                m == -k,
        ;
        assert(n * m >= 0) by (nonlinear_arith)
            requires
                n >= 0,
                m > 0,
        ;
    } else if x < 0 && k > 0 {
        assert(x * k == -(n * m)) by (nonlinear_arith)
            requires
                n == -x,
                m == k,
        ;
        assert(n * m > 0) by (nonlinear_arith)
            requires
                n > 0,
                m > 0,
        ;
    } else {
        assert(x * k == n * m) by (nonlinear_arith)
            requires
                n == -x,
                m == -k,
        ;
    }
    if x * k >= 0 && k < 0 {
        assert((x * k) / k == -((x * k) / (-k))) by (nonlinear_arith)
            requires
                x * k >= 0,
                k < 0,
        ;
    }
    if x * k < 0 && k < 0 {
        assert((-(x * k)) / k == -((-(x * k)) / (-k))) by (nonlinear_arith)
            requires
                -(x * k) > 0,
                k < 0,
        ;
    }
}

/// A tolerance of one million parts per million leaves a duration unchanged
/// where the intermediate product does not saturate.
pub proof fn law_full_tolerance_is_identity(d: NtpDuration)
    requires
        i64::MIN <= d@ * 1_000_000 <= i64::MAX,
    ensures
        tolerance_over(d, 1_000_000) == d,
{
    lemma_div_toward_zero_of_product(d@ as int, 1_000_000);
    NtpDuration::lemma_spec_new(d@);
    NtpDuration::lemma_view_determines(d);
}

/// Every exponent from -32 up gives a positive duration.
pub proof fn law_from_exponent_positive(input: i8)
    requires
        input >= -32,
    ensures
        exponent_duration(input) > 0,
{
    if input <= 30 {
        lemma_pow2_pos((32 + input) as nat);
    }
}

/// An exponent `e` from 0 to 30 gives exactly 2^e whole seconds; an exponent
/// from -32 to 0 gives the fraction 2^e of a second.
pub proof fn law_from_exponent_is_power_of_two_seconds(input: i8)
    requires
        -32 <= input <= 30,
    ensures
        input >= 0 ==> exponent_duration(input) / pow2_32() == pow2(input as nat)
            && exponent_duration(input) % pow2_32() == 0,
        input <= 0 ==> exponent_duration(input) * pow2((-input) as nat) == pow2_32(),
{
    lemma2_to64();
    if input >= 0 {
        lemma_pow2_adds(input as nat, 32);
        lemma_pow2_pos(input as nat);
        lemma_fundamental_div_mod_converse(
            pow2((32 + input) as nat) as int,
            pow2_32(),
            pow2(input as nat) as int,
            0,
        );
    } else {
        lemma_pow2_adds((32 + input) as nat, (-input) as nat);
    }
}

/// `inc` never goes above the largest interval nor `dec` below the
/// smallest; both keep an interval within the bounds, and each is fixed at
/// its own bound.
pub proof fn law_poll_interval_clamps(log: i8)
    ensures
        log < i8::MAX ==> poll_inc(log) <= max_poll_log(),
        log > i8::MIN ==> poll_dec(log) >= min_poll_log(),
        min_poll_log() <= log <= max_poll_log() ==> min_poll_log() <= poll_inc(log)
            <= max_poll_log() && min_poll_log() <= poll_dec(log) <= max_poll_log(),
        poll_inc(max_poll_log()) == max_poll_log(),
        poll_dec(min_poll_log()) == min_poll_log(),
        min_poll_log() <= log < max_poll_log() ==> poll_inc(log) == log + 1,
        min_poll_log() < log <= max_poll_log() ==> poll_dec(log) == log - 1,
{
}

/// A poll interval's `NtpDuration` holds exactly the whole seconds of its
/// `std::time::Duration`: 2^log seconds and no fraction.
pub proof fn law_poll_durations_agree(log: i8)
    requires
        0 <= log <= 30,
    ensures
        poll_duration(log) / pow2_32() == pow2(log as nat),
        poll_duration(log) % pow2_32() == 0,
{
    lemma2_to64();
    lemma_pow2_adds(log as nat, 32);
    lemma_pow2_pos(log as nat);
    lemma_fundamental_div_mod_converse(
        pow2((log + 32) as nat) as int,
        pow2_32(),
        pow2(log as nat) as int,
        0,
    );
}

/// The duration built from whole seconds and a fraction has the sign of the
/// whole seconds.
pub proof fn law_whole_and_fraction_sign(whole: i64, fraction: i64)
    requires
        0 <= fraction <= u32::MAX,
    ensures
        whole >= 0 ==> whole_and_fraction_duration(whole, fraction) >= 0,
        whole < 0 ==> whole_and_fraction_duration(whole, fraction) < 0,
{
    if i32::MIN <= whole <= i32::MAX {
        assert(whole >= 0 ==> whole * pow2_32() >= 0) by (nonlinear_arith);
        assert(whole < 0 ==> whole * pow2_32() <= -pow2_32()) by (nonlinear_arith);
    }
}

/// Splitting a duration built from seconds and nanoseconds gives back the
/// seconds, and the nanoseconds up to one lost to rounding.
pub proof fn law_secs_nanos_roundtrip(seconds: u64, nanos: u32)
    requires
        seconds <= i32::MAX,
        nanos < 1_000_000_000,
    ensures
        secs_nanos_duration(seconds, nanos) as int / pow2_32() == seconds,
        nanos - 1 <= (secs_nanos_duration(seconds, nanos) as int % pow2_32()) * 1_000_000_000
            / pow2_32() <= nanos,
{
    let f = nanos_to_fraction(nanos as int);
    lemma_nanos_to_fraction_bound(nanos as int);
    lemma_fundamental_div_mod_converse(seconds as int, pow2_32(), 0, seconds as int);
    let v = fixed_point_value(seconds, nanos);
    assert(v == seconds * pow2_32() + f);
    assert(v <= i64::MAX) by (nonlinear_arith)
        requires
            v == seconds * 0x1_0000_0000 + f,
            0 <= seconds <= 0x7fff_ffff,
            0 <= f < 0x1_0000_0000,
    ;
    lemma_wrap_i64(v);
    lemma_fundamental_div_mod_converse(v, pow2_32(), seconds as int, f);
    lemma_fundamental_div_mod(nanos * pow2_32(), 1_000_000_000);
    lemma_mod_bound(nanos * pow2_32(), 1_000_000_000);
    let n = nanos as int;
    let rem = (n * pow2_32()) % 1_000_000_000;
    assert(n * 0x1_0000_0000 == 1_000_000_000 * f + rem);
    assert(n - 1 <= f * 1_000_000_000 / 0x1_0000_0000 <= n) by (nonlinear_arith)
        requires
            n * 0x1_0000_0000 == 1_000_000_000 * f + rem,
            0 <= rem < 1_000_000_000,
            f >= 0,
    ;
}

/// Whole seconds within the range of `i32` and a fraction of a second make
/// exactly `whole * 2^32 + fraction`, so whole seconds of zero give the
/// fraction itself; only whole seconds outside that range saturate.
pub proof fn law_whole_and_fraction_value(whole: i64, fraction: i64)
    requires
        0 <= fraction <= u32::MAX,
    ensures
        i32::MIN <= whole <= i32::MAX ==> whole_and_fraction_duration(whole, fraction) == whole
            * 0x1_0000_0000 + fraction,
        whole == 0 ==> whole_and_fraction_duration(whole, fraction) == fraction,
        whole < i32::MIN ==> whole_and_fraction_duration(whole, fraction) == i64::MIN,
        whole > i32::MAX ==> whole_and_fraction_duration(whole, fraction) == i64::MAX,
{
    if i32::MIN <= whole <= i32::MAX {
        assert(i64::MIN <= whole * 0x1_0000_0000 + fraction <= i64::MAX) by (nonlinear_arith)
            requires
                -0x8000_0000 <= whole <= 0x7fff_ffff,
                0 <= fraction <= 0xffff_ffff,
        ;
    }
}

/// Two's-complement wrapping keeps every value in the range of `i64` and
/// changes any other value only by a multiple of 2^64.
pub proof fn law_wrap_i64_is_twos_complement(x: int)
    ensures
        i64::MIN <= x <= i64::MAX ==> wrap_i64(x) == x,
        (wrap_i64(x) - x) % pow2_64() == 0,
{
    let m = pow2_64();
    lemma_fundamental_div_mod(x, m);
    lemma_mod_bound(x, m);
    let q = x / m;
    let r = x % m;
    if r > i64::MAX {
        assert(wrap_i64(x) - x == (-q - 1) * m) by (nonlinear_arith)
            requires
                x == m * q + r,
                wrap_i64(x) == r - m,
        ;
        lemma_mod_multiples_basic(-q - 1, m);
    } else {
        assert(wrap_i64(x) - x == (-q) * m) by (nonlinear_arith)
            requires
                x == m * q + r,
                wrap_i64(x) == r,
        ;
        lemma_mod_multiples_basic(-q, m);
    }
    if i64::MIN <= x <= i64::MAX {
        lemma_wrap_i64(x);
    }
}

/// A duration built from seconds and nanoseconds is the fixed-point value
/// `seconds * 2^32 + nanos * 2^32 / 10^9` up to whole eras of 2^64, and is
/// exactly that value below 2^31 seconds.
pub proof fn law_secs_nanos_value(seconds: u64, nanos: u32)
    requires
        nanos < 1_000_000_000,
    ensures
        (secs_nanos_duration(seconds, nanos) - (seconds * 0x1_0000_0000 + nanos * 0x1_0000_0000
            / 1_000_000_000)) % pow2_64() == 0,
        seconds < 0x8000_0000 ==> secs_nanos_duration(seconds, nanos) == seconds * 0x1_0000_0000
            + nanos * 0x1_0000_0000 / 1_000_000_000,
{
    let m = pow2_64();
    let f = nanos * 0x1_0000_0000 / 1_000_000_000;
    let v = fixed_point_value(seconds, nanos);
    let exact = seconds * 0x1_0000_0000 + f;
    lemma_fundamental_div_mod(seconds as int, pow2_32());
    let q = (seconds as int) / pow2_32();
    assert(exact - v == q * m) by (nonlinear_arith)
        requires
            seconds == pow2_32() * q + (seconds as int % pow2_32()),
            v == (seconds as int % pow2_32()) * pow2_32() + f,
            exact == seconds * 0x1_0000_0000 + f,
            pow2_32() == 0x1_0000_0000,
            m == 0x1_0000_0000_0000_0000,
    ;
    law_wrap_i64_is_twos_complement(v);
    let w = secs_nanos_duration(seconds, nanos) as int;
    lemma_fundamental_div_mod(w - v, m);
    assert(w - exact == (w - v) - q * m);
    lemma_mod_sub_multiples_vanish_general(w - v, q, m);
    if seconds < 0x8000_0000 {
        crate::duration::lemma_secs_nanos_duration_nonnegative(seconds, nanos);
    }
}

/// `(a - q * m) % m == a % m`.
proof fn lemma_mod_sub_multiples_vanish_general(a: int, q: int, m: int)
    requires
        m > 0,
    ensures
        (a - q * m) % m == a % m,
{
    lemma_mod_multiples_vanish(-q, a, m);
    assert(m * (-q) + a == a - q * m) by (nonlinear_arith);
}

/// Below 2^31 seconds of elapsed time, the difference of two instants is
/// exactly the elapsed time in fixed point: its whole seconds are the
/// elapsed whole seconds, and its fraction rounds down the elapsed
/// nanoseconds.
pub proof fn law_instant_difference_value(a: NtpInstant, b: NtpInstant)
    requires
        duration_secs(instant_distance(a.instant(), b.instant())) < 0x8000_0000,
        duration_subsec_nanos(instant_distance(a.instant(), b.instant())) < 1_000_000_000,
    ensures
        instant_difference(a, b)@ == duration_secs(instant_distance(a.instant(), b.instant()))
            * 0x1_0000_0000 + duration_subsec_nanos(instant_distance(a.instant(), b.instant()))
            * 0x1_0000_0000 / 1_000_000_000,
        (instant_difference(a, b)@ as int) / pow2_32() == duration_secs(
            instant_distance(a.instant(), b.instant()),
        ),
        instant_difference(a, b)@ >= 0,
{
    let e = instant_distance(a.instant(), b.instant());
    let s = duration_secs(e);
    let n = duration_subsec_nanos(e);
    crate::duration::lemma_secs_nanos_duration_nonnegative(s, n);
    NtpDuration::lemma_spec_new(secs_nanos_duration(s, n));
    law_secs_nanos_roundtrip(s, n);
}

} // verus!
