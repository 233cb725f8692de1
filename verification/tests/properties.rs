use std::time::Duration;

use lib::arith::{u32_from_be_bytes, u32_to_be_bytes, u64_from_be_bytes, u64_to_be_bytes};
use lib::{FrequencyTolerance, NtpDuration, NtpInstant, NtpTimestamp, PollInterval};

const SECOND: i64 = 1 << 32;

#[test]
fn timestamp_add_then_difference_gives_duration() {
    let a = NtpTimestamp::from_fixed_int(0xFFFF_FFFF_FFFF_FFF0);
    for raw in [0i64, 1, -1, 0x20, -0x20, i64::MAX, i64::MIN] {
        let d = NtpDuration::from_fixed_int(raw);
        assert_eq!((a + d) - a, d);
        assert_eq!((a + d) - d, a);
        assert_eq!((a - d) + d, a);
    }
}

#[test]
fn timestamp_difference_then_add_gives_timestamp() {
    let a = NtpTimestamp::from_fixed_int(7);
    let b = NtpTimestamp::from_fixed_int(0xFFFF_FFFF_0000_0000);
    assert_eq!(b + (a - b), a);
    assert_eq!(a + (b - a), b);
}

#[test]
fn timestamp_difference_at_half_era() {
    let a = NtpTimestamp::from_fixed_int(0x8000_0000_0000_0000);
    let b = NtpTimestamp::from_fixed_int(0);
    assert_eq!(a - b, NtpDuration::from_fixed_int(i64::MIN));
    assert_eq!(b - a, NtpDuration::from_fixed_int(i64::MIN));
}

#[test]
fn timestamp_wire_format() {
    let t = NtpTimestamp::from_fixed_int(0x0102_0304_0506_0708);
    assert_eq!(t.to_bits(), [1, 2, 3, 4, 5, 6, 7, 8]);
    assert_eq!(NtpTimestamp::from_bits([1, 2, 3, 4, 5, 6, 7, 8]), t);
    assert_eq!(NtpTimestamp::from_bits(t.to_bits()), t);
}

#[test]
fn timestamp_default_is_zero() {
    assert_eq!(NtpTimestamp::default(), NtpTimestamp::from_fixed_int(0));
}

#[test]
fn timestamp_from_seconds_nanos_rounds_down() {
    // 1 ns is 4.29... units of 2^-32 s
    assert_eq!(
        NtpTimestamp::from_seconds_nanos_since_ntp_era(3, 1),
        NtpTimestamp::from_fixed_int((3 << 32) + 4)
    );
    assert_eq!(
        NtpTimestamp::from_seconds_nanos_since_ntp_era(u32::MAX, 999_999_999),
        NtpTimestamp::from_fixed_int(0xFFFF_FFFF_FFFF_FFFB)
    );
}

#[test]
fn duration_wire_formats() {
    assert_eq!(
        NtpDuration::from_bits([0xFF; 8]),
        NtpDuration::from_fixed_int(-1)
    );
    assert_eq!(
        NtpDuration::from_bits([0, 0, 0, 1, 0, 0, 0, 0]),
        NtpDuration::from_fixed_int(SECOND)
    );
    assert_eq!(
        NtpDuration::from_bits_short([0, 1, 0x80, 0]),
        NtpDuration::from_fixed_int(SECOND + SECOND / 2)
    );
    assert_eq!(
        NtpDuration::from_fixed_int(SECOND + SECOND / 2 + 0xFFFF).to_bits_short(),
        [0, 1, 0x80, 0]
    );
    assert_eq!(
        NtpDuration::from_bits_short(NtpDuration::from_fixed_int(0x1234_5678_9ABC).to_bits_short()),
        NtpDuration::from_fixed_int(0x1234_5678_0000)
    );
}

#[test]
fn duration_constants() {
    assert_eq!(NtpDuration::zero(), NtpDuration::from_fixed_int(0));
    assert_eq!(NtpDuration::default(), NtpDuration::zero());
    assert_eq!(NtpDuration::one(), NtpDuration::from_fixed_int(SECOND));
    assert_eq!(NtpDuration::max_dispersion(), NtpDuration::from_fixed_int(16 * SECOND));
    assert_eq!(NtpDuration::min_dispersion(), NtpDuration::from_fixed_int(21474836));
    assert_eq!(NtpDuration::from_fixed_int(-77).to_fixed_int(), -77);
}

#[test]
fn duration_as_seconds_nanos_negative() {
    // -0.5 s is -1 s plus 500_000_000 ns
    assert_eq!(
        NtpDuration::from_fixed_int(-SECOND / 2).as_seconds_nanos(),
        (-1, 500_000_000)
    );
    assert_eq!(
        NtpDuration::from_fixed_int(i64::MIN).as_seconds_nanos(),
        (i32::MIN, 0)
    );
    assert_eq!(
        NtpDuration::from_fixed_int(i64::MAX).as_seconds_nanos(),
        (i32::MAX, 999_999_999)
    );
}

#[test]
fn duration_from_exponent_values() {
    assert_eq!(NtpDuration::from_exponent(0), NtpDuration::from_fixed_int(SECOND));
    assert_eq!(NtpDuration::from_exponent(1), NtpDuration::from_fixed_int(2 * SECOND));
    assert_eq!(NtpDuration::from_exponent(30), NtpDuration::from_fixed_int(SECOND << 30));
    assert_eq!(NtpDuration::from_exponent(31), NtpDuration::from_fixed_int(i64::MAX));
    assert_eq!(NtpDuration::from_exponent(-1), NtpDuration::from_fixed_int(SECOND / 2));
    assert_eq!(NtpDuration::from_exponent(-32), NtpDuration::from_fixed_int(1));
    assert_eq!(NtpDuration::from_exponent(-33), NtpDuration::from_fixed_int(0));
    assert_eq!(NtpDuration::from_exponent(17).as_seconds_nanos(), (1 << 17, 0));
}

#[test]
fn duration_from_system_duration() {
    assert_eq!(
        NtpDuration::from_system_duration(Duration::new(1, 500_000_000)),
        NtpDuration::from_fixed_int(SECOND + SECOND / 2)
    );
    // whole seconds beyond 2^32 wrap
    assert_eq!(
        NtpDuration::from_system_duration(Duration::from_secs((1 << 32) + 3)),
        NtpDuration::from_fixed_int(3 * SECOND)
    );
    // 2^31 seconds reads as a negative duration
    assert_eq!(
        NtpDuration::from_system_duration(Duration::from_secs(1 << 31)),
        NtpDuration::from_fixed_int(i64::MIN)
    );
    assert_eq!(
        NtpDuration::from_secs_nanos(2, 250_000_000),
        NtpDuration::from_fixed_int(2 * SECOND + SECOND / 4)
    );
}

#[test]
fn duration_seconds_nanos_roundtrip() {
    let (s, n) = NtpDuration::from_secs_nanos(12, 345_678_901).as_seconds_nanos();
    assert_eq!(s, 12);
    assert!(n == 345_678_901 || n == 345_678_900);
}

#[test]
fn duration_from_whole_and_fraction() {
    assert_eq!(
        NtpDuration::from_whole_and_fraction(1, 0x8000_0000),
        NtpDuration::from_fixed_int(SECOND + SECOND / 2)
    );
    assert_eq!(
        NtpDuration::from_whole_and_fraction(-1, 0x8000_0000),
        NtpDuration::from_fixed_int(-SECOND / 2)
    );
    assert_eq!(
        NtpDuration::from_whole_and_fraction(1 << 40, 0),
        NtpDuration::from_fixed_int(i64::MAX)
    );
    assert_eq!(
        NtpDuration::from_whole_and_fraction(-(1 << 40), 0),
        NtpDuration::from_fixed_int(i64::MIN)
    );
}

#[test]
fn duration_addition_saturates() {
    let big = NtpDuration::from_fixed_int(i64::MAX - 1);
    let small = NtpDuration::from_fixed_int(i64::MIN + 1);
    assert_eq!(big + big, NtpDuration::from_fixed_int(i64::MAX));
    assert_eq!(small + small, NtpDuration::from_fixed_int(i64::MIN));
    assert_eq!(big - small, NtpDuration::from_fixed_int(i64::MAX));
    assert_eq!(small - big, NtpDuration::from_fixed_int(i64::MIN));
    let mut a = big;
    a += big;
    assert_eq!(a, NtpDuration::from_fixed_int(i64::MAX));
    a -= small;
    assert_eq!(a, NtpDuration::from_fixed_int(i64::MAX));
    let x = NtpDuration::from_fixed_int(12);
    let y = NtpDuration::from_fixed_int(-30);
    assert_eq!(x + y, y + x);
    assert_eq!((x + y) - y, x);
}

#[test]
fn duration_scaling_saturates_and_truncates() {
    let a = NtpDuration::from_fixed_int(i64::MAX / 2 + 1);
    assert_eq!(a * 2i32, NtpDuration::from_fixed_int(i64::MAX));
    assert_eq!(-3i8 * a, NtpDuration::from_fixed_int(i64::MIN));
    assert_eq!(a * u32::MAX, NtpDuration::from_fixed_int(i64::MAX));
    let b = NtpDuration::from_fixed_int(-7);
    assert_eq!(b / 2i64, NtpDuration::from_fixed_int(-3));
    assert_eq!(b / -2i16, NtpDuration::from_fixed_int(3));
    assert_eq!(NtpDuration::from_fixed_int(7) / -2isize, NtpDuration::from_fixed_int(-3));
    assert_eq!((b * 5u8) / 5u8, b);
    let mut c = NtpDuration::from_fixed_int(i64::MIN);
    c /= 2u16;
    assert_eq!(c, NtpDuration::from_fixed_int(i64::MIN / 2));
    c *= -1i64;
    assert_eq!(c, NtpDuration::from_fixed_int(i64::MAX / 2 + 1));
}

#[test]
fn frequency_tolerance_scales_by_parts_per_million() {
    let one = NtpDuration::from_fixed_int(SECOND);
    assert_eq!(one * FrequencyTolerance::ppm(1_000_000), one);
    assert_eq!(
        NtpDuration::from_fixed_int(1_000_000) * FrequencyTolerance::ppm(15),
        NtpDuration::from_fixed_int(15)
    );
    assert_eq!(
        NtpDuration::from_fixed_int(-1_999_999) * FrequencyTolerance::ppm(1),
        NtpDuration::from_fixed_int(-1)
    );
    // the product saturates before the division
    assert_eq!(
        NtpDuration::from_fixed_int(i64::MAX) * FrequencyTolerance::ppm(2_000_000),
        NtpDuration::from_fixed_int(i64::MAX / 1_000_000)
    );
}

#[test]
fn poll_interval_bounds_and_logs() {
    assert_eq!(PollInterval::default(), PollInterval::min_value());
    assert_eq!(PollInterval::min_value().as_log(), 4);
    assert_eq!(PollInterval::max_value().as_log(), 17);
    assert_eq!(PollInterval::max_value().inc(), PollInterval::max_value());
    assert_eq!(PollInterval::min_value().dec(), PollInterval::min_value());
    assert_eq!(PollInterval(10).inc(), PollInterval(11));
    assert_eq!(PollInterval(10).dec(), PollInterval(9));
    assert_eq!(PollInterval(-20).inc(), PollInterval(-19));
    assert_eq!(PollInterval(100).dec(), PollInterval(99));
    assert_eq!(PollInterval(100).inc(), PollInterval::max_value());
}

#[test]
fn poll_interval_durations() {
    assert_eq!(PollInterval(0).as_duration(), NtpDuration::from_fixed_int(SECOND));
    assert_eq!(PollInterval(-32).as_duration(), NtpDuration::from_fixed_int(1));
    assert_eq!(PollInterval(31).as_duration(), NtpDuration::from_fixed_int(i64::MIN));
    assert_eq!(PollInterval(0).as_system_duration(), Duration::from_secs(1));
    assert_eq!(PollInterval(63).as_system_duration(), Duration::from_secs(1 << 63));
}

#[test]
fn instant_arithmetic() {
    let a = NtpInstant::now();
    let b = a + Duration::new(2, 500_000_000);
    assert_eq!(b - a, NtpDuration::from_fixed_int(2 * SECOND + SECOND / 2));
    assert_eq!(a - b, NtpDuration::from_fixed_int(2 * SECOND + SECOND / 2));
    assert_eq!(a - a, NtpDuration::zero());
    assert_eq!(a.checked_add(Duration::new(2, 500_000_000)), Some(b));
    assert_eq!(a.checked_add(Duration::MAX), None);
    assert!(NtpInstant::now() >= a);
}

#[test]
fn byte_order_helpers() {
    assert_eq!(u64_from_be_bytes([0, 0, 0, 0, 0, 0, 1, 2]), 0x0102);
    assert_eq!(u64_to_be_bytes(0x0102), [0, 0, 0, 0, 0, 0, 1, 2]);
    assert_eq!(u32_from_be_bytes([0xDE, 0xAD, 0xBE, 0xEF]), 0xDEAD_BEEF);
    assert_eq!(u32_to_be_bytes(0xDEAD_BEEF), [0xDE, 0xAD, 0xBE, 0xEF]);
}

#[test]
fn duration_from_exponent_negative_five() {
    // 2^-5 seconds is 2^27 units of 2^-32 seconds
    assert_eq!(NtpDuration::from_exponent(-5), NtpDuration::from_fixed_int(1 << 27));
    assert_eq!(
        NtpDuration::from_exponent(-5) * 32i32,
        NtpDuration::from_fixed_int(SECOND)
    );
}

#[test]
fn duration_short_format_saturates() {
    assert_eq!(
        NtpDuration::from_fixed_int(0x0001_0000_0000_0000).to_bits_short(),
        [0xFF, 0xFF, 0xFF, 0xFF]
    );
    assert_eq!(
        NtpDuration::from_fixed_int(i64::MAX).to_bits_short(),
        [0xFF, 0xFF, 0xFF, 0xFF]
    );
    assert_eq!(
        NtpDuration::from_fixed_int(0x0000_FFFF_FFFF_FFFF).to_bits_short(),
        [0xFF, 0xFF, 0xFF, 0xFF]
    );
}

#[test]
fn instant_difference_ignores_order() {
    let a = NtpInstant::now();
    let b = a + Duration::from_millis(1500);
    assert_eq!(a - b, b - a);
    assert_eq!(b - b, NtpDuration::zero());
    assert!(a - b >= NtpDuration::zero());
}
