use lib::{NtpDuration, NtpTimestamp, PollInterval};

#[test]
fn test_timestamp_sub() {
    let a = NtpTimestamp::from_fixed_int(5);
    let b = NtpTimestamp::from_fixed_int(3);
    assert_eq!(a - b, NtpDuration::from_fixed_int(2));
    assert_eq!(b - a, NtpDuration::from_fixed_int(-2));
}

#[test]
fn test_timestamp_era_change() {
    let mut a = NtpTimestamp::from_fixed_int(1);
    let b = NtpTimestamp::from_fixed_int(0xFFFFFFFFFFFFFFFF);
    assert_eq!(a - b, NtpDuration::from_fixed_int(2));
    assert_eq!(b - a, NtpDuration::from_fixed_int(-2));

    let c = NtpDuration::from_fixed_int(2);
    let d = NtpDuration::from_fixed_int(-2);
    assert_eq!(b + c, a);
    assert_eq!(b - d, a);
    assert_eq!(a - c, b);
    assert_eq!(a + d, b);

    a -= c;
    assert_eq!(a, b);
    a += c;
    assert_eq!(a, NtpTimestamp::from_fixed_int(1));
}

#[test]
fn test_timestamp_from_seconds_nanos() {
    assert_eq!(
        NtpTimestamp::from_seconds_nanos_since_ntp_era(0, 500_000_000),
        NtpTimestamp::from_fixed_int(0x80000000)
    );
    assert_eq!(
        NtpTimestamp::from_seconds_nanos_since_ntp_era(1, 0),
        NtpTimestamp::from_fixed_int(1 << 32)
    );
}

#[test]
fn test_timestamp_duration_math() {
    let mut a = NtpTimestamp::from_fixed_int(5);
    let b = NtpDuration::from_fixed_int(2);
    assert_eq!(a + b, NtpTimestamp::from_fixed_int(7));
    assert_eq!(a - b, NtpTimestamp::from_fixed_int(3));
    a += b;
    assert_eq!(a, NtpTimestamp::from_fixed_int(7));
    a -= b;
    assert_eq!(a, NtpTimestamp::from_fixed_int(5));
}

#[test]
fn test_duration_as_seconds_nanos() {
    assert_eq!(
        NtpDuration::from_fixed_int(0x80000000).as_seconds_nanos(),
        (0, 500_000_000)
    );
    assert_eq!(
        NtpDuration::from_fixed_int(1 << 33).as_seconds_nanos(),
        (2, 0)
    );
}

#[test]
fn test_duration_math() {
    let mut a = NtpDuration::from_fixed_int(5);
    let b = NtpDuration::from_fixed_int(2);
    assert_eq!(a + b, NtpDuration::from_fixed_int(7));
    assert_eq!(a - b, NtpDuration::from_fixed_int(3));
    a += b;
    assert_eq!(a, NtpDuration::from_fixed_int(7));
    a -= b;
    assert_eq!(a, NtpDuration::from_fixed_int(5));
}

#[test]
fn ntp_duration_scaling_i8() {
    let mut a = NtpDuration::from_fixed_int(31);
    let b: i8 = 2;
    assert_eq!(a * b, NtpDuration::from_fixed_int(62));
    assert_eq!(b * a, NtpDuration::from_fixed_int(62));
    assert_eq!(a / b, NtpDuration::from_fixed_int(15));
    a /= b;
    assert_eq!(a, NtpDuration::from_fixed_int(15));
    a *= b;
    assert_eq!(a, NtpDuration::from_fixed_int(30));
}

#[test]
fn ntp_duration_scaling_i16() {
    let mut a = NtpDuration::from_fixed_int(31);
    let b: i16 = 2;
    assert_eq!(a * b, NtpDuration::from_fixed_int(62));
    assert_eq!(b * a, NtpDuration::from_fixed_int(62));
    assert_eq!(a / b, NtpDuration::from_fixed_int(15));
    a /= b;
    assert_eq!(a, NtpDuration::from_fixed_int(15));
    a *= b;
    assert_eq!(a, NtpDuration::from_fixed_int(30));
}

#[test]
fn ntp_duration_scaling_i32() {
    let mut a = NtpDuration::from_fixed_int(31);
    let b: i32 = 2;
    assert_eq!(a * b, NtpDuration::from_fixed_int(62));
    assert_eq!(b * a, NtpDuration::from_fixed_int(62));
    assert_eq!(a / b, NtpDuration::from_fixed_int(15));
    a /= b;
    assert_eq!(a, NtpDuration::from_fixed_int(15));
    a *= b;
    assert_eq!(a, NtpDuration::from_fixed_int(30));
}

#[test]
fn ntp_duration_scaling_i64() {
    let mut a = NtpDuration::from_fixed_int(31);
    let b: i64 = 2;
    assert_eq!(a * b, NtpDuration::from_fixed_int(62));
    assert_eq!(b * a, NtpDuration::from_fixed_int(62));
    assert_eq!(a / b, NtpDuration::from_fixed_int(15));
    a /= b;
    assert_eq!(a, NtpDuration::from_fixed_int(15));
    a *= b;
    assert_eq!(a, NtpDuration::from_fixed_int(30));
}

#[test]
fn ntp_duration_scaling_isize() {
    let mut a = NtpDuration::from_fixed_int(31);
    let b: isize = 2;
    assert_eq!(a * b, NtpDuration::from_fixed_int(62));
    assert_eq!(b * a, NtpDuration::from_fixed_int(62));
    assert_eq!(a / b, NtpDuration::from_fixed_int(15));
    a /= b;
    assert_eq!(a, NtpDuration::from_fixed_int(15));
    a *= b;
    assert_eq!(a, NtpDuration::from_fixed_int(30));
}

#[test]
fn ntp_duration_scaling_u8() {
    let mut a = NtpDuration::from_fixed_int(31);
    let b: u8 = 2;
    assert_eq!(a * b, NtpDuration::from_fixed_int(62));
    assert_eq!(b * a, NtpDuration::from_fixed_int(62));
    assert_eq!(a / b, NtpDuration::from_fixed_int(15));
    a /= b;
    assert_eq!(a, NtpDuration::from_fixed_int(15));
    a *= b;
    assert_eq!(a, NtpDuration::from_fixed_int(30));
}

#[test]
fn ntp_duration_scaling_u16() {
    let mut a = NtpDuration::from_fixed_int(31);
    let b: u16 = 2;
    assert_eq!(a * b, NtpDuration::from_fixed_int(62));
    assert_eq!(b * a, NtpDuration::from_fixed_int(62));
    assert_eq!(a / b, NtpDuration::from_fixed_int(15));
    a /= b;
    assert_eq!(a, NtpDuration::from_fixed_int(15));
    a *= b;
    assert_eq!(a, NtpDuration::from_fixed_int(30));
}

#[test]
fn ntp_duration_scaling_u32() {
    let mut a = NtpDuration::from_fixed_int(31);
    let b: u32 = 2;
    assert_eq!(a * b, NtpDuration::from_fixed_int(62));
    assert_eq!(b * a, NtpDuration::from_fixed_int(62));
    assert_eq!(a / b, NtpDuration::from_fixed_int(15));
    a /= b;
    assert_eq!(a, NtpDuration::from_fixed_int(15));
    a *= b;
    assert_eq!(a, NtpDuration::from_fixed_int(30));
}

#[test]
fn duration_from_exponent_reasonable() {
    for i in -32..=127 {
        assert!(NtpDuration::from_exponent(i) > NtpDuration::from_fixed_int(0));
    }
    for i in -128..-32 {
        NtpDuration::from_exponent(i); // should not crash
    }
}

#[test]
fn poll_interval_clamps() {
    let mut interval = PollInterval::default();
    for _ in 0..100 {
        interval = interval.inc();
        assert!(interval <= PollInterval::max_value());
    }
    for _ in 0..100 {
        interval = interval.dec();
        assert!(interval >= PollInterval::min_value());
    }
    for _ in 0..100 {
        interval = interval.inc();
        assert!(interval <= PollInterval::max_value());
    }
}

#[test]
fn poll_interval_to_duration() {
    assert_eq!(
        PollInterval(4).as_duration(),
        NtpDuration::from_fixed_int(16 << 32)
    );
    assert_eq!(
        PollInterval(5).as_duration(),
        NtpDuration::from_fixed_int(32 << 32)
    );

    let mut interval = PollInterval::default();
    for _ in 0..100 {
        assert_eq!(
            interval.as_duration().as_seconds_nanos().0,
            interval.as_system_duration().as_secs() as i32
        );
        interval = interval.inc();
    }

    for _ in 0..100 {
        assert_eq!(
            interval.as_duration().as_seconds_nanos().0,
            interval.as_system_duration().as_secs() as i32
        );
        interval = interval.dec();
    }
}
