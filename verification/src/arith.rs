//! Integer helpers shared by the time types: saturating and truncating
//! arithmetic on `i64`, two's-complement wrapping, and big-endian byte
//! encodings.

use vstd::prelude::*;
use vstd::arithmetic::div_mod::*;
use vstd::arithmetic::power2::*;
use vstd::bits::*;

verus! {

/// 2^32: one second in NTP's 32.32 fixed-point format.
pub open spec fn pow2_32() -> int {
    0x1_0000_0000
}

/// 2^64: the modulus of an NTP era.
pub open spec fn pow2_64() -> int {
    0x1_0000_0000_0000_0000
}

/// `x` clamped to the range of `i64`.
pub open spec fn saturate_i64(x: int) -> i64 {
    if x > i64::MAX {
        i64::MAX
    } else if x < i64::MIN {
        i64::MIN
    } else {
        x as i64
    }
}

/// Quotient of `a` by `b`, rounded toward zero (Rust's integer division).
pub open spec fn div_toward_zero(a: int, b: int) -> int {
    if a >= 0 {
        a / b
    } else {
        -((-a) / b)
    }
}

/// `x` reduced modulo 2^64 into the range of `u64`.
pub open spec fn wrap_u64(x: int) -> u64 {
    (x % pow2_64()) as u64
}

/// `x` reduced modulo 2^64 into the range of `i64` (two's complement).
pub open spec fn wrap_i64(x: int) -> i64 {
    let m = x % pow2_64();
    if m > i64::MAX {
        (m - pow2_64()) as i64
    } else {
        m as i64
    }
}

pub fn saturating_add_i64(a: i64, b: i64) -> (r: i64)
    ensures
        r == saturate_i64(a + b),
{
    let s: i128 = a as i128 + b as i128;
    if s > i64::MAX as i128 {
        i64::MAX
    } else if s < i64::MIN as i128 {
        i64::MIN
    } else {
        s as i64
    }
}

pub fn saturating_sub_i64(a: i64, b: i64) -> (r: i64)
    ensures
        r == saturate_i64(a - b),
{
    let s: i128 = a as i128 - b as i128;
    if s > i64::MAX as i128 {
        i64::MAX
    } else if s < i64::MIN as i128 {
        i64::MIN
    } else {
        s as i64
    }
}

pub fn saturating_mul_i64(a: i64, b: i64) -> (r: i64)
    ensures
        r == saturate_i64(a * b),
{
    assert(-0x4000_0000_0000_0000_0000_0000_0000_0000 <= (a as int) * (b as int)
        <= 0x4000_0000_0000_0000_0000_0000_0000_0000) by (nonlinear_arith)
        requires
            -0x8000_0000_0000_0000 <= a <= 0x7fff_ffff_ffff_ffff,
            -0x8000_0000_0000_0000 <= b <= 0x7fff_ffff_ffff_ffff,
    ;
    let p: i128 = (a as i128) * (b as i128);
    if p > i64::MAX as i128 {
        i64::MAX
    } else if p < i64::MIN as i128 {
        i64::MIN
    } else {
        p as i64
    }
}

/// For a nonnegative dividend, Euclidean division by a negative divisor is
/// the negated quotient by its absolute value.
proof fn lemma_div_by_negative(n: int, b: int)
    requires
        n >= 0,
        b < 0,
    ensures
        n / b == -(n / (-b)),
{
    assert(n / b == -(n / (-b))) by (nonlinear_arith)
        requires
            n >= 0,
            b < 0,
    ;
}

/// The truncated quotient of an `i64` by a nonzero `i64` fits in `i64`,
/// except for `i64::MIN / -1`.
pub proof fn lemma_div_toward_zero_fits(a: int, b: int)
    requires
        i64::MIN <= a <= i64::MAX,
        i64::MIN <= b <= i64::MAX,
        b != 0,
        !(a == i64::MIN && b == -1),
    ensures
        i64::MIN <= div_toward_zero(a, b) <= i64::MAX,
        a >= 0 ==> div_toward_zero(a, b) == (if b > 0 { a / b } else { -(a / (-b)) }),
        a < 0 ==> div_toward_zero(a, b) == (if b > 0 { -((-a) / b) } else { (-a) / (-b) }),
{
    let n: int = if a >= 0 { a } else { -a };
    let m: int = if b > 0 { b } else { -b };
    lemma_div_pos_is_pos(n, m);
    lemma_div_decreases_or_equal(n, m);
    if b < 0 {
        lemma_div_by_negative(n, b);
        if m >= 2 {
            lemma_div_halves(n, m);
        }
    }
}

/// `0 <= n / m <= n` for positive `m`.
proof fn lemma_div_decreases_or_equal(n: int, m: int)
    requires
        n >= 0,
        m >= 1,
    ensures
        0 <= n / m <= n,
{
    lemma_div_pos_is_pos(n, m);
    lemma_div_is_ordered_by_denominator(n, 1, m);
}

/// Dividing by at least 2 at least halves.
proof fn lemma_div_halves(n: int, m: int)
    requires
        n >= 0,
        m >= 2,
    ensures
        n / m <= n / 2,
{
    lemma_div_is_ordered_by_denominator(n, 2, m);
}

pub fn div_toward_zero_i64(a: i64, b: i64) -> (r: i64)
    requires
        b != 0,
        !(a == i64::MIN && b == -1),
    ensures
        r == div_toward_zero(a as int, b as int),
{
    proof {
        lemma_div_toward_zero_fits(a as int, b as int);
    }
    a / b
}

/// Reduction modulo 2^64 on the ranges that timestamp arithmetic produces.
pub proof fn lemma_wrap_u64(x: int)
    requires
        -pow2_64() <= x < 2 * pow2_64(),
    ensures
        0 <= x < pow2_64() ==> wrap_u64(x) == x,
        x >= pow2_64() ==> wrap_u64(x) == x - pow2_64(),
        x < 0 ==> wrap_u64(x) == x + pow2_64(),
{
    let m = pow2_64();
    if 0 <= x < m {
        lemma_fundamental_div_mod_converse_mod(x, m, 0, x);
    } else if x >= m {
        lemma_fundamental_div_mod_converse_mod(x, m, 1, x - m);
    } else {
        lemma_fundamental_div_mod_converse_mod(x, m, -1, x + m);
    }
}

/// Two's-complement reduction on the ranges that timestamp arithmetic produces.
pub proof fn lemma_wrap_i64(x: int)
    requires
        -pow2_64() <= x < pow2_64(),
    ensures
        i64::MIN <= x <= i64::MAX ==> wrap_i64(x) == x,
        x > i64::MAX ==> wrap_i64(x) == x - pow2_64(),
        x < i64::MIN ==> wrap_i64(x) == x + pow2_64(),
{
    let m = pow2_64();
    if 0 <= x {
        lemma_fundamental_div_mod_converse_mod(x, m, 0, x);
    } else {
        lemma_fundamental_div_mod_converse_mod(x, m, -1, x + m);
    }
}

/// Reinterpreting an `i64` as a `u64` reduces it modulo 2^64.
pub proof fn lemma_i64_as_u64(d: i64)
    ensures
        (d as u64) as int == wrap_u64(d as int),
{
    lemma_wrap_u64(d as int);
    assert(d >= 0 ==> (d as u64) == d) by (bit_vector);
    assert(d < 0 ==> (d as u64) == d + 0x1_0000_0000_0000_0000) by (bit_vector);
}

/// Reinterpreting a `u64` as an `i64` is two's-complement wrapping.
pub proof fn lemma_u64_as_i64(x: u64)
    ensures
        (x as i64) as int == wrap_i64(x as int),
{
    lemma_wrap_i64(x as int);
    assert(x <= 0x7fff_ffff_ffff_ffff ==> (x as i64) == x) by (bit_vector);
    assert(x > 0x7fff_ffff_ffff_ffff ==> (x as i64) == x - 0x1_0000_0000_0000_0000) by (bit_vector);
}

/// The number whose big-endian base-256 digits are the eight bytes `b`.
pub open spec fn be_value_8(b: Seq<u8>) -> int
    recommends
        b.len() == 8,
{
    b[0] * 0x100_0000_0000_0000 + b[1] * 0x1_0000_0000_0000 + b[2] * 0x100_0000_0000 + b[3]
        * 0x1_0000_0000 + b[4] * 0x100_0000 + b[5] * 0x1_0000 + b[6] * 0x100 + b[7]
}

/// The eight big-endian base-256 digits of `x`.
pub open spec fn be_bytes_8(x: u64) -> Seq<u8> {
    seq![
        (x / 0x100_0000_0000_0000 % 256) as u8,
        (x / 0x1_0000_0000_0000 % 256) as u8,
        (x / 0x100_0000_0000 % 256) as u8,
        (x / 0x1_0000_0000 % 256) as u8,
        (x / 0x100_0000 % 256) as u8,
        (x / 0x1_0000 % 256) as u8,
        (x / 0x100 % 256) as u8,
        (x % 256) as u8,
    ]
}

/// The number whose big-endian base-256 digits are the four bytes `b`.
pub open spec fn be_value_4(b: Seq<u8>) -> int
    recommends
        b.len() == 4,
{
    b[0] * 0x100_0000 + b[1] * 0x1_0000 + b[2] * 0x100 + b[3]
}

/// The four big-endian base-256 digits of `x`.
pub open spec fn be_bytes_4(x: u32) -> Seq<u8> {
    seq![
        (x / 0x100_0000 % 256) as u8,
        (x / 0x1_0000 % 256) as u8,
        (x / 0x100 % 256) as u8,
        (x % 256) as u8,
    ]
}

/// `u64::from_be_bytes`.
pub fn u64_from_be_bytes(bytes: [u8; 8]) -> (r: u64)
    ensures
        r == be_value_8(bytes@),
{
    let b0 = bytes[0];
    let b1 = bytes[1];
    let b2 = bytes[2];
    let b3 = bytes[3];
    let b4 = bytes[4];
    let b5 = bytes[5];
    let b6 = bytes[6];
    let b7 = bytes[7];
    let r = ((b0 as u64) << 56u64) | ((b1 as u64) << 48u64) | ((b2 as u64) << 40u64) | ((
    b3 as u64) << 32u64) | ((b4 as u64) << 24u64) | ((b5 as u64) << 16u64) | ((b6 as u64)
        << 8u64) | (b7 as u64);
    assert(r == b0 * 0x100_0000_0000_0000 + b1 * 0x1_0000_0000_0000 + b2 * 0x100_0000_0000 + b3
        * 0x1_0000_0000 + b4 * 0x100_0000 + b5 * 0x1_0000 + b6 * 0x100 + b7) by (bit_vector)
        requires
            r == ((b0 as u64) << 56u64) | ((b1 as u64) << 48u64) | ((b2 as u64) << 40u64) | ((
            b3 as u64) << 32u64) | ((b4 as u64) << 24u64) | ((b5 as u64) << 16u64) | ((
            b6 as u64) << 8u64) | (b7 as u64),
    ;
    r
}

/// `u64::to_be_bytes`.
pub fn u64_to_be_bytes(x: u64) -> (r: [u8; 8])
    ensures
        r@ == be_bytes_8(x),
{
    assert((x >> 56u64) as u8 == (x / 0x100_0000_0000_0000 % 256) as u8) by (bit_vector);
    assert((x >> 48u64) as u8 == (x / 0x1_0000_0000_0000 % 256) as u8) by (bit_vector);
    assert((x >> 40u64) as u8 == (x / 0x100_0000_0000 % 256) as u8) by (bit_vector);
    assert((x >> 32u64) as u8 == (x / 0x1_0000_0000 % 256) as u8) by (bit_vector);
    assert((x >> 24u64) as u8 == (x / 0x100_0000 % 256) as u8) by (bit_vector);
    assert((x >> 16u64) as u8 == (x / 0x1_0000 % 256) as u8) by (bit_vector);
    assert((x >> 8u64) as u8 == (x / 0x100 % 256) as u8) by (bit_vector);
    assert(x as u8 == (x % 256) as u8) by (bit_vector);
    let r = [
        (x >> 56u64) as u8,
        (x >> 48u64) as u8,
        (x >> 40u64) as u8,
        (x >> 32u64) as u8,
        (x >> 24u64) as u8,
        (x >> 16u64) as u8,
        (x >> 8u64) as u8,
        x as u8,
    ];
    assert(r@ =~= be_bytes_8(x));
    r
}

/// `u32::from_be_bytes`.
pub fn u32_from_be_bytes(bytes: [u8; 4]) -> (r: u32)
    ensures
        r == be_value_4(bytes@),
{
    let b0 = bytes[0];
    let b1 = bytes[1];
    let b2 = bytes[2];
    let b3 = bytes[3];
    let r = ((b0 as u32) << 24u32) | ((b1 as u32) << 16u32) | ((b2 as u32) << 8u32) | (
    b3 as u32);
    assert(r == b0 * 0x100_0000 + b1 * 0x1_0000 + b2 * 0x100 + b3) by (bit_vector)
        requires
            r == ((b0 as u32) << 24u32) | ((b1 as u32) << 16u32) | ((b2 as u32) << 8u32) | (
            b3 as u32),
    ;
    r
}

/// `u32::to_be_bytes`.
pub fn u32_to_be_bytes(x: u32) -> (r: [u8; 4])
    ensures
        r@ == be_bytes_4(x),
{
    assert((x >> 24u32) as u8 == (x / 0x100_0000 % 256) as u8) by (bit_vector);
    assert((x >> 16u32) as u8 == (x / 0x1_0000 % 256) as u8) by (bit_vector);
    assert((x >> 8u32) as u8 == (x / 0x100 % 256) as u8) by (bit_vector);
    assert(x as u8 == (x % 256) as u8) by (bit_vector);
    let r = [(x >> 24u32) as u8, (x >> 16u32) as u8, (x >> 8u32) as u8, x as u8];
    assert(r@ =~= be_bytes_4(x));
    r
}

/// Reading back the big-endian digits of a `u64` gives the number.
pub proof fn lemma_be_8_value_of_bytes(x: u64)
    ensures
        be_value_8(be_bytes_8(x)) == x,
{
    assert(x == ((x / 0x100_0000_0000_0000 % 256) as u8) * 0x100_0000_0000_0000 + ((x
        / 0x1_0000_0000_0000 % 256) as u8) * 0x1_0000_0000_0000 + ((x / 0x100_0000_0000 % 256)
        as u8) * 0x100_0000_0000 + ((x / 0x1_0000_0000 % 256) as u8) * 0x1_0000_0000 + ((x
        / 0x100_0000 % 256) as u8) * 0x100_0000 + ((x / 0x1_0000 % 256) as u8) * 0x1_0000 + ((x
        / 0x100 % 256) as u8) * 0x100 + ((x % 256) as u8)) by (bit_vector);
}

/// The big-endian digits of the number that eight bytes spell are those bytes.
pub proof fn lemma_be_8_bytes_of_value(b: Seq<u8>)
    requires
        b.len() == 8,
    ensures
        0 <= be_value_8(b) <= u64::MAX,
        be_bytes_8(be_value_8(b) as u64) == b,
{
    let (b0, b1, b2, b3, b4, b5, b6, b7) = (b[0], b[1], b[2], b[3], b[4], b[5], b[6], b[7]);
    let v: u64 = (b0 * 0x100_0000_0000_0000 + b1 * 0x1_0000_0000_0000 + b2 * 0x100_0000_0000
        + b3 * 0x1_0000_0000 + b4 * 0x100_0000 + b5 * 0x1_0000 + b6 * 0x100 + b7) as u64;
    assert(b0 * 0x100_0000_0000_0000 + b1 * 0x1_0000_0000_0000 + b2 * 0x100_0000_0000 + b3
        * 0x1_0000_0000 + b4 * 0x100_0000 + b5 * 0x1_0000 + b6 * 0x100 + b7 <= u64::MAX)
        by (bit_vector);
    assert((v / 0x100_0000_0000_0000 % 256) as u8 == b0 && (v / 0x1_0000_0000_0000 % 256) as u8
        == b1 && (v / 0x100_0000_0000 % 256) as u8 == b2 && (v / 0x1_0000_0000 % 256) as u8
        == b3 && (v / 0x100_0000 % 256) as u8 == b4 && (v / 0x1_0000 % 256) as u8 == b5 && (v
        / 0x100 % 256) as u8 == b6 && (v % 256) as u8 == b7) by (bit_vector)
        requires
            v == b0 * 0x100_0000_0000_0000 + b1 * 0x1_0000_0000_0000 + b2 * 0x100_0000_0000 + b3
                * 0x1_0000_0000 + b4 * 0x100_0000 + b5 * 0x1_0000 + b6 * 0x100 + b7,
    ;
    assert(be_bytes_8(be_value_8(b) as u64) =~= b);
}

/// Reading back the big-endian digits of a `u32` gives the number.
pub proof fn lemma_be_4_value_of_bytes(x: u32)
    ensures
        be_value_4(be_bytes_4(x)) == x,
{
    assert(x == ((x / 0x100_0000 % 256) as u8) * 0x100_0000 + ((x / 0x1_0000 % 256) as u8)
        * 0x1_0000 + ((x / 0x100 % 256) as u8) * 0x100 + ((x % 256) as u8)) by (bit_vector);
}

/// The big-endian digits of the number that four bytes spell are those bytes.
pub proof fn lemma_be_4_bytes_of_value(b: Seq<u8>)
    requires
        b.len() == 4,
    ensures
        0 <= be_value_4(b) <= u32::MAX,
        be_bytes_4(be_value_4(b) as u32) == b,
{
    let (b0, b1, b2, b3) = (b[0], b[1], b[2], b[3]);
    let v: u32 = (b0 * 0x100_0000 + b1 * 0x1_0000 + b2 * 0x100 + b3) as u32;
    assert(b0 * 0x100_0000 + b1 * 0x1_0000 + b2 * 0x100 + b3 <= u32::MAX) by (bit_vector);
    assert((v / 0x100_0000 % 256) as u8 == b0 && (v / 0x1_0000 % 256) as u8 == b1 && (v / 0x100
        % 256) as u8 == b2 && (v % 256) as u8 == b3) by (bit_vector)
        requires
            v == b0 * 0x100_0000 + b1 * 0x1_0000 + b2 * 0x100 + b3,
    ;
    assert(be_bytes_4(be_value_4(b) as u32) =~= b);
}

/// The fraction of a second that `nanos` nanoseconds make, in units of
/// 2^-32 seconds, rounded down.
pub open spec fn nanos_to_fraction(nanos: int) -> int {
    nanos * pow2_32() / 1_000_000_000
}

/// `seconds` (modulo 2^32) and `nanos` in NTP's 32.32 fixed-point format.
pub open spec fn fixed_point_value(seconds: u64, nanos: u32) -> int {
    (seconds as int % pow2_32()) * pow2_32() + nanos_to_fraction(nanos as int)
}

/// Fewer than 10^9 nanoseconds make less than one second.
pub proof fn lemma_nanos_to_fraction_bound(nanos: int)
    requires
        0 <= nanos < 1_000_000_000,
    ensures
        0 <= nanos_to_fraction(nanos) < pow2_32(),
{
    assert(0 <= nanos * 0x1_0000_0000 / 1_000_000_000 < 0x1_0000_0000) by (nonlinear_arith)
        requires
            0 <= nanos < 1_000_000_000,
    ;
}

/// Packs whole seconds (the low 32 bits of `seconds`) and `nanos`
/// nanoseconds into NTP's 32.32 fixed-point format.
pub fn fixed_point_from_secs_nanos(seconds: u64, nanos: u32) -> (r: u64)
    requires
        nanos < 1_000_000_000,
    ensures
        r == fixed_point_value(seconds, nanos),
{
    proof {
        lemma2_to64();
        lemma_u64_shl_is_mul(nanos as u64, 32);
        lemma_nanos_to_fraction_bound(nanos as int);
    }
    // NTP uses 1/2^32 sec as its unit of fractional time.
    let fraction = ((nanos as u64) << 32u64) / 1_000_000_000;
    assert(seconds << 32u64 == (seconds % 0x1_0000_0000) * 0x1_0000_0000) by (bit_vector);
    (seconds << 32u64) + fraction
}

} // verus!
