//! Scaling an `NtpDuration` by an integer: saturating multiplication and
//! division rounded toward zero, for each scalar type that cannot overflow
//! an `i64` on conversion.

use vstd::prelude::*;
use std::ops::{Div, DivAssign, Mul, MulAssign};
use crate::arith::{div_toward_zero, div_toward_zero_i64, saturate_i64, saturating_mul_i64};
use crate::duration::NtpDuration;

verus! {

/// `d` scaled by `k`, saturating.
pub open spec fn scaled(d: NtpDuration, k: int) -> NtpDuration {
    NtpDuration::spec_new(saturate_i64(d@ * k))
}

/// `d` divided by `k`, rounded toward zero.
pub open spec fn divided(d: NtpDuration, k: int) -> NtpDuration {
    NtpDuration::spec_new(div_toward_zero(d@ as int, k) as i64)
}

/// Whether dividing `d` by `k` is defined: `k` is nonzero and the quotient
/// fits (only `i64::MIN / -1` does not).
pub open spec fn divisible(d: NtpDuration, k: int) -> bool {
    k != 0 && !(d@ == i64::MIN && k == -1)
}

impl NtpDuration {
    /// This duration scaled by `factor`, saturating.
    pub(crate) fn saturating_scale(self, factor: i64) -> (r: NtpDuration)
        ensures
            r@ == saturate_i64(self@ * factor),
            r == scaled(self, factor as int),
    {
        NtpDuration::from_fixed_int(saturating_mul_i64(self.to_fixed_int(), factor))
    }

    /// This duration divided by `divisor`, rounded toward zero.
    pub(crate) fn divide(self, divisor: i64) -> (r: NtpDuration)
        requires
            divisible(self, divisor as int),
        ensures
            r@ == div_toward_zero(self@ as int, divisor as int),
            r == divided(self, divisor as int),
    {
        NtpDuration::from_fixed_int(div_toward_zero_i64(self.to_fixed_int(), divisor))
    }
}

impl Mul<NtpDuration> for i8 {
    type Output = NtpDuration;

    fn mul(self, rhs: NtpDuration) -> (r: NtpDuration)
        ensures
            r@ == saturate_i64(rhs@ * self),
    {
        rhs.saturating_scale(self as i64)
    }
}

impl vstd::std_specs::ops::MulSpecImpl<NtpDuration> for i8 {
    open spec fn obeys_mul_spec() -> bool {
        true
    }

    open spec fn mul_req(self, rhs: NtpDuration) -> bool {
        true
    }

    open spec fn mul_spec(self, rhs: NtpDuration) -> NtpDuration {
        scaled(rhs, self as int)
    }
}

impl Mul<i8> for NtpDuration {
    type Output = NtpDuration;

    fn mul(self, rhs: i8) -> (r: NtpDuration)
        ensures
            r@ == saturate_i64(self@ * rhs),
    {
        self.saturating_scale(rhs as i64)
    }
}

impl vstd::std_specs::ops::MulSpecImpl<i8> for NtpDuration {
    open spec fn obeys_mul_spec() -> bool {
        true
    }

    open spec fn mul_req(self, rhs: i8) -> bool {
        true
    }

    open spec fn mul_spec(self, rhs: i8) -> NtpDuration {
        scaled(self, rhs as int)
    }
}

impl MulAssign<i8> for NtpDuration {
    fn mul_assign(&mut self, rhs: i8)
        ensures
            final(self)@ == saturate_i64(old(self)@ * rhs),
    {
        *self = self.saturating_scale(rhs as i64);
    }
}

impl Div<i8> for NtpDuration {
    type Output = NtpDuration;

    fn div(self, rhs: i8) -> (r: NtpDuration)
        ensures
            r@ == div_toward_zero(self@ as int, rhs as int),
    {
        self.divide(rhs as i64)
    }
}

impl vstd::std_specs::ops::DivSpecImpl<i8> for NtpDuration {
    open spec fn obeys_div_spec() -> bool {
        true
    }

    open spec fn div_req(self, rhs: i8) -> bool {
        divisible(self, rhs as int)
    }

    open spec fn div_spec(self, rhs: i8) -> NtpDuration {
        divided(self, rhs as int)
    }
}

impl DivAssign<i8> for NtpDuration {
    fn div_assign(&mut self, rhs: i8)
        requires
            divisible(*old(self), rhs as int),
        ensures
            final(self)@ == div_toward_zero(old(self)@ as int, rhs as int),
    {
        *self = self.divide(rhs as i64);
    }
}

impl Mul<NtpDuration> for i16 {
    type Output = NtpDuration;

    fn mul(self, rhs: NtpDuration) -> (r: NtpDuration)
        ensures
            r@ == saturate_i64(rhs@ * self),
    {
        rhs.saturating_scale(self as i64)
    }
}

impl vstd::std_specs::ops::MulSpecImpl<NtpDuration> for i16 {
    open spec fn obeys_mul_spec() -> bool {
        true
    }

    open spec fn mul_req(self, rhs: NtpDuration) -> bool {
        true
    }

    open spec fn mul_spec(self, rhs: NtpDuration) -> NtpDuration {
        scaled(rhs, self as int)
    }
}

impl Mul<i16> for NtpDuration {
    type Output = NtpDuration;

    fn mul(self, rhs: i16) -> (r: NtpDuration)
        ensures
            r@ == saturate_i64(self@ * rhs),
    {
        self.saturating_scale(rhs as i64)
    }
}

impl vstd::std_specs::ops::MulSpecImpl<i16> for NtpDuration {
    open spec fn obeys_mul_spec() -> bool {
        true
    }

    open spec fn mul_req(self, rhs: i16) -> bool {
        true
    }

    open spec fn mul_spec(self, rhs: i16) -> NtpDuration {
        scaled(self, rhs as int)
    }
}

impl MulAssign<i16> for NtpDuration {
    fn mul_assign(&mut self, rhs: i16)
        ensures
            final(self)@ == saturate_i64(old(self)@ * rhs),
    {
        *self = self.saturating_scale(rhs as i64);
    }
}

impl Div<i16> for NtpDuration {
    type Output = NtpDuration;

    fn div(self, rhs: i16) -> (r: NtpDuration)
        ensures
            r@ == div_toward_zero(self@ as int, rhs as int),
    {
        self.divide(rhs as i64)
    }
}

impl vstd::std_specs::ops::DivSpecImpl<i16> for NtpDuration {
    open spec fn obeys_div_spec() -> bool {
        true
    }

    open spec fn div_req(self, rhs: i16) -> bool {
        divisible(self, rhs as int)
    }

    open spec fn div_spec(self, rhs: i16) -> NtpDuration {
        divided(self, rhs as int)
    }
}

impl DivAssign<i16> for NtpDuration {
    fn div_assign(&mut self, rhs: i16)
        requires
            divisible(*old(self), rhs as int),
        ensures
            final(self)@ == div_toward_zero(old(self)@ as int, rhs as int),
    {
        *self = self.divide(rhs as i64);
    }
}

impl Mul<NtpDuration> for i32 {
    type Output = NtpDuration;

    fn mul(self, rhs: NtpDuration) -> (r: NtpDuration)
        ensures
            r@ == saturate_i64(rhs@ * self),
    {
        rhs.saturating_scale(self as i64)
    }
}

impl vstd::std_specs::ops::MulSpecImpl<NtpDuration> for i32 {
    open spec fn obeys_mul_spec() -> bool {
        true
    }

    open spec fn mul_req(self, rhs: NtpDuration) -> bool {
        true
    }

    open spec fn mul_spec(self, rhs: NtpDuration) -> NtpDuration {
        scaled(rhs, self as int)
    }
}

impl Mul<i32> for NtpDuration {
    type Output = NtpDuration;

    fn mul(self, rhs: i32) -> (r: NtpDuration)
        ensures
            r@ == saturate_i64(self@ * rhs),
    {
        self.saturating_scale(rhs as i64)
    }
}

impl vstd::std_specs::ops::MulSpecImpl<i32> for NtpDuration {
    open spec fn obeys_mul_spec() -> bool {
        true
    }

    open spec fn mul_req(self, rhs: i32) -> bool {
        true
    }

    open spec fn mul_spec(self, rhs: i32) -> NtpDuration {
        scaled(self, rhs as int)
    }
}

impl MulAssign<i32> for NtpDuration {
    fn mul_assign(&mut self, rhs: i32)
        ensures
            final(self)@ == saturate_i64(old(self)@ * rhs),
    {
        *self = self.saturating_scale(rhs as i64);
    }
}

impl Div<i32> for NtpDuration {
    type Output = NtpDuration;

    fn div(self, rhs: i32) -> (r: NtpDuration)
        ensures
            r@ == div_toward_zero(self@ as int, rhs as int),
    {
        self.divide(rhs as i64)
    }
}

impl vstd::std_specs::ops::DivSpecImpl<i32> for NtpDuration {
    open spec fn obeys_div_spec() -> bool {
        true
    }

    open spec fn div_req(self, rhs: i32) -> bool {
        divisible(self, rhs as int)
    }

    open spec fn div_spec(self, rhs: i32) -> NtpDuration {
        divided(self, rhs as int)
    }
}

impl DivAssign<i32> for NtpDuration {
    fn div_assign(&mut self, rhs: i32)
        requires
            divisible(*old(self), rhs as int),
        ensures
            final(self)@ == div_toward_zero(old(self)@ as int, rhs as int),
    {
        *self = self.divide(rhs as i64);
    }
}

impl Mul<NtpDuration> for i64 {
    type Output = NtpDuration;

    fn mul(self, rhs: NtpDuration) -> (r: NtpDuration)
        ensures
            r@ == saturate_i64(rhs@ * self),
    {
        rhs.saturating_scale(self)
    }
}

impl vstd::std_specs::ops::MulSpecImpl<NtpDuration> for i64 {
    open spec fn obeys_mul_spec() -> bool {
        true
    }

    open spec fn mul_req(self, rhs: NtpDuration) -> bool {
        true
    }

    open spec fn mul_spec(self, rhs: NtpDuration) -> NtpDuration {
        scaled(rhs, self as int)
    }
}

impl Mul<i64> for NtpDuration {
    type Output = NtpDuration;

    fn mul(self, rhs: i64) -> (r: NtpDuration)
        ensures
            r@ == saturate_i64(self@ * rhs),
    {
        self.saturating_scale(rhs)
    }
}

impl vstd::std_specs::ops::MulSpecImpl<i64> for NtpDuration {
    open spec fn obeys_mul_spec() -> bool {
        true
    }

    open spec fn mul_req(self, rhs: i64) -> bool {
        true
    }

    open spec fn mul_spec(self, rhs: i64) -> NtpDuration {
        scaled(self, rhs as int)
    }
}

impl MulAssign<i64> for NtpDuration {
    fn mul_assign(&mut self, rhs: i64)
        ensures
            final(self)@ == saturate_i64(old(self)@ * rhs),
    {
        *self = self.saturating_scale(rhs);
    }
}

impl Div<i64> for NtpDuration {
    type Output = NtpDuration;

    fn div(self, rhs: i64) -> (r: NtpDuration)
        ensures
            r@ == div_toward_zero(self@ as int, rhs as int),
    {
        self.divide(rhs)
    }
}

impl vstd::std_specs::ops::DivSpecImpl<i64> for NtpDuration {
    open spec fn obeys_div_spec() -> bool {
        true
    }

    open spec fn div_req(self, rhs: i64) -> bool {
        divisible(self, rhs as int)
    }

    open spec fn div_spec(self, rhs: i64) -> NtpDuration {
        divided(self, rhs as int)
    }
}

impl DivAssign<i64> for NtpDuration {
    fn div_assign(&mut self, rhs: i64)
        requires
            divisible(*old(self), rhs as int),
        ensures
            final(self)@ == div_toward_zero(old(self)@ as int, rhs as int),
    {
        *self = self.divide(rhs);
    }
}

impl Mul<NtpDuration> for isize {
    type Output = NtpDuration;

    fn mul(self, rhs: NtpDuration) -> (r: NtpDuration)
        ensures
            r@ == saturate_i64(rhs@ * self),
    {
        rhs.saturating_scale(self as i64)
    }
}

impl vstd::std_specs::ops::MulSpecImpl<NtpDuration> for isize {
    open spec fn obeys_mul_spec() -> bool {
        true
    }

    open spec fn mul_req(self, rhs: NtpDuration) -> bool {
        true
    }

    open spec fn mul_spec(self, rhs: NtpDuration) -> NtpDuration {
        scaled(rhs, self as int)
    }
}

impl Mul<isize> for NtpDuration {
    type Output = NtpDuration;

    fn mul(self, rhs: isize) -> (r: NtpDuration)
        ensures
            r@ == saturate_i64(self@ * rhs),
    {
        self.saturating_scale(rhs as i64)
    }
}

impl vstd::std_specs::ops::MulSpecImpl<isize> for NtpDuration {
    open spec fn obeys_mul_spec() -> bool {
        true
    }

    open spec fn mul_req(self, rhs: isize) -> bool {
        true
    }

    open spec fn mul_spec(self, rhs: isize) -> NtpDuration {
        scaled(self, rhs as int)
    }
}

impl MulAssign<isize> for NtpDuration {
    fn mul_assign(&mut self, rhs: isize)
        ensures
            final(self)@ == saturate_i64(old(self)@ * rhs),
    {
        *self = self.saturating_scale(rhs as i64);
    }
}

impl Div<isize> for NtpDuration {
    type Output = NtpDuration;

    fn div(self, rhs: isize) -> (r: NtpDuration)
        ensures
            r@ == div_toward_zero(self@ as int, rhs as int),
    {
        self.divide(rhs as i64)
    }
}

impl vstd::std_specs::ops::DivSpecImpl<isize> for NtpDuration {
    open spec fn obeys_div_spec() -> bool {
        true
    }

    open spec fn div_req(self, rhs: isize) -> bool {
        divisible(self, rhs as int)
    }

    open spec fn div_spec(self, rhs: isize) -> NtpDuration {
        divided(self, rhs as int)
    }
}

impl DivAssign<isize> for NtpDuration {
    fn div_assign(&mut self, rhs: isize)
        requires
            divisible(*old(self), rhs as int),
        ensures
            final(self)@ == div_toward_zero(old(self)@ as int, rhs as int),
    {
        *self = self.divide(rhs as i64);
    }
}

impl Mul<NtpDuration> for u8 {
    type Output = NtpDuration;

    fn mul(self, rhs: NtpDuration) -> (r: NtpDuration)
        ensures
            r@ == saturate_i64(rhs@ * self),
    {
        rhs.saturating_scale(self as i64)
    }
}

impl vstd::std_specs::ops::MulSpecImpl<NtpDuration> for u8 {
    open spec fn obeys_mul_spec() -> bool {
        true
    }

    open spec fn mul_req(self, rhs: NtpDuration) -> bool {
        true
    }

    open spec fn mul_spec(self, rhs: NtpDuration) -> NtpDuration {
        scaled(rhs, self as int)
    }
}

impl Mul<u8> for NtpDuration {
    type Output = NtpDuration;

    fn mul(self, rhs: u8) -> (r: NtpDuration)
        ensures
            r@ == saturate_i64(self@ * rhs),
    {
        self.saturating_scale(rhs as i64)
    }
}

impl vstd::std_specs::ops::MulSpecImpl<u8> for NtpDuration {
    open spec fn obeys_mul_spec() -> bool {
        true
    }

    open spec fn mul_req(self, rhs: u8) -> bool {
        true
    }

    open spec fn mul_spec(self, rhs: u8) -> NtpDuration {
        scaled(self, rhs as int)
    }
}

impl MulAssign<u8> for NtpDuration {
    fn mul_assign(&mut self, rhs: u8)
        ensures
            final(self)@ == saturate_i64(old(self)@ * rhs),
    {
        *self = self.saturating_scale(rhs as i64);
    }
}

impl Div<u8> for NtpDuration {
    type Output = NtpDuration;

    fn div(self, rhs: u8) -> (r: NtpDuration)
        ensures
            r@ == div_toward_zero(self@ as int, rhs as int),
    {
        self.divide(rhs as i64)
    }
}

impl vstd::std_specs::ops::DivSpecImpl<u8> for NtpDuration {
    open spec fn obeys_div_spec() -> bool {
        true
    }

    open spec fn div_req(self, rhs: u8) -> bool {
        divisible(self, rhs as int)
    }

    open spec fn div_spec(self, rhs: u8) -> NtpDuration {
        divided(self, rhs as int)
    }
}

impl DivAssign<u8> for NtpDuration {
    fn div_assign(&mut self, rhs: u8)
        requires
            divisible(*old(self), rhs as int),
        ensures
            final(self)@ == div_toward_zero(old(self)@ as int, rhs as int),
    {
        *self = self.divide(rhs as i64);
    }
}

impl Mul<NtpDuration> for u16 {
    type Output = NtpDuration;

    fn mul(self, rhs: NtpDuration) -> (r: NtpDuration)
        ensures
            r@ == saturate_i64(rhs@ * self),
    {
        rhs.saturating_scale(self as i64)
    }
}

impl vstd::std_specs::ops::MulSpecImpl<NtpDuration> for u16 {
    open spec fn obeys_mul_spec() -> bool {
        true
    }

    open spec fn mul_req(self, rhs: NtpDuration) -> bool {
        true
    }

    open spec fn mul_spec(self, rhs: NtpDuration) -> NtpDuration {
        scaled(rhs, self as int)
    }
}

impl Mul<u16> for NtpDuration {
    type Output = NtpDuration;

    fn mul(self, rhs: u16) -> (r: NtpDuration)
        ensures
            r@ == saturate_i64(self@ * rhs),
    {
        self.saturating_scale(rhs as i64)
    }
}

impl vstd::std_specs::ops::MulSpecImpl<u16> for NtpDuration {
    open spec fn obeys_mul_spec() -> bool {
        true
    }

    open spec fn mul_req(self, rhs: u16) -> bool {
        true
    }

    open spec fn mul_spec(self, rhs: u16) -> NtpDuration {
        scaled(self, rhs as int)
    }
}

impl MulAssign<u16> for NtpDuration {
    fn mul_assign(&mut self, rhs: u16)
        ensures
            final(self)@ == saturate_i64(old(self)@ * rhs),
    {
        *self = self.saturating_scale(rhs as i64);
    }
}

impl Div<u16> for NtpDuration {
    type Output = NtpDuration;

    fn div(self, rhs: u16) -> (r: NtpDuration)
        ensures
            r@ == div_toward_zero(self@ as int, rhs as int),
    {
        self.divide(rhs as i64)
    }
}

impl vstd::std_specs::ops::DivSpecImpl<u16> for NtpDuration {
    open spec fn obeys_div_spec() -> bool {
        true
    }

    open spec fn div_req(self, rhs: u16) -> bool {
        divisible(self, rhs as int)
    }

    open spec fn div_spec(self, rhs: u16) -> NtpDuration {
        divided(self, rhs as int)
    }
}

impl DivAssign<u16> for NtpDuration {
    fn div_assign(&mut self, rhs: u16)
        requires
            divisible(*old(self), rhs as int),
        ensures
            final(self)@ == div_toward_zero(old(self)@ as int, rhs as int),
    {
        *self = self.divide(rhs as i64);
    }
}

impl Mul<NtpDuration> for u32 {
    type Output = NtpDuration;

    fn mul(self, rhs: NtpDuration) -> (r: NtpDuration)
        ensures
            r@ == saturate_i64(rhs@ * self),
    {
        rhs.saturating_scale(self as i64)
    }
}

impl vstd::std_specs::ops::MulSpecImpl<NtpDuration> for u32 {
    open spec fn obeys_mul_spec() -> bool {
        true
    }

    open spec fn mul_req(self, rhs: NtpDuration) -> bool {
        true
    }

    open spec fn mul_spec(self, rhs: NtpDuration) -> NtpDuration {
        scaled(rhs, self as int)
    }
}

impl Mul<u32> for NtpDuration {
    type Output = NtpDuration;

    fn mul(self, rhs: u32) -> (r: NtpDuration)
        ensures
            r@ == saturate_i64(self@ * rhs),
    {
        self.saturating_scale(rhs as i64)
    }
}

impl vstd::std_specs::ops::MulSpecImpl<u32> for NtpDuration {
    open spec fn obeys_mul_spec() -> bool {
        true
    }

    open spec fn mul_req(self, rhs: u32) -> bool {
        true
    }

    open spec fn mul_spec(self, rhs: u32) -> NtpDuration {
        scaled(self, rhs as int)
    }
}

impl MulAssign<u32> for NtpDuration {
    fn mul_assign(&mut self, rhs: u32)
        ensures
            final(self)@ == saturate_i64(old(self)@ * rhs),
    {
        *self = self.saturating_scale(rhs as i64);
    }
}

impl Div<u32> for NtpDuration {
    type Output = NtpDuration;

    fn div(self, rhs: u32) -> (r: NtpDuration)
        ensures
            r@ == div_toward_zero(self@ as int, rhs as int),
    {
        self.divide(rhs as i64)
    }
}

impl vstd::std_specs::ops::DivSpecImpl<u32> for NtpDuration {
    open spec fn obeys_div_spec() -> bool {
        true
    }

    open spec fn div_req(self, rhs: u32) -> bool {
        divisible(self, rhs as int)
    }

    open spec fn div_spec(self, rhs: u32) -> NtpDuration {
        divided(self, rhs as int)
    }
}

impl DivAssign<u32> for NtpDuration {
    fn div_assign(&mut self, rhs: u32)
        requires
            divisible(*old(self), rhs as int),
        ensures
            final(self)@ == div_toward_zero(old(self)@ as int, rhs as int),
    {
        *self = self.divide(rhs as i64);
    }
}

} // verus!
