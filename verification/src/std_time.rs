//! Trusted declarations for `std::time`: the `Instant` type and the
//! `Duration` and `Instant` operations that the time types call.
//! Verus reads none of these bodies; each contract below is what the
//! standard library documents for the function it names.

use vstd::prelude::*;
use std::time::{Duration, Instant};

verus! {

/// `std::time::Instant`, an opaque reading of a monotonic clock.
#[verifier::external_type_specification]
#[verifier::external_body]
pub struct ExInstant(Instant);

/// What `Duration::as_secs` returns for `d`: its whole seconds.
pub uninterp spec fn duration_secs(d: Duration) -> u64;

/// What `Duration::subsec_nanos` returns for `d`: its fractional part in nanoseconds.
pub uninterp spec fn duration_subsec_nanos(d: Duration) -> u32;

/// What `Instant > Instant` returns: whether `a` is later than `b`.
pub uninterp spec fn instant_is_after(a: Instant, b: Instant) -> bool;

/// What `Instant - Instant` returns: the time elapsed from `earlier` to `later`.
pub uninterp spec fn instant_elapsed(later: Instant, earlier: Instant) -> Duration;

/// What `Instant::checked_add` returns: `i` moved forward by `d`, or
/// `None` where that point in time cannot be represented.
pub uninterp spec fn instant_checked_add(i: Instant, d: Duration) -> Option<Instant>;

/// Calls `Duration::as_secs`. Claims only that the result is the named
/// whole-second count of `d`.
#[verifier::external_body]
pub(crate) fn duration_as_secs(d: &Duration) -> (r: u64)
    ensures
        r == duration_secs(*d),
{
    d.as_secs()
}

/// Calls `Duration::subsec_nanos`. Claims that the result is the named
/// fractional part of `d`, and, as the documentation promises, that it is
/// less than one billion.
#[verifier::external_body]
pub(crate) fn duration_subsec(d: &Duration) -> (r: u32)
    ensures
        r == duration_subsec_nanos(*d),
        r < 1_000_000_000,
{
    d.subsec_nanos()
}

/// Calls `Duration::from_secs`. Claims that the result holds exactly
/// `secs` whole seconds and no fractional part.
#[verifier::external_body]
pub(crate) fn duration_from_secs(secs: u64) -> (r: Duration)
    ensures
        duration_secs(r) == secs,
        duration_subsec_nanos(r) == 0,
{
    Duration::from_secs(secs)
}

/// Calls `Instant::now`. The result depends on the clock, so nothing is
/// claimed of it.
#[verifier::external_body]
pub(crate) fn instant_now() -> (r: Instant) {
    Instant::now()
}

/// Calls `>` on two `Instant`s. Claims that the result is the named
/// comparison of `a` with `b`, and, since `Instant`'s order is a total
/// order (`Instant` implements `Ord`), that when `a` is after `b`, `b` is
/// not after `a`, and when it is not, either `b` is after `a` or the two
/// are equal.
#[verifier::external_body]
pub(crate) fn instant_gt(a: &Instant, b: &Instant) -> (r: bool)
    ensures
        r == instant_is_after(*a, *b),
        r ==> !instant_is_after(*b, *a),
        !r ==> (instant_is_after(*b, *a) || *a == *b),
{
    *a > *b
}

/// Calls `-` on two `Instant`s. Claims that the result is the named
/// elapsed time from `earlier` to `later`, and that it is zero where
/// `later` is not after `earlier`. The standard library documents that it
/// may panic again, as it once did, where `earlier` is after `later`, so
/// that input is left out.
#[verifier::external_body]
pub(crate) fn instant_sub(later: Instant, earlier: Instant) -> (r: Duration)
    requires
        !instant_is_after(earlier, later),
    ensures
        r == instant_elapsed(later, earlier),
        !instant_is_after(later, earlier) ==> duration_secs(r) == 0 && duration_subsec_nanos(r)
            == 0,
{
    later - earlier
}

/// Calls `Instant::checked_add`. Claims that the result is the named
/// checked sum of `i` and `d`.
#[verifier::external_body]
pub(crate) fn instant_try_add(i: Instant, d: Duration) -> (r: Option<Instant>)
    ensures
        r == instant_checked_add(i, d),
{
    i.checked_add(d)
}

/// Calls `+` on an `Instant` and a `Duration`, which panics exactly where
/// `Instant::checked_add` gives `None`. Claims that the result is the
/// value that `checked_add` gives.
#[verifier::external_body]
pub(crate) fn instant_add(i: Instant, d: Duration) -> (r: Instant)
    requires
        instant_checked_add(i, d) is Some,
    ensures
        instant_checked_add(i, d) == Some(r),
{
    i + d
}

} // verus!
