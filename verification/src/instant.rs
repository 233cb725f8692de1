//! `NtpInstant`: a reading of the monotonic clock that models the uptime
//! of the NTP service, used to validate outgoing packets and to order
//! internal operations.

use vstd::prelude::*;
use std::ops::{Add, Sub};
use std::time::{Duration, Instant};
use crate::arith::wrap_i64;
use crate::duration::{lemma_secs_nanos_duration_nonnegative, secs_nanos_duration, NtpDuration};
use crate::std_time::{
    duration_secs, duration_subsec_nanos, instant_add, instant_checked_add, instant_elapsed,
    instant_gt, instant_is_after, instant_now, instant_sub, instant_try_add,
};

verus! {

/// A monotonically increasing value modelling the uptime of the NTP service.
#[derive(Debug, Copy, Clone, Eq, PartialEq, PartialOrd, Ord)]
pub struct NtpInstant {
    instant: Instant,
}

/// The time between two instants, whichever comes first.
pub open spec fn instant_distance(a: Instant, b: Instant) -> Duration {
    if instant_is_after(a, b) {
        instant_elapsed(a, b)
    } else {
        instant_elapsed(b, a)
    }
}

/// The NTP duration of the time between two instants.
pub open spec fn instant_difference(a: NtpInstant, b: NtpInstant) -> NtpDuration {
    let d = instant_distance(a.instant(), b.instant());
    NtpDuration::spec_new(secs_nanos_duration(duration_secs(d), duration_subsec_nanos(d)))
}

impl NtpInstant {
    /// The clock reading that this instant holds.
    pub closed spec fn instant(self) -> Instant {
        self.instant
    }

    /// The instant holding the clock reading `i`, for use in specifications.
    pub closed spec fn spec_new(i: Instant) -> NtpInstant {
        NtpInstant { instant: i }
    }

    /// The instant built from `i` holds `i`.
    pub proof fn lemma_spec_new(i: Instant)
        ensures
            #[trigger] Self::spec_new(i).instant() == i,
    {
    }

    /// Reads the monotonic clock. What it reads depends on the time, so the
    /// contract says nothing of it.
    pub fn now() -> (r: NtpInstant) {
        NtpInstant { instant: instant_now() }
    }

    /// This instant moved forward by `rhs`, or `None` where the clock cannot
    /// represent the result (where `+` would panic).
    pub fn checked_add(self, rhs: Duration) -> (r: Option<NtpInstant>)
        ensures
            r is Some <==> instant_checked_add(self.instant(), rhs) is Some,
            r matches Some(v) ==> instant_checked_add(self.instant(), rhs) == Some(v.instant()),
    {
        match instant_try_add(self.instant, rhs) {
            Some(instant) => Some(NtpInstant { instant }),
            None => None,
        }
    }
}

impl Sub for NtpInstant {
    type Output = NtpDuration;

    /// The absolute time between the two instants, whichever is later.
    fn sub(self, rhs: NtpInstant) -> (r: NtpDuration)
        ensures
            r == instant_difference(self, rhs),
            r == instant_difference(rhs, self),
            instant_is_after(self.instant(), rhs.instant()) ==> r@ == wrap_i64(
                (duration_secs(instant_elapsed(self.instant(), rhs.instant())) as int
                    % 0x1_0000_0000) * 0x1_0000_0000 + duration_subsec_nanos(
                    instant_elapsed(self.instant(), rhs.instant()),
                ) * 0x1_0000_0000 / 1_000_000_000,
            ),
            !instant_is_after(self.instant(), rhs.instant()) ==> r@ == wrap_i64(
                (duration_secs(instant_elapsed(rhs.instant(), self.instant())) as int
                    % 0x1_0000_0000) * 0x1_0000_0000 + duration_subsec_nanos(
                    instant_elapsed(rhs.instant(), self.instant()),
                ) * 0x1_0000_0000 / 1_000_000_000,
            ),
            duration_secs(instant_distance(self.instant(), rhs.instant())) < 0x8000_0000 ==> r@
                == duration_secs(instant_distance(self.instant(), rhs.instant())) * 0x1_0000_0000
                + duration_subsec_nanos(instant_distance(self.instant(), rhs.instant()))
                * 0x1_0000_0000 / 1_000_000_000,
            self.instant() == rhs.instant() ==> r@ == 0,
            duration_secs(instant_distance(self.instant(), rhs.instant())) < 0x8000_0000 ==> r@
                >= 0,
    {
        let duration = if instant_gt(&self.instant, &rhs.instant) {
            instant_sub(self.instant, rhs.instant)
        } else {
            instant_sub(rhs.instant, self.instant)
        };
        let r = NtpDuration::from_system_duration(duration);
        proof {
            NtpDuration::lemma_view_determines(r);
            let s = duration_secs(duration);
            let n = duration_subsec_nanos(duration);
            if s < 0x8000_0000 {
                lemma_secs_nanos_duration_nonnegative(s, n);
            }
        }
        r
    }
}

impl vstd::std_specs::ops::SubSpecImpl for NtpInstant {
    open spec fn obeys_sub_spec() -> bool {
        true
    }

    open spec fn sub_req(self, rhs: NtpInstant) -> bool {
        true
    }

    open spec fn sub_spec(self, rhs: NtpInstant) -> NtpDuration {
        instant_difference(self, rhs)
    }
}

impl Add<Duration> for NtpInstant {
    type Output = NtpInstant;

    fn add(self, rhs: Duration) -> (r: NtpInstant)
        ensures
            instant_checked_add(self.instant(), rhs) == Some(r.instant()),
    {
        let mut moved = self;
        moved.instant = instant_add(moved.instant, rhs);
        moved
    }
}

impl vstd::std_specs::ops::AddSpecImpl<Duration> for NtpInstant {
    open spec fn obeys_add_spec() -> bool {
        true
    }

    open spec fn add_req(self, rhs: Duration) -> bool {
        instant_checked_add(self.instant(), rhs) is Some
    }

    open spec fn add_spec(self, rhs: Duration) -> NtpInstant {
        NtpInstant::spec_new(instant_checked_add(self.instant(), rhs)->0)
    }
}

} // verus!
