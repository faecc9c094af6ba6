//! The monotonic clock and the lengths of time measured on it.

use std::time::{Duration, Instant};

use vstd::prelude::*;

verus! {

/// A reading of the monotonic clock of std.
#[verifier::external_type_specification]
#[verifier::external_body]
pub struct ExInstant(Instant);

/// The length of `duration` in nanoseconds.
pub uninterp spec fn duration_nanos(duration: Duration) -> nat;

/// The time that `instant` stands for, in nanoseconds on the monotonic clock.
pub uninterp spec fn instant_nanos(instant: Instant) -> int;

/// `Duration::from_millis` of std makes a duration of as many milliseconds as it is given.
pub assume_specification[ Duration::from_millis ](millis: u64) -> (r: Duration)
    ensures
        duration_nanos(r) == millis * 1_000_000,
;

/// `Duration::as_nanos` of std is the whole length of a duration in nanoseconds.
pub assume_specification[ Duration::as_nanos ](duration: &Duration) -> (r: u128)
    ensures
        r == duration_nanos(*duration),
;

/// Whether `instant` was read off the clock, rather than computed from other instants.
pub uninterp spec fn was_read(instant: Instant) -> bool;

/// `Instant::now` of std reads the monotonic clock. All that is claimed of the instant is that it
/// was read: what the clock shows is not foreseen.
pub assume_specification[ Instant::now ]() -> (r: Instant)
    ensures
        was_read(r),
;

/// The instant that lies `duration` after `instant`, where the platform's instants reach so far.
pub uninterp spec fn instant_after(instant: Instant, duration: Duration) -> Option<Instant>;

/// `Instant::checked_add` of std is the instant that lies `duration` later, and `None` where no
/// instant can hold that time. How far instants reach is not stated, because it is the platform's
/// choice.
pub assume_specification[ Instant::checked_add ](instant: &Instant, duration: Duration) -> (r:
    Option<Instant>)
    ensures
        r == instant_after(*instant, duration),
        r matches Some(later) ==> instant_nanos(later) == instant_nanos(*instant) + duration_nanos(
            duration,
        ),
;

/// `Instant::saturating_duration_since` of std is the time from `earlier` to `instant`, and zero
/// where `earlier` is the later of the two.
pub assume_specification[ Instant::saturating_duration_since ](
    instant: &Instant,
    earlier: Instant,
) -> (r: Duration)
    ensures
        duration_nanos(r) == if instant_nanos(*instant) >= instant_nanos(earlier) {
            instant_nanos(*instant) - instant_nanos(earlier)
        } else {
            0
        },
;

} // verus!
