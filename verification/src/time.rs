//! Points in time, spans of time and the monotonic clock.

use vstd::prelude::*;

verus! {

/// The greatest reading of a [`Clock`], in nanoseconds: the longest span that
/// the standard library's `Duration` can hold.
pub const MAX_READING: u128 = 18446744073709551615999999999;

/// A span of time.
#[derive(Clone, Copy, Debug, PartialEq, Eq, Structural)]
pub struct Duration {
    pub secs: u64,
    pub subsec_nanos: u32,
}

impl Duration {
    /// The length of the span in nanoseconds.
    pub open spec fn total_nanos(self) -> int {
        self.secs * 1000000000 + self.subsec_nanos
    }

    pub open spec fn spec_from_secs(secs: u64) -> Duration {
        Duration { secs, subsec_nanos: 0 }
    }

    /// A span of whole seconds.
    pub fn from_secs(secs: u64) -> (span: Duration)
        ensures
            span == Duration::spec_from_secs(secs),
    {
        Duration { secs, subsec_nanos: 0 }
    }

    /// The length of the span in nanoseconds.
    pub fn as_nanos(self) -> (nanos: u128)
        ensures
            nanos == self.total_nanos(),
    {
        self.secs as u128 * 1000000000 + self.subsec_nanos as u128
    }
}

/// A point in time, in nanoseconds since the epoch of the [`Clock`] it was
/// read from.
#[derive(Clone, Copy, Debug, PartialEq, Eq, Structural)]
pub struct Instant {
    pub nanos: u128,
}

impl Instant {
    /// A clock can show this point in time. Deadlines may lie beyond.
    pub open spec fn in_range(self) -> bool {
        self.nanos <= MAX_READING
    }

    /// The point in time that lies `span` after this one.
    pub open spec fn spec_plus(self, span: Duration) -> Instant {
        Instant { nanos: (self.nanos + span.total_nanos()) as u128 }
    }

    /// The point in time that lies `span` after this one.
    pub fn plus(self, span: Duration) -> (later: Instant)
        requires
            self.in_range(),
        ensures
            later == self.spec_plus(span),
            later.nanos == self.nanos + span.total_nanos(),
    {
        Instant { nanos: self.nanos + span.as_nanos() }
    }

    /// Less than `span` has passed at this point since `earlier`. A point that
    /// lies before `earlier` counts as the same moment.
    pub open spec fn spec_within(self, span: Duration, earlier: Instant) -> bool {
        (if self.nanos >= earlier.nanos { self.nanos - earlier.nanos } else { 0 })
            < span.total_nanos()
    }

    /// Whether less than `span` has passed at this point since `earlier`.
    pub fn within(self, span: Duration, earlier: Instant) -> (recent: bool)
        ensures
            recent == self.spec_within(span, earlier),
    {
        let elapsed: u128 = if self.nanos >= earlier.nanos {
            self.nanos - earlier.nanos
        } else {
            0
        };
        elapsed < span.as_nanos()
    }
}

/// Opaque: the standard library's monotonic clock reading.
#[verifier::external_type_specification]
#[verifier::external_body]
pub struct ExStdInstant(std::time::Instant);

/// `std::time::Instant::now`: nothing is promised of the reading.
pub assume_specification[ std::time::Instant::now ]() -> std::time::Instant;

/// The time from the reading `earlier` to the reading `later` of the standard
/// library's clock, in nanoseconds; none if `earlier` is the later one.
pub uninterp spec fn instant_gap(later: std::time::Instant, earlier: std::time::Instant) -> u128;

/// `std::time::Instant::saturating_duration_since`, in nanoseconds: the time
/// between two readings. It is a function of the two. The span is a `Duration`,
/// so it is no longer than the longest one.
#[verifier::external_body]
fn nanos_between(later: &std::time::Instant, earlier: &std::time::Instant) -> (nanos: u128)
    ensures
        nanos == instant_gap(*later, *earlier),
        nanos <= MAX_READING,
{
    later.saturating_duration_since(*earlier).as_nanos()
}

/// A clock that counts from `epoch` shows this point in time at some moment: it
/// is the time from the epoch to that moment.
pub open spec fn shown_since(epoch: std::time::Instant, now: Instant) -> bool {
    &&& now.in_range()
    &&& exists|moment: std::time::Instant| now.nanos == #[trigger] instant_gap(moment, epoch)
}

/// A monotonic clock. Its readings count from the moment it was started.
pub struct Clock {
    epoch: std::time::Instant,
}

impl Clock {
    /// The reading that the clock counts from.
    pub closed spec fn epoch(&self) -> std::time::Instant {
        self.epoch
    }

    /// The clock shows this point in time at some moment.
    pub open spec fn shows(&self, now: Instant) -> bool {
        shown_since(self.epoch(), now)
    }

    /// A clock that counts from now. Which reading of the standard library's
    /// clock that is depends on when the call is made.
    pub fn start() -> Clock {
        Clock { epoch: std::time::Instant::now() }
    }

    /// The present moment, counted from the clock's epoch.
    pub fn now(&self) -> (now: Instant)
        ensures
            self.shows(now),
            now.in_range(),
    {
        let moment = std::time::Instant::now();
        let nanos: u128 = nanos_between(&moment, &self.epoch);
        assert(nanos == instant_gap(moment, self.epoch()));
        Instant { nanos }
    }
}

} // verus!
