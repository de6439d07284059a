//! Timestamps: fractional seconds since the Unix epoch.

use vstd::prelude::*;
use crate::clock;
use crate::duration::Duration;

verus! {

/// A point in time, counted from the Unix epoch (1970-01-01 00:00:00 UTC)
/// and kept to nanosecond precision: whole seconds plus a sub-second
/// remainder.
///
/// Values are made by reading the system clock ([`Seconds::now`]) or by
/// anchoring a span at the epoch ([`Seconds::from_duration`]); the latter
/// is meaningful as a timestamp only under that anchoring convention,
/// which the type cannot enforce. Equality is equality of the underlying
/// count; times before the epoch are not representable.
#[derive(Debug, Clone, Copy, PartialEq, Eq, Structural)]
pub struct Seconds {
    since_epoch: Duration,
}

impl View for Seconds {
    type V = int;

    /// A timestamp is abstractly its distance from the epoch in nanoseconds.
    closed spec fn view(&self) -> int {
        self.since_epoch@
    }
}

impl Seconds {
    /// Well-formed: the underlying span keeps its sub-second remainder
    /// below one second.
    pub closed spec fn wf(self) -> bool {
        self.since_epoch.wf()
    }

    /// The whole-seconds component, as the contracts speak of it.
    pub closed spec fn spec_whole_secs(self) -> u64 {
        self.since_epoch.spec_secs()
    }

    /// A well-formed timestamp is determined by its distance from the epoch.
    pub proof fn lemma_view_injective(a: Seconds, b: Seconds)
        requires
            a.wf(),
            b.wf(),
            a@ == b@,
        ensures
            a == b,
    {
        Duration::lemma_view_injective(a.since_epoch, b.since_epoch);
    }

    /// The current time, read from the system clock. A clock reading from
    /// before the epoch is normalized to the epoch instant, never an error.
    pub fn now() -> (r: Seconds)
        ensures
            r.wf(),
    {
        Seconds { since_epoch: clock::now_since_epoch() }
    }

    /// Drops the sub-second remainder, keeping whole seconds only.
    pub fn trunc(self) -> (r: Seconds)
        ensures
            r.wf(),
            r@ == self.spec_whole_secs() * 1_000_000_000,
            r.spec_whole_secs() == self.spec_whole_secs(),
            self.wf() ==> r@ == 1_000_000_000 * (self@ / 1_000_000_000),
    {
        Seconds { since_epoch: Duration::from_secs(self.since_epoch.as_secs()) }
    }

    /// The timestamp reached by the span `d` after the epoch.
    pub fn from_duration(d: Duration) -> (r: Seconds)
        ensures
            r@ == d@,
            r.wf() == d.wf(),
    {
        Seconds { since_epoch: d }
    }

    /// The span between the epoch and this timestamp.
    pub fn to_duration(self) -> (r: Duration)
        ensures
            r@ == self@,
            r.wf() == self.wf(),
            r.spec_secs() == self.spec_whole_secs(),
    {
        self.since_epoch
    }

    /// The timestamp a span `d` later. A sum past the representable range
    /// is a fatal input, ruled out here rather than recovered from.
    pub fn add_duration(self, d: Duration) -> (r: Seconds)
        requires
            self.wf(),
            d.wf(),
            self@ + d@ <= Duration::max_total_nanos(),
        ensures
            r.wf(),
            r@ == self@ + d@,
    {
        Seconds { since_epoch: self.since_epoch.checked_add(d).unwrap() }
    }

    /// The timestamp a span `d` earlier. Subtracting more than the elapsed
    /// time since the epoch would need a negative span: a fatal input,
    /// ruled out here rather than recovered from.
    pub fn sub_duration(self, d: Duration) -> (r: Seconds)
        requires
            self.wf(),
            d.wf(),
            d@ <= self@,
        ensures
            r.wf(),
            r@ == self@ - d@,
    {
        Seconds { since_epoch: self.since_epoch.checked_sub(d).unwrap() }
    }
}

/// Shifting a timestamp forward by `d1` and then back by `d2 <= d1` reaches
/// the very timestamp that one forward shift by the difference reaches, so
/// the two agree in particular on their whole-seconds components.
///
/// `two_step` is any value meeting the contract of
/// `s.add_duration(d1).sub_duration(d2)`, and `one_step` any value meeting
/// the contract of `s.add_duration(diff)` for a `diff` meeting the contract
/// of `d1.checked_sub(d2)`.
pub proof fn lemma_shift_then_unshift(
    s: Seconds,
    d1: Duration,
    d2: Duration,
    two_step: Seconds,
    one_step: Seconds,
)
    requires
        s.wf(),
        d1.wf(),
        d2.wf(),
        d2@ <= d1@,
        two_step.wf(),
        two_step@ == (s@ + d1@) - d2@,
        one_step.wf(),
        one_step@ == s@ + (d1@ - d2@),
    ensures
        two_step == one_step,
        two_step.spec_whole_secs() == one_step.spec_whole_secs(),
{
    Seconds::lemma_view_injective(two_step, one_step);
}

/// Anchoring a span at the epoch and measuring it back returns the very
/// span, so in particular its whole-seconds component is preserved.
///
/// `s` is any value meeting the contract of `Seconds::from_duration(d)`,
/// and `back` any value meeting the contract of `s.to_duration()`.
pub proof fn lemma_duration_round_trip(d: Duration, s: Seconds, back: Duration)
    requires
        d.wf(),
        s.wf(),
        s@ == d@,
        back.wf(),
        back@ == s@,
    ensures
        back == d,
        back.spec_secs() == d.spec_secs(),
{
    Duration::lemma_view_injective(back, d);
}

impl Default for Seconds {
    /// The current time, exactly as [`Seconds::now`] reads it.
    fn default() -> (r: Seconds)
        ensures
            r.wf(),
    {
        Seconds::now()
    }
}

} // verus!
