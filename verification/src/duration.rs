//! Non-negative spans of time with nanosecond precision.

use vstd::prelude::*;

verus! {

/// Number of nanoseconds in one second.
pub const NANOS_PER_SEC: u32 = 1_000_000_000;

/// A non-negative span of time: whole seconds plus a sub-second remainder
/// in nanoseconds.
///
/// Anchored at the Unix epoch, a span doubles as the elapsed time behind a
/// timestamp; every constructor keeps the remainder below one second.
#[derive(Debug, Clone, Copy, PartialEq, Eq, Structural)]
pub struct Duration {
    pub(crate) secs: u64,
    pub(crate) nanos: u32,
}

impl View for Duration {
    type V = int;

    /// A span is abstractly its total length in nanoseconds.
    closed spec fn view(&self) -> int {
        self.secs * 1_000_000_000 + self.nanos
    }
}

impl Duration {
    /// Well-formed: the sub-second remainder is less than one second.
    pub closed spec fn wf(self) -> bool {
        self.nanos < 1_000_000_000
    }

    /// The whole-seconds component, as the contracts speak of it.
    pub closed spec fn spec_secs(self) -> u64 {
        self.secs
    }

    /// The sub-second remainder, as the contracts speak of it.
    pub closed spec fn spec_subsec_nanos(self) -> u32 {
        self.nanos
    }

    /// The longest representable span, in nanoseconds.
    pub open spec fn max_total_nanos() -> int {
        u64::MAX * 1_000_000_000 + 999_999_999
    }

    /// A well-formed span is determined by its total length.
    pub proof fn lemma_view_injective(a: Duration, b: Duration)
        requires
            a.wf(),
            b.wf(),
            a@ == b@,
        ensures
            a == b,
    {
    }

    /// Builds a span from whole seconds and extra nanoseconds, carrying
    /// surplus whole seconds out of the nanosecond argument.
    pub fn new(secs: u64, nanos: u32) -> (r: Duration)
        requires
            secs + nanos as int / 1_000_000_000 <= u64::MAX,
        ensures
            r.wf(),
            r@ == secs * 1_000_000_000 + nanos,
    {
        let carry: u32 = nanos / NANOS_PER_SEC;
        let rem: u32 = nanos % NANOS_PER_SEC;
        Duration { secs: secs + carry as u64, nanos: rem }
    }

    /// A span of whole seconds.
    pub fn from_secs(secs: u64) -> (r: Duration)
        ensures
            r.wf(),
            r@ == secs * 1_000_000_000,
            r.spec_secs() == secs,
    {
        Duration { secs, nanos: 0 }
    }

    /// The whole-seconds component.
    pub fn as_secs(&self) -> (r: u64)
        ensures
            r == self.spec_secs(),
            self.wf() ==> r == self@ / 1_000_000_000,
    {
        self.secs
    }

    /// The sub-second remainder in nanoseconds.
    pub fn subsec_nanos(&self) -> (r: u32)
        ensures
            r == self.spec_subsec_nanos(),
            self.wf() ==> r == self@ % 1_000_000_000,
    {
        self.nanos
    }

    /// The sum of two spans, or `None` exactly when it would not fit.
    pub fn checked_add(self, rhs: Duration) -> (r: Option<Duration>)
        requires
            self.wf(),
            rhs.wf(),
        ensures
            self@ + rhs@ <= Self::max_total_nanos() ==> (r matches Some(sum) && sum.wf()
                && sum@ == self@ + rhs@),
            self@ + rhs@ > Self::max_total_nanos() ==> r is None,
    {
        let nsum: u32 = self.nanos + rhs.nanos;
        let carry: u64 = (nsum / NANOS_PER_SEC) as u64;
        let rem: u32 = nsum % NANOS_PER_SEC;
        if rhs.secs <= u64::MAX - self.secs && carry <= u64::MAX - self.secs - rhs.secs {
            Some(Duration { secs: self.secs + rhs.secs + carry, nanos: rem })
        } else {
            None
        }
    }

    /// The difference of two spans, or `None` exactly when `rhs` is the
    /// longer one: a span cannot be negative.
    pub fn checked_sub(self, rhs: Duration) -> (r: Option<Duration>)
        requires
            self.wf(),
            rhs.wf(),
        ensures
            rhs@ <= self@ ==> (r matches Some(diff) && diff.wf() && diff@ == self@ - rhs@),
            rhs@ > self@ ==> r is None,
    {
        if rhs.secs < self.secs {
            if self.nanos >= rhs.nanos {
                Some(Duration { secs: self.secs - rhs.secs, nanos: self.nanos - rhs.nanos })
            } else {
                Some(
                    Duration {
                        secs: self.secs - rhs.secs - 1,
                        nanos: self.nanos + NANOS_PER_SEC - rhs.nanos,
                    },
                )
            }
        } else if rhs.secs == self.secs && rhs.nanos <= self.nanos {
            Some(Duration { secs: 0, nanos: self.nanos - rhs.nanos })
        } else {
            None
        }
    }
}

} // verus!
