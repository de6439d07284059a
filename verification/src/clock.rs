//! The one outside collaborator: the platform's wall clock.

use vstd::prelude::*;
use crate::duration::Duration;

verus! {

/// Relies on `std::time::SystemTime::now` and `SystemTime::duration_since`:
/// the wall clock's elapsed time since the Unix epoch, whose documented
/// sub-second remainder (`subsec_nanos`) is always below one second. A
/// reading from before the epoch is normalized to zero elapsed time by
/// `unwrap_or_default` rather than surfaced. Nothing more can be promised
/// of a clock: two readings may return anything.
#[verifier::external_body]
pub(crate) fn now_since_epoch() -> (r: Duration)
    ensures
        r.wf(),
{
    let elapsed = std::time::SystemTime::now()
        .duration_since(std::time::UNIX_EPOCH)
        .unwrap_or_default();
    Duration { secs: elapsed.as_secs(), nanos: elapsed.subsec_nanos() }
}

} // verus!
