//! The reconnect policy: a session's end, clean or failed, is always
//! answered by starting a fresh session, with no backoff and no retry limit.

use vstd::prelude::*;
use crate::session::SessionEnd;

verus! {

/// The reconnect decision: every session end is retried.
pub open spec fn spec_reconnect(end: SessionEnd) -> bool {
    true
}

/// Decides whether to start a new session after the given end.  The feed is
/// self-healing for the lifetime of the process, so the answer is always
/// yes, whatever the end was.
pub fn should_reconnect(end: &SessionEnd) -> (r: bool)
    ensures
        r == spec_reconnect(*end),
        r,
{
    true
}

/// How many sessions the supervisor starts while a run of session ends comes
/// in: the first session, plus one more for every end that is retried.
pub open spec fn spec_attempts(ends: Seq<SessionEnd>) -> int
    decreases ends.len(),
{
    if ends.len() == 0 {
        1
    } else if spec_reconnect(ends[0]) {
        1 + spec_attempts(ends.drop_first())
    } else {
        1
    }
}

/// The supervisor never stops trying: however many sessions have ended, and
/// however they ended, the number of sessions started exceeds the number of
/// ends by one — there is no upper bound on attempts.
pub proof fn lemma_supervisor_unbounded(ends: Seq<SessionEnd>)
    ensures
        spec_attempts(ends) == ends.len() + 1,
    decreases ends.len(),
{
    if ends.len() > 0 {
        lemma_supervisor_unbounded(ends.drop_first());
    }
}

} // verus!
