//! The bookkeeping decisions of the test and threaded dispatchers: how the
//! count of in-flight runnables moves and when waiters are woken, and how a
//! stored CPU-count override reads back.
//!
//! The counters themselves live behind a lock or an atomic in the caller;
//! what is decided here is plain arithmetic on their values.

use vstd::prelude::*;
use crate::unicode::str_eq;

verus! {

/// The in-flight count after one more runnable is queued.
pub fn inflight_after_increment(inflight: usize) -> (r: usize)
    requires
        inflight < usize::MAX,
    ensures
        r == inflight + 1,
{
    inflight + 1
}

/// The in-flight count after a runnable finishes, and whether the waiters
/// must be woken: exactly when nothing is left in flight.
pub fn inflight_after_decrement(inflight: usize) -> (r: (usize, bool))
    requires
        inflight > 0,
    ensures
        r.0 == inflight - 1,
        r.1 == (inflight == 1),
{
    let left = inflight - 1;
    (left, left == 0)
}

/// The CPU count a stored override stands for: zero means no override.
pub open spec fn cpu_override(raw: usize) -> Option<usize> {
    if raw == 0 {
        None
    } else {
        Some(raw)
    }
}

/// Reads a stored CPU-count override: `None` when it is zero (no override),
/// the count otherwise.
pub fn num_cpus_override(raw: usize) -> (r: Option<usize>)
    ensures
        r == cpu_override(raw),
{
    match raw {
        0 => None,
        n => Some(n),
    }
}

/// Whether a test dispatcher records the traces of pending tasks: when the
/// variable that asks for it is set to `1` or `true`.
pub open spec fn traces_requested(value: Option<Seq<char>>) -> bool {
    match value {
        Some(v) => v == seq!['1'] || v == seq!['t', 'r', 'u', 'e'],
        None => false,
    }
}

/// Reads the value of the variable asking for pending-task traces.
pub fn capture_pending_traces(value: Option<&str>) -> (r: bool)
    ensures
        r == traces_requested(match value {
            Some(v) => Some(v@),
            None => None,
        }),
{
    match value {
        Some(v) => {
            proof {
                reveal_strlit("1");
                reveal_strlit("true");
            }
            let one = "1";
            let yes = "true";
            assert(one@ =~= seq!['1']);
            assert(yes@ =~= seq!['t', 'r', 'u', 'e']);
            str_eq(v, one) || str_eq(v, yes)
        },
        None => false,
    }
}

} // verus!
