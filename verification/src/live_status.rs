//! Status transitions of a live task and its recording row. The store reads
//! the current status, asks these functions whether the transition applies
//! and what to write, and refuses the write (no row changed) when it does
//! not.

use vstd::prelude::*;
use crate::text::{str_eq, to_owned_string};

verus! {

/// A live task that has not yet started recording.
pub open spec fn is_pending_status(s: Seq<char>) -> bool {
    s == "starting"@ || s == "running"@
}

/// What starting the recording row writes as the task's status, given its
/// current status: `recording`, or `stopping` when a stop was already
/// requested; `None` (refused) from any other status.
pub open spec fn recording_status_spec(current: Seq<char>) -> Option<Seq<char>> {
    if is_pending_status(current) {
        Some("recording"@)
    } else if current == "stopping"@ {
        Some("stopping"@)
    } else {
        None
    }
}

/// Whether a stop may be requested: the task is starting, running or
/// recording.
pub open spec fn stop_allowed_spec(current: Seq<char>) -> bool {
    is_pending_status(current) || current == "recording"@
}

/// Whether the recording row follows a stop request: only a row that is
/// recording.
pub open spec fn row_stops_spec(row_status: Seq<char>) -> bool {
    row_status == "recording"@
}

/// Whether a final outcome may be written: the task (and its row) is
/// recording or stopping.
pub open spec fn terminal_allowed_spec(current: Seq<char>) -> bool {
    current == "recording"@ || current == "stopping"@
}

/// The status written when the recording row is created, or `None` when the
/// task is not waiting to record.
pub fn recording_status(current: &str) -> (res: Option<String>)
    ensures
        match res {
            Some(s) => recording_status_spec(current@) == Some(s@),
            None => recording_status_spec(current@) is None,
        },
{
    if str_eq(current, "starting") || str_eq(current, "running") {
        Some(to_owned_string("recording"))
    } else if str_eq(current, "stopping") {
        Some(to_owned_string("stopping"))
    } else {
        None
    }
}

/// Whether a stop request applies to a task in `current`.
pub fn stop_allowed(current: &str) -> (res: bool)
    ensures
        res == stop_allowed_spec(current@),
{
    str_eq(current, "starting") || str_eq(current, "running") || str_eq(current, "recording")
}

/// Whether a stop request moves a recording row in `row_status` to
/// stopping.
pub fn row_stops(row_status: &str) -> (res: bool)
    ensures
        res == row_stops_spec(row_status@),
{
    str_eq(row_status, "recording")
}

/// Whether the final outcome of a recording may be written over `current`.
pub fn terminal_allowed(current: &str) -> (res: bool)
    ensures
        res == terminal_allowed_spec(current@),
{
    str_eq(current, "recording") || str_eq(current, "stopping")
}

/// A task that starts recording can always be finished: whatever status the
/// recording row's creation writes admits the final outcome.
pub proof fn lemma_recording_can_finish(current: Seq<char>)
    ensures
        recording_status_spec(current) matches Some(s) ==> terminal_allowed_spec(s),
{
}

/// A stop requested before the recording row exists is kept: creating the
/// row over a stopping task leaves it stopping.
pub proof fn lemma_stop_survives_recording_start()
    ensures
        recording_status_spec("stopping"@) == Some("stopping"@),
{
    assert("stopping"@ != "starting"@) by {
        reveal_strlit("stopping");
        reveal_strlit("starting");
        assert("stopping"@[3] != "starting"@[3]);
    }
    assert("stopping"@ != "running"@) by {
        reveal_strlit("stopping");
        reveal_strlit("running");
        assert("stopping"@[0] != "running"@[0]);
    }
}

/// A stopped task can still be finished: after a stop the task is stopping,
/// which admits the final outcome, and no second stop applies.
pub proof fn lemma_stop_then_finish(current: Seq<char>)
    requires
        stop_allowed_spec(current),
    ensures
        terminal_allowed_spec("stopping"@),
        !stop_allowed_spec("stopping"@),
{
    reveal_strlit("stopping");
    reveal_strlit("starting");
    reveal_strlit("running");
    reveal_strlit("recording");
    assert("stopping"@[3] != "starting"@[3]);
    assert("stopping"@ != "recording"@);
}

/// A finished task stays finished: from `completed`, `failed` or
/// `cancelled` no transition applies.
pub proof fn lemma_finished_is_final(current: Seq<char>)
    requires
        current == "completed"@ || current == "failed"@ || current == "cancelled"@,
    ensures
        recording_status_spec(current) is None,
        !stop_allowed_spec(current),
        !terminal_allowed_spec(current),
{
    reveal_strlit("completed");
    reveal_strlit("failed");
    reveal_strlit("cancelled");
    reveal_strlit("stopping");
    reveal_strlit("starting");
    reveal_strlit("running");
    reveal_strlit("recording");
    assert(current[0] != "starting"@[0] && current[0] != "running"@[0]);
    assert(current != "starting"@ && current != "stopping"@ && current != "running"@ && current != "recording"@);
}

} // verus!
