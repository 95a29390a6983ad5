//! The typed task events sent to the front end under `task-update`. Each
//! function here builds the event; sending it is the caller's part.

use vstd::prelude::*;
use crate::download::types::{
    patch_is_blank, DownloadMode, TaskEvent, TaskEventType, TaskPatch, TaskStatus,
};

verus! {

/// The task-started event for a task: status `Running`, with its mode and
/// URL.
pub fn emit_started(task_id: &str, mode: DownloadMode, url: &str) -> (res: TaskEvent)
    ensures
        res.event_type == TaskEventType::Started,
        res.task_id@ == task_id@,
        res.mode == Some(mode),
        res.url matches Some(u) && u@ == url@,
        res.patch.task_id@ == task_id@,
        res.patch.status == Some(TaskStatus::Running),
        patch_is_blank(TaskPatch { status: None, ..res.patch }),
{
    TaskEvent::started(task_id, mode, url)
}

/// The progress event carrying a patch.
pub fn emit_progress(patch: TaskPatch) -> (res: TaskEvent)
    ensures
        res.event_type == TaskEventType::Progress,
        res.task_id@ == patch.task_id@,
        res.mode is None,
        res.url is None,
        res.patch == patch,
{
    TaskEvent::progress(patch)
}

/// The finished event carrying a patch.
pub fn emit_finished(patch: TaskPatch) -> (res: TaskEvent)
    ensures
        res.event_type == TaskEventType::Finished,
        res.task_id@ == patch.task_id@,
        res.mode is None,
        res.url is None,
        res.patch == patch,
{
    TaskEvent::finished(patch)
}

/// The finished event of a failed task: status `Error` and the message.
pub fn emit_error(task_id: &str, error: &str) -> (res: TaskEvent)
    ensures
        res.event_type == TaskEventType::Finished,
        res.task_id@ == task_id@,
        res.mode is None,
        res.url is None,
        res.patch.task_id@ == task_id@,
        res.patch.status == Some(TaskStatus::Error),
        res.patch.error_msg matches Some(m) && m@ == error@,
        patch_is_blank(TaskPatch { status: None, error_msg: None, ..res.patch }),
{
    let patch = TaskPatch::new(task_id).with_status(TaskStatus::Error).with_error(error);
    TaskEvent::finished(patch)
}

} // verus!
