//! Download vocabulary shared with the front end: modes, task statuses, task
//! patches and task events.

use vstd::prelude::*;
use crate::text::{str_eq, to_owned_string};

verus! {

/// Download mode (the `mode` names the resolver side understands).
#[derive(Debug, Clone, Copy, PartialEq, Eq, Hash, Structural)]
pub enum DownloadMode {
    One,
    Post,
    Like,
    Mix,
    Collects,
    Live,
    Music,
}

/// The wire name of a mode.
pub open spec fn mode_name(m: DownloadMode) -> Seq<char> {
    match m {
        DownloadMode::One => "one"@,
        DownloadMode::Post => "post"@,
        DownloadMode::Like => "like"@,
        DownloadMode::Mix => "mix"@,
        DownloadMode::Collects => "collects"@,
        DownloadMode::Live => "live"@,
        DownloadMode::Music => "music"@,
    }
}

/// The mode whose wire name is `s`, if any.
pub open spec fn mode_named(s: Seq<char>) -> Option<DownloadMode> {
    if s == "one"@ {
        Some(DownloadMode::One)
    } else if s == "post"@ {
        Some(DownloadMode::Post)
    } else if s == "like"@ {
        Some(DownloadMode::Like)
    } else if s == "mix"@ {
        Some(DownloadMode::Mix)
    } else if s == "collects"@ {
        Some(DownloadMode::Collects)
    } else if s == "live"@ {
        Some(DownloadMode::Live)
    } else if s == "music"@ {
        Some(DownloadMode::Music)
    } else {
        None
    }
}

impl DownloadMode {
    /// Parses a wire name; unknown names give `None`.
    pub fn from_str(s: &str) -> (res: Option<Self>)
        ensures
            res == mode_named(s@),
    {
        if str_eq(s, "one") {
            Some(Self::One)
        } else if str_eq(s, "post") {
            Some(Self::Post)
        } else if str_eq(s, "like") {
            Some(Self::Like)
        } else if str_eq(s, "mix") {
            Some(Self::Mix)
        } else if str_eq(s, "collects") {
            Some(Self::Collects)
        } else if str_eq(s, "live") {
            Some(Self::Live)
        } else if str_eq(s, "music") {
            Some(Self::Music)
        } else {
            None
        }
    }

    /// The wire name of the mode.
    pub fn as_str(&self) -> (res: &'static str)
        ensures
            res@ == mode_name(*self),
    {
        match self {
            Self::One => "one",
            Self::Post => "post",
            Self::Like => "like",
            Self::Mix => "mix",
            Self::Collects => "collects",
            Self::Live => "live",
            Self::Music => "music",
        }
    }

    /// The wire name as an owned string (what `Display` writes).
    pub fn to_string(&self) -> (res: String)
        ensures
            res@ == mode_name(*self),
    {
        to_owned_string(self.as_str())
    }
}

/// Parsing the name of a mode gives the mode back, so distinct modes have
/// distinct names.
pub proof fn lemma_mode_name_round_trip(m: DownloadMode)
    ensures
        mode_named(mode_name(m)) == Some(m),
{
    reveal_strlit("one");
    reveal_strlit("post");
    reveal_strlit("like");
    reveal_strlit("mix");
    reveal_strlit("collects");
    reveal_strlit("live");
    reveal_strlit("music");
    match m {
        DownloadMode::One => {
        },
        DownloadMode::Post => {
            assert("post"@ != "one"@) by {
                assert("post"@.len() != "one"@.len());
            }
        },
        DownloadMode::Like => {
            assert("like"@ != "one"@) by {
                assert("like"@.len() != "one"@.len());
            }
            assert("like"@ != "post"@) by {
                assert("like"@[0] != "post"@[0]);
            }
        },
        DownloadMode::Mix => {
            assert("mix"@ != "one"@) by {
                assert("mix"@[0] != "one"@[0]);
            }
            assert("mix"@ != "post"@) by {
                assert("mix"@.len() != "post"@.len());
            }
            assert("mix"@ != "like"@) by {
                assert("mix"@.len() != "like"@.len());
            }
        },
        DownloadMode::Collects => {
            assert("collects"@ != "one"@) by {
                assert("collects"@.len() != "one"@.len());
            }
            assert("collects"@ != "post"@) by {
                assert("collects"@.len() != "post"@.len());
            }
            assert("collects"@ != "like"@) by {
                assert("collects"@.len() != "like"@.len());
            }
            assert("collects"@ != "mix"@) by {
                assert("collects"@.len() != "mix"@.len());
            }
        },
        DownloadMode::Live => {
            assert("live"@ != "one"@) by {
                assert("live"@.len() != "one"@.len());
            }
            assert("live"@ != "post"@) by {
                assert("live"@[0] != "post"@[0]);
            }
            assert("live"@ != "like"@) by {
                assert("live"@[2] != "like"@[2]);
            }
            assert("live"@ != "mix"@) by {
                assert("live"@.len() != "mix"@.len());
            }
            assert("live"@ != "collects"@) by {
                assert("live"@.len() != "collects"@.len());
            }
        },
        DownloadMode::Music => {
            assert("music"@ != "one"@) by {
                assert("music"@.len() != "one"@.len());
            }
            assert("music"@ != "post"@) by {
                assert("music"@.len() != "post"@.len());
            }
            assert("music"@ != "like"@) by {
                assert("music"@.len() != "like"@.len());
            }
            assert("music"@ != "mix"@) by {
                assert("music"@.len() != "mix"@.len());
            }
            assert("music"@ != "collects"@) by {
                assert("music"@.len() != "collects"@.len());
            }
            assert("music"@ != "live"@) by {
                assert("music"@.len() != "live"@.len());
            }
        },
    }
}

/// Task status (the `status` column of download tasks).
#[derive(Debug, Clone, Copy, PartialEq, Eq, Hash, Structural)]
pub enum TaskStatus {
    Pending,
    Starting,
    Running,
    Recording,
    Stopping,
    Completed,
    Error,
    Cancelled,
    Interrupted,
}

/// The stored name of a status.
pub open spec fn status_name(s: TaskStatus) -> Seq<char> {
    match s {
        TaskStatus::Pending => "pending"@,
        TaskStatus::Starting => "starting"@,
        TaskStatus::Running => "running"@,
        TaskStatus::Recording => "recording"@,
        TaskStatus::Stopping => "stopping"@,
        TaskStatus::Completed => "completed"@,
        TaskStatus::Error => "error"@,
        TaskStatus::Cancelled => "cancelled"@,
        TaskStatus::Interrupted => "interrupted"@,
    }
}

/// The status whose stored name is `s`, if any.
pub open spec fn status_named(s: Seq<char>) -> Option<TaskStatus> {
    if s == "pending"@ {
        Some(TaskStatus::Pending)
    } else if s == "starting"@ {
        Some(TaskStatus::Starting)
    } else if s == "running"@ {
        Some(TaskStatus::Running)
    } else if s == "recording"@ {
        Some(TaskStatus::Recording)
    } else if s == "stopping"@ {
        Some(TaskStatus::Stopping)
    } else if s == "completed"@ {
        Some(TaskStatus::Completed)
    } else if s == "error"@ {
        Some(TaskStatus::Error)
    } else if s == "cancelled"@ {
        Some(TaskStatus::Cancelled)
    } else if s == "interrupted"@ {
        Some(TaskStatus::Interrupted)
    } else {
        None
    }
}

/// Whether a status is terminal (never changes again).
pub open spec fn status_terminal(s: TaskStatus) -> bool {
    s == TaskStatus::Completed || s == TaskStatus::Error || s == TaskStatus::Cancelled
        || s == TaskStatus::Interrupted
}

impl TaskStatus {
    /// Parses a stored name; unknown names give `None`.
    pub fn from_str(s: &str) -> (res: Option<Self>)
        ensures
            res == status_named(s@),
    {
        if str_eq(s, "pending") {
            Some(Self::Pending)
        } else if str_eq(s, "starting") {
            Some(Self::Starting)
        } else if str_eq(s, "running") {
            Some(Self::Running)
        } else if str_eq(s, "recording") {
            Some(Self::Recording)
        } else if str_eq(s, "stopping") {
            Some(Self::Stopping)
        } else if str_eq(s, "completed") {
            Some(Self::Completed)
        } else if str_eq(s, "error") {
            Some(Self::Error)
        } else if str_eq(s, "cancelled") {
            Some(Self::Cancelled)
        } else if str_eq(s, "interrupted") {
            Some(Self::Interrupted)
        } else {
            None
        }
    }

    /// The stored name of the status.
    pub fn as_str(&self) -> (res: &'static str)
        ensures
            res@ == status_name(*self),
    {
        match self {
            Self::Pending => "pending",
            Self::Starting => "starting",
            Self::Running => "running",
            Self::Recording => "recording",
            Self::Stopping => "stopping",
            Self::Completed => "completed",
            Self::Error => "error",
            Self::Cancelled => "cancelled",
            Self::Interrupted => "interrupted",
        }
    }

    /// Whether the status is terminal: completed, error, cancelled or
    /// interrupted.
    pub fn is_terminal(&self) -> (res: bool)
        ensures
            res == status_terminal(*self),
    {
        match self {
            Self::Completed | Self::Error | Self::Cancelled | Self::Interrupted => true,
            _ => false,
        }
    }
}

/// Parsing the name of a status gives the status back.
pub proof fn lemma_status_name_round_trip(s: TaskStatus)
    ensures
        status_named(status_name(s)) == Some(s),
{
    reveal_strlit("pending");
    reveal_strlit("starting");
    reveal_strlit("running");
    reveal_strlit("recording");
    reveal_strlit("stopping");
    reveal_strlit("completed");
    reveal_strlit("error");
    reveal_strlit("cancelled");
    reveal_strlit("interrupted");
    match s {
        TaskStatus::Pending => {
        },
        TaskStatus::Starting => {
            assert("starting"@ != "pending"@) by {
                assert("starting"@.len() != "pending"@.len());
            }
        },
        TaskStatus::Running => {
            assert("running"@ != "pending"@) by {
                assert("running"@[0] != "pending"@[0]);
            }
            assert("running"@ != "starting"@) by {
                assert("running"@.len() != "starting"@.len());
            }
        },
        TaskStatus::Recording => {
            assert("recording"@ != "pending"@) by {
                assert("recording"@.len() != "pending"@.len());
            }
            assert("recording"@ != "starting"@) by {
                assert("recording"@.len() != "starting"@.len());
            }
            assert("recording"@ != "running"@) by {
                assert("recording"@.len() != "running"@.len());
            }
        },
        TaskStatus::Stopping => {
            assert("stopping"@ != "pending"@) by {
                assert("stopping"@.len() != "pending"@.len());
            }
            assert("stopping"@ != "starting"@) by {
                assert("stopping"@[2] != "starting"@[2]);
            }
            assert("stopping"@ != "running"@) by {
                assert("stopping"@.len() != "running"@.len());
            }
            assert("stopping"@ != "recording"@) by {
                assert("stopping"@.len() != "recording"@.len());
            }
        },
        TaskStatus::Completed => {
            assert("completed"@ != "pending"@) by {
                assert("completed"@.len() != "pending"@.len());
            }
            assert("completed"@ != "starting"@) by {
                assert("completed"@.len() != "starting"@.len());
            }
            assert("completed"@ != "running"@) by {
                assert("completed"@.len() != "running"@.len());
            }
            assert("completed"@ != "recording"@) by {
                assert("completed"@[0] != "recording"@[0]);
            }
            assert("completed"@ != "stopping"@) by {
                assert("completed"@.len() != "stopping"@.len());
            }
        },
        TaskStatus::Error => {
            assert("error"@ != "pending"@) by {
                assert("error"@.len() != "pending"@.len());
            }
            assert("error"@ != "starting"@) by {
                assert("error"@.len() != "starting"@.len());
            }
            assert("error"@ != "running"@) by {
                assert("error"@.len() != "running"@.len());
            }
            assert("error"@ != "recording"@) by {
                assert("error"@.len() != "recording"@.len());
            }
            assert("error"@ != "stopping"@) by {
                assert("error"@.len() != "stopping"@.len());
            }
            assert("error"@ != "completed"@) by {
                assert("error"@.len() != "completed"@.len());
            }
        },
        TaskStatus::Cancelled => {
            assert("cancelled"@ != "pending"@) by {
                assert("cancelled"@.len() != "pending"@.len());
            }
            assert("cancelled"@ != "starting"@) by {
                assert("cancelled"@.len() != "starting"@.len());
            }
            assert("cancelled"@ != "running"@) by {
                assert("cancelled"@.len() != "running"@.len());
            }
            assert("cancelled"@ != "recording"@) by {
                assert("cancelled"@[0] != "recording"@[0]);
            }
            assert("cancelled"@ != "stopping"@) by {
                assert("cancelled"@.len() != "stopping"@.len());
            }
            assert("cancelled"@ != "completed"@) by {
                assert("cancelled"@[1] != "completed"@[1]);
            }
            assert("cancelled"@ != "error"@) by {
                assert("cancelled"@.len() != "error"@.len());
            }
        },
        TaskStatus::Interrupted => {
            assert("interrupted"@ != "pending"@) by {
                assert("interrupted"@.len() != "pending"@.len());
            }
            assert("interrupted"@ != "starting"@) by {
                assert("interrupted"@.len() != "starting"@.len());
            }
            assert("interrupted"@ != "running"@) by {
                assert("interrupted"@.len() != "running"@.len());
            }
            assert("interrupted"@ != "recording"@) by {
                assert("interrupted"@.len() != "recording"@.len());
            }
            assert("interrupted"@ != "stopping"@) by {
                assert("interrupted"@.len() != "stopping"@.len());
            }
            assert("interrupted"@ != "completed"@) by {
                assert("interrupted"@.len() != "completed"@.len());
            }
            assert("interrupted"@ != "error"@) by {
                assert("interrupted"@.len() != "error"@.len());
            }
            assert("interrupted"@ != "cancelled"@) by {
                assert("interrupted"@.len() != "cancelled"@.len());
            }
        },
    }
}

/// Unified download request from the front end.
#[derive(Debug)]
pub struct DownloadRequest {
    pub mode: DownloadMode,
    pub url: String,
    pub aweme_ids: Vec<String>,
}

/// Partial task update carried by events; `None` fields leave the current
/// value in place.
#[derive(Debug)]
pub struct TaskPatch {
    pub task_id: String,
    pub status: Option<TaskStatus>,
    pub total: Option<i64>,
    pub completed: Option<i64>,
    pub skipped: Option<i64>,
    pub failed: Option<i64>,
    pub error_msg: Option<String>,
    pub current_item: Option<String>,
    pub title: Option<String>,
    pub nickname: Option<String>,
    pub room_id: Option<String>,
    pub web_rid: Option<String>,
    pub cover_url: Option<String>,
    pub file: Option<String>,
    pub file_size: Option<i64>,
    pub duration_sec: Option<i64>,
    pub started_at: Option<i64>,
    pub ended_at: Option<i64>,
}

/// Whether every optional field of a patch is absent.
pub open spec fn patch_is_blank(p: TaskPatch) -> bool {
    &&& p.status is None
    &&& p.total is None
    &&& p.completed is None
    &&& p.skipped is None
    &&& p.failed is None
    &&& p.error_msg is None
    &&& p.current_item is None
    &&& p.title is None
    &&& p.nickname is None
    &&& p.room_id is None
    &&& p.web_rid is None
    &&& p.cover_url is None
    &&& p.file is None
    &&& p.file_size is None
    &&& p.duration_sec is None
    &&& p.started_at is None
    &&& p.ended_at is None
}

impl TaskPatch {
    /// A patch that carries only the task id.
    pub fn new(task_id: &str) -> (res: Self)
        ensures
            res.task_id@ == task_id@,
            patch_is_blank(res),
    {
        TaskPatch {
            task_id: to_owned_string(task_id),
            status: None,
            total: None,
            completed: None,
            skipped: None,
            failed: None,
            error_msg: None,
            current_item: None,
            title: None,
            nickname: None,
            room_id: None,
            web_rid: None,
            cover_url: None,
            file: None,
            file_size: None,
            duration_sec: None,
            started_at: None,
            ended_at: None,
        }
    }

    /// Sets the status.
    pub fn with_status(self, status: TaskStatus) -> (res: Self)
        ensures
            res == (TaskPatch { status: Some(status), ..self }),
    {
        let mut p = self;
        p.status = Some(status);
        p
    }

    /// Sets the four item counters.
    pub fn with_counts(self, total: i64, completed: i64, failed: i64, skipped: i64) -> (res: Self)
        ensures
            res == (TaskPatch {
                total: Some(total),
                completed: Some(completed),
                failed: Some(failed),
                skipped: Some(skipped),
                ..self
            }),
    {
        let mut p = self;
        p.total = Some(total);
        p.completed = Some(completed);
        p.failed = Some(failed);
        p.skipped = Some(skipped);
        p
    }

    /// Sets the error message; the status becomes `Error`.
    pub fn with_error(self, msg: &str) -> (res: Self)
        ensures
            res.error_msg matches Some(m) && m@ == msg@,
            res == (TaskPatch { error_msg: res.error_msg, status: Some(TaskStatus::Error), ..self }),
    {
        let mut p = self;
        p.error_msg = Some(to_owned_string(msg));
        p.status = Some(TaskStatus::Error);
        p
    }

    /// Sets the live room metadata.
    pub fn with_live_metadata(self, title: &str, nickname: &str, room_id: &str, web_rid: &str, cover_url: &str) -> (res: Self)
        ensures
            res.title matches Some(v) && v@ == title@,
            res.nickname matches Some(v) && v@ == nickname@,
            res.room_id matches Some(v) && v@ == room_id@,
            res.web_rid matches Some(v) && v@ == web_rid@,
            res.cover_url matches Some(v) && v@ == cover_url@,
            res == (TaskPatch {
                title: res.title,
                nickname: res.nickname,
                room_id: res.room_id,
                web_rid: res.web_rid,
                cover_url: res.cover_url,
                ..self
            }),
    {
        let mut p = self;
        p.title = Some(to_owned_string(title));
        p.nickname = Some(to_owned_string(nickname));
        p.room_id = Some(to_owned_string(room_id));
        p.web_rid = Some(to_owned_string(web_rid));
        p.cover_url = Some(to_owned_string(cover_url));
        p
    }

    /// Sets the recording result.
    pub fn with_live_result(self, file: &str, file_size: i64, duration_sec: i64, started_at: i64, ended_at: i64) -> (res: Self)
        ensures
            res.file matches Some(v) && v@ == file@,
            res == (TaskPatch {
                file: res.file,
                file_size: Some(file_size),
                duration_sec: Some(duration_sec),
                started_at: Some(started_at),
                ended_at: Some(ended_at),
                ..self
            }),
    {
        let mut p = self;
        p.file = Some(to_owned_string(file));
        p.file_size = Some(file_size);
        p.duration_sec = Some(duration_sec);
        p.started_at = Some(started_at);
        p.ended_at = Some(ended_at);
        p
    }
}

/// Kind of task event.
#[derive(Debug, Clone, Copy, PartialEq, Eq, Structural)]
pub enum TaskEventType {
    Started,
    Progress,
    Finished,
}

/// Typed task event sent to the front end.
#[derive(Debug)]
pub struct TaskEvent {
    pub event_type: TaskEventType,
    pub task_id: String,
    pub mode: Option<DownloadMode>,
    pub url: Option<String>,
    pub patch: TaskPatch,
}

impl TaskEvent {
    /// Task-started event: the patch carries the task id and status
    /// `Running`.
    pub fn started(task_id: &str, mode: DownloadMode, url: &str) -> (res: Self)
        ensures
            res.event_type == TaskEventType::Started,
            res.task_id@ == task_id@,
            res.mode == Some(mode),
            res.url matches Some(u) && u@ == url@,
            res.patch.task_id@ == task_id@,
            res.patch.status == Some(TaskStatus::Running),
            patch_is_blank(TaskPatch { status: None, ..res.patch }),
    {
        let patch = TaskPatch::new(task_id).with_status(TaskStatus::Running);
        TaskEvent {
            event_type: TaskEventType::Started,
            task_id: to_owned_string(task_id),
            mode: Some(mode),
            url: Some(to_owned_string(url)),
            patch,
        }
    }

    /// Progress event for a patch; the event's task id is the patch's.
    pub fn progress(patch: TaskPatch) -> (res: Self)
        ensures
            res.event_type == TaskEventType::Progress,
            res.task_id@ == patch.task_id@,
            res.mode is None,
            res.url is None,
            res.patch == patch,
    {
        let task_id = patch.task_id.clone();
        TaskEvent { event_type: TaskEventType::Progress, task_id, mode: None, url: None, patch }
    }

    /// Finished event for a patch; the event's task id is the patch's.
    pub fn finished(patch: TaskPatch) -> (res: Self)
        ensures
            res.event_type == TaskEventType::Finished,
            res.task_id@ == patch.task_id@,
            res.mode is None,
            res.url is None,
            res.patch == patch,
    {
        let task_id = patch.task_id.clone();
        TaskEvent { event_type: TaskEventType::Finished, task_id, mode: None, url: None, patch }
    }
}

/// Accessory of a resolved item (music, cover or description).
#[derive(Debug)]
pub struct ResolvedAccessory {
    pub url: Option<String>,
    pub filename: String,
    pub suffix: String,
    pub content_type: String,
    pub content: Option<String>,
}

} // verus!
