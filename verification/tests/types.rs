use douyin_core::download::types::{DownloadMode, TaskEvent, TaskEventType, TaskPatch, TaskStatus};
use douyin_core::events::{emit_error, emit_finished, emit_progress, emit_started};

#[test]
fn task_status_interrupted_is_terminal() {
    assert!(TaskStatus::Interrupted.is_terminal());
    assert_eq!(TaskStatus::Interrupted.as_str(), "interrupted");
    assert_eq!(TaskStatus::from_str("interrupted"), Some(TaskStatus::Interrupted));
}

#[test]
fn status_names_round_trip() {
    for s in [
        TaskStatus::Pending,
        TaskStatus::Starting,
        TaskStatus::Running,
        TaskStatus::Recording,
        TaskStatus::Stopping,
        TaskStatus::Completed,
        TaskStatus::Error,
        TaskStatus::Cancelled,
        TaskStatus::Interrupted,
    ] {
        assert_eq!(TaskStatus::from_str(s.as_str()), Some(s));
    }
    assert_eq!(TaskStatus::from_str("nope"), None);
    assert!(!TaskStatus::Running.is_terminal());
    assert!(TaskStatus::Completed.is_terminal());
}

#[test]
fn mode_names_round_trip() {
    for m in [
        DownloadMode::One,
        DownloadMode::Post,
        DownloadMode::Like,
        DownloadMode::Mix,
        DownloadMode::Collects,
        DownloadMode::Live,
        DownloadMode::Music,
    ] {
        assert_eq!(DownloadMode::from_str(m.as_str()), Some(m));
    }
    assert_eq!(DownloadMode::Collects.as_str(), "collects");
    assert_eq!(DownloadMode::from_str("Post"), None);
}

#[test]
fn patch_builders_set_their_fields() {
    let p = TaskPatch::new("t1")
        .with_status(TaskStatus::Completed)
        .with_live_metadata("标题", "主播", "room-1", "web-1", "cover")
        .with_live_result("/tmp/live.flv", 1024, 60, 100, 160);
    assert_eq!(p.task_id, "t1");
    assert_eq!(p.status, Some(TaskStatus::Completed));
    assert_eq!(p.title.as_deref(), Some("标题"));
    assert_eq!(p.nickname.as_deref(), Some("主播"));
    assert_eq!(p.room_id.as_deref(), Some("room-1"));
    assert_eq!(p.file.as_deref(), Some("/tmp/live.flv"));
    assert_eq!(p.file_size, Some(1024));
    assert_eq!(p.duration_sec, Some(60));
    assert_eq!(p.total, None);
    let e = TaskPatch::new("t2").with_counts(10, 5, 1, 0).with_error("boom");
    assert_eq!(e.status, Some(TaskStatus::Error));
    assert_eq!(e.error_msg.as_deref(), Some("boom"));
    assert_eq!((e.total, e.completed, e.failed, e.skipped), (Some(10), Some(5), Some(1), Some(0)));
}

#[test]
fn event_constructors() {
    let s = TaskEvent::started("t", DownloadMode::Post, "https://x");
    assert_eq!(s.event_type, TaskEventType::Started);
    assert_eq!(s.patch.status, Some(TaskStatus::Running));
    assert_eq!(s.url.as_deref(), Some("https://x"));
    let p = TaskEvent::progress(TaskPatch::new("t"));
    assert_eq!(p.event_type, TaskEventType::Progress);
    assert_eq!(p.task_id, "t");
    let f = TaskEvent::finished(TaskPatch::new("t").with_status(TaskStatus::Cancelled));
    assert_eq!(f.event_type, TaskEventType::Finished);
    assert!(f.mode.is_none());
}

#[test]
fn emitted_events() {
    let s = emit_started("t", DownloadMode::Music, "u");
    assert_eq!(s.mode, Some(DownloadMode::Music));
    let e = emit_error("t", "bad");
    assert_eq!(e.event_type, TaskEventType::Finished);
    assert_eq!(e.patch.status, Some(TaskStatus::Error));
    assert_eq!(e.patch.error_msg.as_deref(), Some("bad"));
    assert_eq!(emit_progress(TaskPatch::new("x")).event_type, TaskEventType::Progress);
    assert_eq!(emit_finished(TaskPatch::new("x")).task_id, "x");
}
