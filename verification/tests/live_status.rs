use douyin_core::live_status::{recording_status, row_stops, stop_allowed, terminal_allowed};

#[test]
fn recording_starts_from_pending_statuses() {
    assert_eq!(recording_status("starting").as_deref(), Some("recording"));
    assert_eq!(recording_status("running").as_deref(), Some("recording"));
}

#[test]
fn stop_requested_before_recording_is_kept() {
    assert_eq!(recording_status("stopping").as_deref(), Some("stopping"));
    assert!(terminal_allowed("stopping"));
}

#[test]
fn recording_refused_from_other_statuses() {
    for s in ["recording", "completed", "failed", "cancelled", ""] {
        assert_eq!(recording_status(s), None, "{}", s);
    }
}

#[test]
fn stop_applies_only_before_the_end() {
    assert!(stop_allowed("starting"));
    assert!(stop_allowed("running"));
    assert!(stop_allowed("recording"));
    assert!(!stop_allowed("stopping"));
    assert!(!stop_allowed("completed"));
    assert!(row_stops("recording"));
    assert!(!row_stops("stopping"));
}

#[test]
fn finished_tasks_take_no_transition() {
    for s in ["completed", "failed", "cancelled"] {
        assert_eq!(recording_status(s), None);
        assert!(!stop_allowed(s));
        assert!(!terminal_allowed(s));
    }
    assert!(terminal_allowed("recording"));
    assert!(!terminal_allowed("starting"));
}
