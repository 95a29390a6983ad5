use douyin_core::event_payload::{format_event_payload, FieldValue};

fn text(k: &str, v: &str) -> (String, FieldValue) {
    (k.to_string(), FieldValue::Text(v.to_string()))
}

fn other(k: &str, token: u64) -> (String, FieldValue) {
    (k.to_string(), FieldValue::Other(token))
}

fn get<'a>(d: &'a [(String, FieldValue)], k: &str) -> Option<&'a FieldValue> {
    d.iter().find(|(key, _)| key == k).map(|(_, v)| v)
}

fn t(s: &str) -> FieldValue {
    FieldValue::Text(s.to_string())
}

#[test]
fn test_progress_event() {
    let data = vec![
        text("event_type", "progress"),
        text("status", "running"),
        text("mode", "post"),
        text("url", "https://example.com"),
        other("total", 10),
        other("completed", 5),
        other("failed", 1),
        other("skipped", 0),
        text("current_item", "video_3"),
    ];
    let result = format_event_payload("task-123", "batch", &data);
    assert_eq!(result.task_type, "typed");
    assert_eq!(result.task_id, "task-123");
    let d = &result.data;
    assert_eq!(get(d, "event_type"), Some(&t("progress")));
    assert_eq!(get(d, "status"), Some(&t("running")));
    assert_eq!(get(d, "mode"), Some(&t("post")));
    assert_eq!(get(d, "total"), Some(&FieldValue::Other(10)));
    assert_eq!(get(d, "completed"), Some(&FieldValue::Other(5)));
    assert_eq!(get(d, "failed"), Some(&FieldValue::Other(1)));
    assert_eq!(get(d, "current_item"), Some(&t("video_3")));
}

#[test]
fn test_live_completed_event() {
    let data = vec![
        text("event_type", "finished"),
        text("status", "completed"),
        text("mode", "live"),
        text("title", "主播名称"),
        text("nickname", "用户名"),
        text("file", "/path/to/file.mp4"),
        other("file_size", 12345),
        other("duration_sec", 3600),
        text("room_id", "123456"),
        text("type", "live_record"),
    ];
    let result = format_event_payload("task-456", "live", &data);
    assert_eq!(result.task_type, "typed");
    let d = &result.data;
    assert_eq!(get(d, "event_type"), Some(&t("completed")));
    assert_eq!(get(d, "title"), Some(&t("主播名称")));
    assert_eq!(get(d, "file"), Some(&t("/path/to/file.mp4")));
    assert_eq!(get(d, "file_size"), Some(&FieldValue::Other(12345)));
}

#[test]
fn test_unknown_event_type_fallback() {
    let result = format_event_payload("task-789", "unknown", &vec![]);
    assert_eq!(result.task_type, "typed");
    let d = &result.data;
    assert_eq!(get(d, "event_type"), Some(&t("progress")));
    assert_eq!(get(d, "status"), Some(&t("running")));
}

#[test]
fn test_error_fields() {
    let data = vec![
        text("event_type", "progress"),
        text("status", "error"),
        text("error", "Connection failed"),
        text("error_msg", "无法连接到服务器"),
    ];
    let result = format_event_payload("task-err", "batch", &data);
    let d = &result.data;
    assert_eq!(get(d, "error"), Some(&t("Connection failed")));
    assert_eq!(get(d, "error_msg"), Some(&t("无法连接到服务器")));
}

#[test]
fn test_live_started_fields_forwarded() {
    let data = vec![
        text("event_type", "started"),
        text("status", "recording"),
        text("mode", "live"),
        text("room_id", "123456"),
        text("web_rid", "abc123"),
        text("cover_url", "https://example.com/cover.jpg"),
        text("started_at", "2026-07-01T00:00:00Z"),
    ];
    let result = format_event_payload("task-live", "live", &data);
    let d = &result.data;
    assert_eq!(get(d, "event_type"), Some(&t("started")));
    assert_eq!(get(d, "room_id"), Some(&t("123456")));
    assert_eq!(get(d, "web_rid"), Some(&t("abc123")));
    assert!(get(d, "cover_url").is_some());
}

#[test]
fn test_task_type_always_typed() {
    let cases = vec![
        vec![text("event_type", "progress"), text("status", "running")],
        vec![text("event_type", "finished"), text("status", "completed")],
        vec![text("event_type", "started"), text("status", "starting")],
        vec![],
        vec![text("event_type", "unknown_event_type")],
    ];
    for data in cases {
        let result = format_event_payload("tid", "any", &data);
        assert_eq!(result.task_type, "typed", "task_type 应为 typed 对于输入: {:?}", data);
    }
}

#[test]
fn non_text_type_and_mode_are_ignored() {
    let data = vec![other("event_type", 1), other("mode", 2), other("status", 3), text("note", "x")];
    let result = format_event_payload("tid", "any", &data);
    let d = &result.data;
    assert_eq!(get(d, "event_type"), Some(&t("progress")));
    assert_eq!(get(d, "mode"), None);
    assert_eq!(get(d, "status"), Some(&t("running")));
    assert_eq!(get(d, "note"), None);
    assert_eq!(
        d.iter().map(|(k, _)| k.as_str()).collect::<Vec<_>>(),
        vec!["event_type", "task_id", "status"]
    );
}
