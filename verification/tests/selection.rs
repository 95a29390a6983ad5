use douyin_core::download::selection::SelectionTracker;

#[test]
fn empty_input_is_inactive() {
    let t = SelectionTracker::new(vec![]);
    assert!(!t.is_active());
    assert!(t.requested().is_empty());
}

#[test]
fn normalizes_trims_and_deduplicates() {
    let t = SelectionTracker::new(vec![
        "  a ".to_string(),
        "b".to_string(),
        "".to_string(),
        "  ".to_string(),
        "a".to_string(),
        "b".to_string(),
    ]);
    assert!(t.is_active());
    assert_eq!(t.requested(), &["a", "b"]);
}

#[test]
fn preserves_input_order() {
    let t = SelectionTracker::new(vec![
        "z".to_string(),
        "a".to_string(),
        "m".to_string(),
        "z".to_string(),
    ]);
    assert_eq!(t.requested(), &["z", "a", "m"]);
}

#[test]
fn seen_tracks_only_requested_ids() {
    let mut t = SelectionTracker::new(vec!["target".to_string()]);
    t.mark_seen(&["target".to_string(), "other".to_string()]);
    assert!(t.all_seen());
    assert!(t.missing_ids().is_empty());
}

#[test]
fn duplicate_seen_is_idempotent() {
    let mut t = SelectionTracker::new(vec!["a".to_string(), "b".to_string()]);
    t.mark_seen(&["a".to_string()]);
    t.mark_seen(&["a".to_string()]);
    assert_eq!(t.seen_count(), 1);
    assert!(!t.all_seen());
    t.mark_seen(&["b".to_string()]);
    assert!(t.all_seen());
}

#[test]
fn missing_classified_correctly() {
    let mut t = SelectionTracker::new(vec!["seen-one".to_string(), "never-seen".to_string()]);
    t.mark_seen(&["seen-one".to_string()]);
    t.mark_planned("seen-one");
    assert_eq!(t.missing_ids(), vec!["never-seen"]);
    assert!(t.unavailable_ids().is_empty());
}

#[test]
fn unavailable_classified_correctly() {
    let mut t = SelectionTracker::new(vec!["has-media".to_string(), "no-media".to_string()]);
    t.mark_seen(&["has-media".to_string(), "no-media".to_string()]);
    t.mark_planned("has-media");
    assert!(t.missing_ids().is_empty());
    assert_eq!(t.unavailable_ids(), vec!["no-media"]);
}

#[test]
fn all_hit_produces_no_errors() {
    let mut t = SelectionTracker::new(vec!["a".to_string(), "b".to_string()]);
    t.mark_seen(&["a".to_string(), "b".to_string()]);
    t.mark_planned("a");
    t.mark_planned("b");
    assert!(t.all_seen());
    assert!(t.all_planned());
    assert!(t.missing_ids().is_empty());
    assert!(t.unavailable_ids().is_empty());
    assert!(t.summary_error().is_none());
}

#[test]
fn take_unplanned_items_keeps_complete_group_once() {
    let mut t = SelectionTracker::new(vec!["work".to_string(), "later".to_string()]);
    let first = t.take_unplanned_items(
        vec![("work", "media-1"), ("work", "media-2"), ("other", "ignored")],
        &|item: &(&str, &str)| item.0,
    );
    assert_eq!(first, vec![("work", "media-1"), ("work", "media-2")]);
    let repeated = t.take_unplanned_items(
        vec![("work", "media-1"), ("later", "media-1")],
        &|item: &(&str, &str)| item.0,
    );
    assert_eq!(repeated, vec![("later", "media-1")]);
}

#[test]
fn contextualize_preserves_requested_order() {
    let mut t = SelectionTracker::new(vec!["second".to_string(), "first".to_string()]);
    t.mark_seen(&["first".to_string()]);
    t.mark_planned("first");
    assert_eq!(
        t.contextualize("page failed".to_string()),
        "page failed; selection_state requested=[second,first]; seen=[first]; planned=[first]"
    );
}

#[test]
fn summary_error_joins_missing_and_unavailable() {
    let mut t = SelectionTracker::new(vec![
        "missing-one".to_string(),
        "missing-two".to_string(),
        "unavail".to_string(),
        "ok".to_string(),
    ]);
    t.mark_seen(&["unavail".to_string(), "ok".to_string()]);
    t.mark_planned("ok");
    let s = t.summary_error().unwrap();
    assert!(s.contains("missing_aweme_ids=[missing-one,missing-two]"), "{s}");
    assert!(s.contains("unavailable_aweme_ids=[unavail]"), "{s}");
}

#[test]
fn inactive_tracker_passes_items_through() {
    let mut t = SelectionTracker::new(vec!["  ".to_string()]);
    let items = t.take_unplanned_items(vec![("x", "1"), ("y", "2")], &|item: &(&str, &str)| item.0);
    assert_eq!(items, vec![("x", "1"), ("y", "2")]);
    assert!(t.summary_error().is_none());
}

#[test]
fn contextualize_with_nothing_seen() {
    let t = SelectionTracker::new(vec!["a".to_string()]);
    assert_eq!(
        t.contextualize("boom".to_string()),
        "boom; selection_state requested=[a]; seen=[]; planned=[]"
    );
}
