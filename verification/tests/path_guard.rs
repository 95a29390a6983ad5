use douyin_core::path_guard::{check_path_in_project, deletion_target, PathRefusal};

#[test]
fn path_inside_project_is_accepted() {
    assert_eq!(check_path_in_project("/p/Download/a/b.mp4", "/p/Download", "/p/Download", "/p"), None);
    assert_eq!(check_path_in_project("/p/Download", "/p/Download", "/p/Download", "/p"), None);
}

#[test]
fn path_outside_project_is_refused() {
    assert_eq!(
        check_path_in_project("/etc/passwd", "/etc/passwd", "/etc/passwd", "/p"),
        Some(PathRefusal::OutsideRoot)
    );
    // A symlinked ancestor resolving outside the root.
    assert_eq!(
        check_path_in_project("/p/link/x", "/p/link", "/elsewhere", "/p"),
        Some(PathRefusal::OutsideRoot)
    );
    // Component-wise prefix: "/proj" is not under "/p".
    assert_eq!(check_path_in_project("/proj/x", "/proj", "/proj", "/p"), Some(PathRefusal::OutsideRoot));
}

#[test]
fn traversal_below_the_ancestor_is_refused() {
    assert_eq!(
        check_path_in_project("/p/Download/missing/../../../etc", "/p/Download", "/p/Download", "/p"),
        Some(PathRefusal::ParentComponent)
    );
}

#[test]
fn blank_or_absent_delete_targets_do_nothing() {
    assert_eq!(deletion_target(&None), None);
    assert_eq!(deletion_target(&Some("  ".to_string())), None);
    assert_eq!(deletion_target(&Some("/p/a.mp4".to_string())), Some("/p/a.mp4"));
}
