use douyin_core::user_files::{download_deletion_targets, extract_user_download_dir};

#[test]
fn user_folder_sits_below_the_mode_folder() {
    assert_eq!(
        extract_user_download_dir("/data/Download/douyin/post/小明/sub/v.mp4"),
        Some("/data/Download/douyin/post/小明".to_string())
    );
    assert_eq!(
        extract_user_download_dir("/data/Download/douyin/Like/nick/v.mp4"),
        Some("/data/Download/douyin/Like/nick".to_string())
    );
    assert_eq!(extract_user_download_dir("/data/other/v.mp4"), None);
    assert_eq!(extract_user_download_dir("v.mp4"), None);
    assert_eq!(extract_user_download_dir(""), None);
}

#[test]
fn deletion_targets_are_distinct_folders_or_files() {
    let paths = vec![
        "/d/douyin/post/a/1.mp4".to_string(),
        "/d/douyin/post/a/2.mp4".to_string(),
        "/d/douyin/mix/b/x/3.mp4".to_string(),
        "/elsewhere/4.mp4".to_string(),
    ];
    assert_eq!(
        download_deletion_targets(&paths),
        vec!["/d/douyin/post/a".to_string(), "/d/douyin/mix/b".to_string()]
    );
    let loose = vec!["/x/1.mp4".to_string(), "/y/2.mp4".to_string()];
    assert_eq!(download_deletion_targets(&loose), loose);
}
