use douyin_core::config::{
    default_max_connections, default_max_retries, default_max_tasks, default_page_counts, default_timeout,
    AppConfig, ConfigFile, ConfigManager,
};

#[test]
fn defaults() {
    let c = AppConfig::default();
    assert_eq!(c.app_name, "douyin");
    assert_eq!(c.download_path, "Download");
    assert_eq!(c.naming, "{create}_{desc}");
    assert_eq!((c.page_counts, c.max_counts, c.timeout, c.max_connections, c.max_retries, c.max_tasks), (20, 0, 5, 5, 5, 10));
    assert_eq!(
        (default_page_counts(), default_timeout(), default_max_connections(), default_max_retries(), default_max_tasks()),
        (20, 5, 5, 5, 10)
    );
}

#[test]
fn manager_reads_sections() {
    let m = ConfigManager::new("/tmp/config.json".to_string(), None);
    assert_eq!(m.get_douyin_config().app_name, "douyin");
    assert_eq!(m.get_tiktok_config().app_name, "tiktok");
    let file = ConfigFile { douyin: None, tiktok: None };
    let m = ConfigManager::new("/tmp/c.json".to_string(), Some(file));
    assert_eq!(m.get_douyin_config().app_name, "douyin");
}

#[test]
fn updates_apply_in_order() {
    let mut m = ConfigManager::new("/tmp/config.json".to_string(), None);
    m.update_douyin_config(&vec![
        ("cookie".to_string(), "sid=1".to_string()),
        ("music".to_string(), "true".to_string()),
        ("page_counts".to_string(), "abc".to_string()),
        ("timeout".to_string(), "9".to_string()),
        ("unknown".to_string(), "x".to_string()),
        ("timeout".to_string(), "12".to_string()),
        ("interval".to_string(), "2024-01-01|2024-02-01".to_string()),
    ]);
    let c = m.get_douyin_config();
    assert_eq!(c.cookie, "sid=1");
    assert!(c.music);
    assert_eq!(c.page_counts, 20);
    assert_eq!(c.timeout, 12);
    assert_eq!(c.interval.as_deref(), Some("2024-01-01|2024-02-01"));
    assert_eq!(m.get_tiktok_config().cookie, "");
}
