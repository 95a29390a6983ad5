use douyin_core::config::AppConfig;
use douyin_core::download::engine::{
    after_failed_attempt, all_urls_failed, backoff_millis, build_engine_config, calculate_backoff,
    is_retryable_failure, request_headers, response_plan, retries_exhausted, should_retry, size_check,
    AttemptNext, DownloadError, DownloadResult, DownloadUrl, EngineConfig, UrlAction, UrlFallback,
};

#[test]
fn test_download_url_first() {
    let url = DownloadUrl::Single("https://example.com".to_string());
    assert_eq!(url.first(), Some("https://example.com"));

    let url = DownloadUrl::Multiple(vec![
        "https://cdn1.example.com".to_string(),
        "https://cdn2.example.com".to_string(),
    ]);
    assert_eq!(url.first(), Some("https://cdn1.example.com"));
}

#[test]
fn test_download_url_all() {
    let url = DownloadUrl::Single("https://example.com".to_string());
    assert_eq!(url.all(), vec!["https://example.com"]);

    let url = DownloadUrl::Multiple(vec![
        "https://cdn1.example.com".to_string(),
        "https://cdn2.example.com".to_string(),
    ]);
    assert_eq!(url.all(), vec!["https://cdn1.example.com", "https://cdn2.example.com"]);
}

#[test]
fn test_engine_config_default() {
    let config = EngineConfig::default();
    assert_eq!(config.max_concurrent, 5);
    assert_eq!(config.max_retries, 5);
    assert_eq!(config.timeout, 5);
    assert_eq!(config.max_connections, 5);
}

#[test]
fn empty_url_list_has_no_first() {
    let url = DownloadUrl::Multiple(vec![]);
    assert_eq!(url.first(), None);
    assert!(url.all().is_empty());
}

#[test]
fn engine_config_follows_app_config() {
    let mut app = AppConfig::default();
    app.max_tasks = 3;
    app.max_retries = 7;
    app.timeout = 9;
    app.max_connections = 2;
    app.cookie = "sid=1".to_string();
    app.proxy = "http://127.0.0.1:8080".to_string();
    let c = build_engine_config(&app);
    assert_eq!(c.max_concurrent, 3);
    assert_eq!(c.max_retries, 7);
    assert_eq!(c.timeout, 9);
    assert_eq!(c.max_connections, 2);
    assert_eq!(c.cookie, "sid=1");
    assert_eq!(c.proxy, "http://127.0.0.1:8080");
    assert_eq!(c.referer, "https://www.douyin.com/");
}

#[test]
fn retry_classification() {
    assert!(is_retryable_failure(true, false, None));
    assert!(is_retryable_failure(false, true, None));
    assert!(is_retryable_failure(false, false, Some(429)));
    assert!(is_retryable_failure(false, false, Some(503)));
    assert!(!is_retryable_failure(false, false, Some(404)));
    assert!(!is_retryable_failure(false, false, None));
    assert!(should_retry(true, 0, 5));
    assert!(!should_retry(true, 4, 5));
    assert!(!should_retry(false, 0, 5));
}

#[test]
fn backoff_is_exponential_with_jitter() {
    assert_eq!(backoff_millis(0, 0), 1000);
    assert_eq!(backoff_millis(3, 1999), 8999);
    let b = calculate_backoff(2);
    assert!((4000..5000).contains(&b));
}

#[test]
fn request_headers_order_and_range() {
    let h = vec![
        ("User-Agent".to_string(), "ua".to_string()),
        ("Bad Header".to_string(), "x".to_string()),
        ("Referer".to_string(), "https://other/".to_string()),
    ];
    let out = request_headers(&h, "sid=1", "https://www.douyin.com/", 10);
    assert_eq!(
        out,
        vec![
            ("user-agent".to_string(), "ua".to_string()),
            ("referer".to_string(), "https://www.douyin.com/".to_string()),
            ("cookie".to_string(), "sid=1".to_string()),
            ("range".to_string(), "bytes=10-".to_string()),
        ]
    );
    let plain = request_headers(&vec![], "", "https://www.douyin.com/", 0);
    assert_eq!(plain, vec![("referer".to_string(), "https://www.douyin.com/".to_string())]);
}

#[test]
fn response_plan_resumes_partial_content() {
    assert_eq!(response_plan(206, Some(90), 10), Some((100, 10)));
    assert_eq!(response_plan(200, Some(90), 10), Some((90, 0)));
    assert_eq!(response_plan(200, None, 0), Some((0, 0)));
    assert_eq!(response_plan(206, Some(u64::MAX), 1), Some((u64::MAX, 1)));
    assert_eq!(response_plan(404, Some(1), 0), None);
}

#[test]
fn size_check_detects_mismatch() {
    assert!(size_check(None, 100, 5).is_ok());
    assert!(size_check(Some(100), 0, 5).is_ok());
    assert!(size_check(Some(100), 100, 100).is_ok());
    match size_check(Some(100), 100, 99) {
        Err(e) => assert_eq!(e.message(), "文件大小不匹配: 期望 100, 实际 99"),
        Ok(()) => panic!("mismatch must be reported"),
    }
}

#[test]
fn download_error_messages() {
    let e = DownloadError::Network { message: "timeout".to_string(), retryable: true };
    assert_eq!(e.message(), "网络错误: timeout");
    assert!(e.is_retryable());
    assert_eq!(DownloadError::Io("disk".to_string()).message(), "IO 错误: disk");
    assert_eq!(DownloadError::Cancelled.message(), "下载已取消");
    assert!(!DownloadError::Cancelled.is_retryable());
    assert_eq!(all_urls_failed(None).message(), "所有 URL 都失败: 所有 URL 都失败");
    assert_eq!(retries_exhausted(None).message(), "重试次数耗尽: 重试次数耗尽");
    assert_eq!(all_urls_failed(Some(DownloadError::Cancelled)).message(), "下载已取消");
}

#[test]
fn failed_attempt_retries_only_retryable() {
    let e = DownloadError::Network { message: "503".to_string(), retryable: true };
    match after_failed_attempt(e, 1, 5) {
        AttemptNext::RetryAfter(ms) => assert!((2000..3000).contains(&ms)),
        AttemptNext::Fail(_) => panic!("retryable error with attempts left must retry"),
    }
    let e = DownloadError::Network { message: "503".to_string(), retryable: true };
    assert!(matches!(after_failed_attempt(e, 4, 5), AttemptNext::Fail(_)));
    let e = DownloadError::Io("x".to_string());
    assert!(matches!(after_failed_attempt(e, 0, 5), AttemptNext::Fail(_)));
}

#[test]
fn urls_are_tried_in_order_until_one_succeeds() {
    let url = DownloadUrl::Multiple(vec!["a".to_string(), "b".to_string()]);
    let (mut run, action) = UrlFallback::start(&url);
    assert!(matches!(action, UrlAction::Try(ref u) if u == "a"));
    let action = run.on_attempt(Err(DownloadError::Io("x".to_string())));
    assert!(matches!(action, UrlAction::Try(ref u) if u == "b"));
    let done = DownloadResult { task_id: "t".to_string(), path: "/p".to_string(), file_size: 3, skipped: false };
    match run.on_attempt(Ok(done)) {
        UrlAction::Finish(Ok(r)) => assert_eq!(r.file_size, 3),
        other => panic!("unexpected {:?}", other),
    }
}

#[test]
fn failed_download_reports_last_url_error() {
    let (mut run, _) = UrlFallback::start(&DownloadUrl::Single("a".to_string()));
    match run.on_attempt(Err(DownloadError::Io("disk".to_string()))) {
        UrlAction::Finish(Err(e)) => assert_eq!(e.message(), "IO 错误: disk"),
        other => panic!("unexpected {:?}", other),
    }
    let (_, action) = UrlFallback::start(&DownloadUrl::Multiple(vec![]));
    match action {
        UrlAction::Finish(Err(e)) => assert_eq!(e.message(), "所有 URL 都失败: 所有 URL 都失败"),
        other => panic!("unexpected {:?}", other),
    }
}
