use douyin_core::config::AppConfig;
use douyin_core::download::hls::{extinf_texts, parse_playlist, Playlist};
use douyin_core::download::live::{
    build_headers, is_retryable_status, LiveCompletionReason, LiveFailureKind, LiveOutputFacts, LiveOutputV1,
    LivePlanV1, LiveRecorderOutcome, RecorderError,
};
use douyin_core::download::recorder::{
    attempt_step, close_facts, finish_outcome, recorder_settings, AttemptStep, ExistingOutput, FetchReply, FileMeta,
    LiveAction, LiveEvent, LiveFinish, LiveSession, SegmentFetch, SegmentLog,
};

fn plan(url: &str) -> LivePlanV1 {
    LivePlanV1 {
        success: true,
        contract_version: 1,
        mode: "live".to_string(),
        web_rid: "web-1".to_string(),
        room_id: "room-1".to_string(),
        title: "test".to_string(),
        nickname: "anchor".to_string(),
        sec_user_id: "sec-1".to_string(),
        user_id: Some("uid-1".to_string()),
        cover_url: String::new(),
        user_count: 1,
        m3u8_url: url.to_string(),
        output: LiveOutputV1 {
            save_dir: "/tmp/live".to_string(),
            filename: "record_live".to_string(),
            suffix: ".flv".to_string(),
        },
        headers: vec![],
    }
}

fn text(content: &str) -> LiveEvent {
    LiveEvent::PlaylistText(Ok((content.to_string(), vec![])))
}

fn step(s: &mut LiveSession, e: LiveEvent) -> LiveAction {
    assert!(s.accepts(&e), "event not accepted: {:?}", e);
    s.step(e, false).0
}

fn fetched(url: &str, a: &LiveAction) {
    match a {
        LiveAction::FetchSegment(u) => assert_eq!(u, url),
        other => panic!("expected a segment fetch of {url}, got {:?}", other),
    }
}

fn write_segment(s: &mut LiveSession, bytes: u64) -> LiveAction {
    let a = step(s, LiveEvent::Segment(Ok(SegmentFetch::Bytes(bytes))));
    let a = if matches!(a, LiveAction::OpenFile) { step(s, LiveEvent::Opened(Ok(()))) } else { a };
    assert!(matches!(a, LiveAction::WriteSegment));
    step(s, LiveEvent::Written(Ok(())))
}

#[test]
fn strict_live_contract_rejects_unknown_fields_and_wrong_version() {
    let mut p = plan("https://example.com/live.m3u8");
    p.contract_version = 2;
    assert!(p.validate().is_err());
    assert!(plan("https://example.com/live.m3u8").validate().is_ok());
}

#[test]
fn live_plan_violations_in_order() {
    let mut p = plan("https://example.com/live.m3u8");
    p.nickname = " ".to_string();
    assert_eq!(p.validate().unwrap_err(), "live contract nickname 不能为空");
    let mut p = plan("ftp://example.com/live.m3u8");
    assert_eq!(p.validate().unwrap_err(), "FULL_HD1 URL 仅支持 http/https");
    p.m3u8_url = "not a url".to_string();
    assert!(p.validate().unwrap_err().starts_with("FULL_HD1 URL 无效: "));
    let mut p = plan("https://example.com/live.m3u8");
    p.output.filename = "../x".to_string();
    assert_eq!(p.validate().unwrap_err(), "live output filename 必须是有效的单一路径组件");
    let mut p = plan("https://example.com/live.m3u8");
    p.output.suffix = ".mp4".to_string();
    assert_eq!(p.validate().unwrap_err(), "live output suffix 必须为 .flv");
    let mut p = plan("https://example.com/live.m3u8");
    p.headers = vec![("Bad Name".to_string(), "v".to_string())];
    assert!(p.validate().unwrap_err().starts_with("直播计划无效: 请求头名称无效: "));
    assert_eq!(plan("https://e/x").full_path(), "/tmp/live/record_live.flv");
}

#[test]
fn headers_get_referer_and_cookie_defaults() {
    let mut p = plan("https://example.com/live.m3u8");
    p.headers = vec![("User-Agent".to_string(), "ua".to_string())];
    let h = build_headers(&p).unwrap();
    assert_eq!(
        h,
        vec![
            ("user-agent".to_string(), "ua".to_string()),
            ("referer".to_string(), "https://www.douyin.com/".to_string()),
            ("cookie".to_string(), String::new()),
        ]
    );
}

#[test]
fn retryable_statuses() {
    for s in [404u16, 408, 429, 500, 503, 504, 599] {
        assert!(is_retryable_status(s));
    }
    for s in [200u16, 400, 403, 410] {
        assert!(!is_retryable_status(s));
    }
}

#[test]
fn playlist_parsing() {
    let base = "https://h.example/live/index.m3u8";
    let media = "#EXTM3U\r\n#EXTINF:2.0,\r\na.ts\r\n  #EXTINF:3, title\nsub/b.ts\n#EXT-X-ENDLIST\n";
    assert_eq!(extinf_texts(media), vec!["2.0".to_string(), "3".to_string()]);
    match parse_playlist(base, media, &vec![None, None]).unwrap() {
        Playlist::Media { segments, ended } => {
            assert!(ended);
            assert_eq!(segments.len(), 2);
            assert_eq!(segments[0].url, "https://h.example/live/a.ts");
            assert_eq!(segments[0].duration_text, "2.0");
            assert_eq!(segments[1].url, "https://h.example/live/sub/b.ts");
        },
        other => panic!("expected media playlist, got {:?}", other),
    }
    match parse_playlist(base, "#EXTM3U\n#EXT-X-STREAM-INF:BANDWIDTH=1000\n\n# c\nmedia.m3u8\n", &vec![]).unwrap() {
        Playlist::Master(u) => assert_eq!(u, "https://h.example/live/media.m3u8"),
        other => panic!("expected master playlist, got {:?}", other),
    }
    let err = |c: &str, e: Vec<Option<String>>| match parse_playlist(base, c, &e) {
        Err(RecorderError::InvalidPlaylist(d)) => d,
        other => panic!("expected invalid playlist, got {:?}", other),
    };
    assert_eq!(err("a.ts\n", vec![]), "缺少 #EXTM3U 标记");
    assert_eq!(err("#EXTM3U\n#EXT-X-STREAM-INF:X\n", vec![]), "主播放列表缺少子播放列表地址");
    assert_eq!(err("#EXTM3U\na.ts\n", vec![]), "分片地址前缺少 #EXTINF");
    assert_eq!(err("#EXTM3U\n#EXTINF:1,\n", vec![]), "#EXTINF 后缺少分片地址");
    assert_eq!(err("#EXTM3U\n#EXTINF:x,\na.ts\n", vec![Some("bad number".to_string())]), "bad number");
}

#[test]
fn endlist_records_ordered_deduplicated_bytes() {
    let (mut s, a) = LiveSession::start(&plan("https://h.example/live.m3u8"));
    assert!(matches!(a, LiveAction::CheckExisting));
    let a = step(&mut s, LiveEvent::Existing(ExistingOutput::Missing));
    assert!(matches!(a, LiveAction::FetchPlaylist(ref u) if u == "https://h.example/live.m3u8"));
    let a = step(&mut s, text("#EXTM3U\n#EXTINF:0.01,\na.ts\n#EXTINF:0.01,\na.ts\n#EXTINF:0.01,\nb.ts\n#EXT-X-ENDLIST\n"));
    fetched("https://h.example/a.ts", &a);
    let a = write_segment(&mut s, 3);
    fetched("https://h.example/b.ts", &a);
    let a = write_segment(&mut s, 3);
    assert!(matches!(a, LiveAction::Flush));
    let a = step(&mut s, LiveEvent::Flushed(Ok(())));
    assert!(matches!(a, LiveAction::Finish(LiveFinish::Completed(LiveCompletionReason::StreamEnded))));
    assert_eq!(s.total_downloaded, 6);
}

#[test]
fn changing_playlists_do_not_redownload_prior_segments() {
    let (mut s, _) = LiveSession::start(&plan("https://h.example/live.m3u8"));
    step(&mut s, LiveEvent::Existing(ExistingOutput::Missing));
    let a = step(&mut s, text("#EXTM3U\n#EXTINF:0.01,\na.ts\n"));
    fetched("https://h.example/a.ts", &a);
    let a = write_segment(&mut s, 3);
    assert!(matches!(a, LiveAction::Flush));
    let a = step(&mut s, LiveEvent::Flushed(Ok(())));
    assert!(matches!(a, LiveAction::Sleep(Some(ref d)) if d == "0.01"));
    let a = step(&mut s, LiveEvent::Slept);
    assert!(matches!(a, LiveAction::FetchPlaylist(_)));
    let a = step(&mut s, text("#EXTM3U\n#EXTINF:0.01,\na.ts\n#EXTINF:0.01,\nb.ts\n#EXT-X-ENDLIST\n"));
    fetched("https://h.example/b.ts", &a);
    let a = write_segment(&mut s, 3);
    assert!(matches!(a, LiveAction::Flush));
    assert_eq!(s.total_downloaded, 6);
}

#[test]
fn master_playlist_resolves_first_media_playlist() {
    let (mut s, _) = LiveSession::start(&plan("https://h.example/master.m3u8"));
    step(&mut s, LiveEvent::Existing(ExistingOutput::Missing));
    let a = step(&mut s, text("#EXTM3U\n#EXT-X-STREAM-INF:BANDWIDTH=1000\nmedia.m3u8\n"));
    assert!(matches!(a, LiveAction::FetchPlaylist(ref u) if u == "https://h.example/media.m3u8"));
    let a = step(&mut s, text("#EXTM3U\n#EXTINF:0.01,\na.ts\n#EXT-X-ENDLIST\n"));
    fetched("https://h.example/a.ts", &a);
}

#[test]
fn nested_master_playlists_have_a_limit() {
    let (mut s, _) = LiveSession::start(&plan("https://h.example/m.m3u8"));
    let mut a = step(&mut s, LiveEvent::Existing(ExistingOutput::Missing));
    for _ in 0..3 {
        assert!(matches!(a, LiveAction::FetchPlaylist(_)));
        a = step(&mut s, text("#EXTM3U\n#EXT-X-STREAM-INF:B=1\nm.m3u8\n"));
    }
    assert!(matches!(a, LiveAction::FetchPlaylist(_)));
    let a = step(&mut s, text("#EXTM3U\n#EXT-X-STREAM-INF:B=1\nm.m3u8\n"));
    match a {
        LiveAction::Finish(LiveFinish::Failed(RecorderError::InvalidPlaylist(d))) => {
            assert_eq!(d, "嵌套播放列表超过最大层级")
        },
        other => panic!("expected depth failure, got {:?}", other),
    }
}

#[test]
fn empty_playlist_is_error() {
    let (mut s, _) = LiveSession::start(&plan("https://h.example/live.m3u8"));
    step(&mut s, LiveEvent::Existing(ExistingOutput::Missing));
    match step(&mut s, text("#EXTM3U\n")) {
        LiveAction::Finish(LiveFinish::Failed(RecorderError::InvalidPlaylist(d))) => {
            assert_eq!(d, "播放列表没有分片且缺少 #EXT-X-ENDLIST")
        },
        other => panic!("expected failure, got {:?}", other),
    }
    let (mut s, _) = LiveSession::start(&plan("https://h.example/live.m3u8"));
    step(&mut s, LiveEvent::Existing(ExistingOutput::Missing));
    match step(&mut s, text("#EXTM3U\n#EXT-X-ENDLIST\n")) {
        LiveAction::Finish(LiveFinish::Failed(RecorderError::InvalidPlaylist(d))) => {
            assert_eq!(d, "ENDLIST 前没有可用分片")
        },
        other => panic!("expected failure, got {:?}", other),
    }
}

#[test]
fn existing_output_completes_or_fails() {
    let (mut s, _) = LiveSession::start(&plan("https://h.example/live.m3u8"));
    assert!(matches!(step(&mut s, LiveEvent::Existing(ExistingOutput::Found(10))), LiveAction::ExistingOutput(10)));
    let (mut s, _) = LiveSession::start(&plan("https://h.example/live.m3u8"));
    match step(&mut s, LiveEvent::Existing(ExistingOutput::Found(0))) {
        LiveAction::Finish(LiveFinish::Failed(RecorderError::InvalidPlan(d))) => assert_eq!(d, "目标文件已存在但为空"),
        other => panic!("unexpected {:?}", other),
    }
    let mut bad = plan("https://h.example/live.m3u8");
    bad.success = false;
    let (_, a) = LiveSession::start(&bad);
    match a {
        LiveAction::Finish(LiveFinish::Failed(RecorderError::InvalidPlan(d))) => {
            assert_eq!(d, "live V1 contract success 必须为 true")
        },
        other => panic!("unexpected {:?}", other),
    }
}

#[test]
fn permanent_segment_failure_is_typed_error() {
    assert!(matches!(attempt_step(true, 0, 2, &FetchReply::Status(500, "500 Internal Server Error".to_string())), AttemptStep::Retry));
    match attempt_step(true, 1, 2, &FetchReply::Status(500, "500 Internal Server Error".to_string())) {
        AttemptStep::Fail(e) => {
            assert_eq!(e.kind(), LiveFailureKind::SegmentRetryExhausted);
            assert_eq!(e.message(), "直播分片请求重试耗尽: HTTP 500 Internal Server Error");
        },
        other => panic!("unexpected {:?}", other),
    }
    match attempt_step(false, 0, 5, &FetchReply::Status(403, "403 Forbidden".to_string())) {
        AttemptStep::Fail(e) => assert_eq!(e.kind(), LiveFailureKind::NetworkRetryExhausted),
        other => panic!("unexpected {:?}", other),
    }
    assert!(matches!(attempt_step(true, 0, 2, &FetchReply::Received(0)), AttemptStep::Retry));
    assert!(matches!(attempt_step(true, 0, 2, &FetchReply::Received(5)), AttemptStep::Accept));
    assert!(matches!(attempt_step(false, 0, 2, &FetchReply::Received(0)), AttemptStep::Accept));
}

#[test]
fn playlist_404_retries_then_succeeds() {
    assert!(matches!(attempt_step(false, 0, 2, &FetchReply::Status(404, "404 Not Found".to_string())), AttemptStep::Retry));
    assert!(matches!(attempt_step(false, 1, 2, &FetchReply::Received(20)), AttemptStep::Accept));
}

#[test]
fn permanent_playlist_404_is_error_not_eof() {
    match attempt_step(false, 1, 2, &FetchReply::Status(404, "404 Not Found".to_string())) {
        AttemptStep::Fail(RecorderError::NetworkRetryExhausted(d)) => assert_eq!(d, "HTTP 404 Not Found"),
        other => panic!("unexpected {:?}", other),
    }
}

fn facts(size: u64) -> LiveOutputFacts {
    LiveOutputFacts { path: "/tmp/live/record_live.flv".to_string(), file_size: size, started_at: 100, ended_at: 160 }
}

#[test]
fn stop_after_first_segment_keeps_usable_partial_file() {
    match finish_outcome(LiveFinish::Stopped, Ok(facts(3))) {
        LiveRecorderOutcome::Completed { reason, output } => {
            assert_eq!(reason, LiveCompletionReason::UserStopped);
            assert_eq!(output.file_size, 3);
            assert_eq!(output.duration_sec(), 60);
        },
        other => panic!("unexpected {:?}", other),
    }
}

#[test]
fn stop_before_bytes_is_typed_error() {
    match finish_outcome(LiveFinish::Stopped, Ok(facts(0))) {
        LiveRecorderOutcome::Failed { kind, error, .. } => {
            assert_eq!(kind, LiveFailureKind::StoppedBeforeUsableBytes);
            assert_eq!(error, "用户停止录制时尚未产生可用字节");
        },
        other => panic!("unexpected {:?}", other),
    }
}

#[test]
fn injected_write_failure_is_typed_error() {
    let (mut s, _) = LiveSession::start(&plan("https://h.example/live.m3u8"));
    step(&mut s, LiveEvent::Existing(ExistingOutput::Missing));
    step(&mut s, text("#EXTM3U\n#EXTINF:1,\na.ts\n"));
    step(&mut s, LiveEvent::Segment(Ok(SegmentFetch::Bytes(3))));
    step(&mut s, LiveEvent::Opened(Ok(())));
    let a = step(&mut s, LiveEvent::Written(Err(RecorderError::FileWrite("injected write failure".to_string()))));
    let LiveAction::Finish(f) = a else { panic!("expected finish") };
    match finish_outcome(f, Ok(facts(0))) {
        LiveRecorderOutcome::Failed { kind, error, .. } => {
            assert_eq!(kind, LiveFailureKind::FileWrite);
            assert_eq!(error, "写入直播文件失败: injected write failure");
        },
        other => panic!("unexpected {:?}", other),
    }
}

#[test]
fn injected_flush_failure_is_typed_error_even_after_bytes() {
    let f = LiveFinish::Failed(RecorderError::FileFlush("injected flush failure".to_string()));
    match finish_outcome(f, Ok(facts(3))) {
        LiveRecorderOutcome::Failed { kind, .. } => assert_eq!(kind, LiveFailureKind::FileFlush),
        other => panic!("unexpected {:?}", other),
    }
    let f = LiveFinish::Failed(RecorderError::FileWrite("w".to_string()));
    let closing = Err((RecorderError::FileMetadata("m".to_string()), facts(0)));
    match finish_outcome(f, closing) {
        LiveRecorderOutcome::Failed { kind, error, .. } => {
            assert_eq!(kind, LiveFailureKind::FileMetadata);
            assert_eq!(error, "写入直播文件失败: w; 读取直播文件信息失败: m");
        },
        other => panic!("unexpected {:?}", other),
    }
}

#[test]
fn stopping_during_the_loop_stops() {
    let (mut s, _) = LiveSession::start(&plan("https://h.example/live.m3u8"));
    let (a, _) = s.step(LiveEvent::Existing(ExistingOutput::Missing), true);
    assert!(matches!(a, LiveAction::Finish(LiveFinish::Stopped)));
    let (mut s, _) = LiveSession::start(&plan("https://h.example/live.m3u8"));
    step(&mut s, LiveEvent::Existing(ExistingOutput::Missing));
    let (a, _) = s.step(text("#EXTM3U\n#EXTINF:1,\na.ts\n"), true);
    assert!(matches!(a, LiveAction::Finish(LiveFinish::Stopped)));
}

#[test]
fn progress_is_reported_after_each_write() {
    let (mut s, _) = LiveSession::start(&plan("https://h.example/live.m3u8"));
    step(&mut s, LiveEvent::Existing(ExistingOutput::Missing));
    step(&mut s, text("#EXTM3U\n#EXTINF:1,\na.ts\n#EXTINF:1,\nb.ts\n"));
    step(&mut s, LiveEvent::Segment(Ok(SegmentFetch::Bytes(4))));
    step(&mut s, LiveEvent::Opened(Ok(())));
    let (_, p) = s.step(LiveEvent::Written(Ok(())), false);
    assert_eq!(p, Some(4));
    let (_, p) = s.step(LiveEvent::Segment(Ok(SegmentFetch::Bytes(6))), false);
    assert_eq!(p, None);
    let (_, p) = s.step(LiveEvent::Written(Ok(())), false);
    assert_eq!(p, Some(10));
}

#[test]
fn segment_log_forgets_after_its_limit() {
    let mut log = SegmentLog::new();
    for i in 0..1000 {
        log.record(&format!("u{i}"));
    }
    assert_eq!(log.len(), 1000);
    log.record("u5");
    assert_eq!(log.len(), 1000);
    assert!(log.contains("u999"));
    log.record("new");
    assert_eq!(log.len(), 0);
    assert!(!log.contains("u5"));
}

#[test]
fn closing_facts() {
    let ok = close_facts("/p".to_string(), 1, 2, Ok(()), FileMeta::Size(9)).unwrap();
    assert_eq!((ok.file_size, ok.started_at, ok.ended_at), (9, 1, 2));
    assert_eq!(close_facts("/p".to_string(), 1, 2, Ok(()), FileMeta::NotFound).unwrap().file_size, 0);
    let (e, o) = close_facts("/p".to_string(), 1, 2, Err("disk".to_string()), FileMeta::Size(9)).unwrap_err();
    assert_eq!(e.message(), "刷新直播文件失败: disk");
    assert_eq!(o.file_size, 0);
    let (e, _) = close_facts("/p".to_string(), 1, 2, Ok(()), FileMeta::Error("perm".to_string())).unwrap_err();
    assert_eq!(e.kind(), LiveFailureKind::FileMetadata);
}

#[test]
fn recorder_settings_from_config() {
    let mut c = AppConfig::default();
    c.timeout = 0;
    c.max_connections = 0;
    c.max_retries = 0;
    c.proxy = "   ".to_string();
    let s = recorder_settings(&c);
    assert_eq!((s.timeout_secs, s.max_idle_per_host, s.max_attempts, s.retry_delay_ms), (1, 1, 1, 200));
    assert!(s.proxy.is_none());
    c.proxy = "http://p:1".to_string();
    c.max_retries = 3;
    let s = recorder_settings(&c);
    assert_eq!(s.proxy.as_deref(), Some("http://p:1"));
    assert_eq!(s.max_attempts, 3);
}

#[test]
fn live_filename_must_be_one_normal_component() {
    for name in ["a/b", "/x", "./x"] {
        let mut p = plan("https://example.com/live.m3u8");
        p.output.filename = name.to_string();
        assert_eq!(p.validate().unwrap_err(), "live output filename 必须是有效的单一路径组件", "{}", name);
    }
}
