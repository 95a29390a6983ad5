use douyin_core::download::tasks::{media_item_row, saves_author};
use douyin_core::config::AppConfig;
use douyin_core::download::contract::{
    MediaDownloadItemV1, MediaKindV1, SingleAccessory, SingleAccessoryKind, SingleOutputSpec,
};
use douyin_core::download::engine::DownloadUrl;
use douyin_core::download::live::{LiveOutputFacts, LiveOutputV1, LivePlanV1, LiveRecorderOutcome, LiveCompletionReason};
use douyin_core::download::tasks::{
    accessory_action, build_download_item, build_download_url, build_single_download_item, commit_failure_message,
    counts_result, create_task_error, finalize_after, finalize_error_written, finalize_write, legacy_task_item,
    live_save_error, live_task_end, mode_default_dir, music_task_item, new_download_task, new_task_id,
    nonempty_string, recovery_failed_message, recovery_message, resolved_save_dir, should_emit_progress,
    single_accessory_action, trim_leading_dots, typed_media_task_item, uses_typed_runner, AccessoryAction,
    FinalizeNext, ItemDetail, ItemEnd, LegacyPageStep, LegacyPaging, LiveTaskEnd, MediaOutcome, ProgressTracker,
    ResolvedItem, ResolvedUrls, StatusWrite, Tally, TaskTerminal, UrlValue, route_request, is_active_live,
    cancel_answer, TaskRoute,
};
use douyin_core::download::types::{DownloadMode, ResolvedAccessory, TaskEventType};
use douyin_core::models::VideoInfo;

fn video(aweme_id: &str) -> VideoInfo {
    VideoInfo {
        aweme_id: aweme_id.to_string(),
        desc: None,
        aweme_type: 0,
        author_nickname: None,
        author_sec_uid: None,
        author_uid: None,
        create_time: None,
        duration: 0,
        video_url: None,
        cover_url: None,
        music_title: None,
        digg_count: 0,
        comment_count: 0,
        share_count: 0,
        collect_count: 0,
        mix_id: None,
        mix_name: None,
        author_nickname_raw: None,
        author_short_id: None,
        author_unique_id: None,
        desc_raw: None,
        is_ads: 0,
        is_story: 0,
        is_top: 0,
        is_long_video: 0,
        video_bit_rate: None,
        animated_cover: None,
        private_status: 0,
        is_delete: 0,
        music_author: None,
        music_author_raw: None,
        music_duration: 0,
        music_id: None,
        music_mid: None,
        pgc_author: None,
        pgc_author_title: None,
        pgc_music_type: 0,
        music_status: 0,
        music_owner_handle: None,
        music_owner_id: None,
        music_owner_nickname: None,
        music_play_url: None,
        is_commerce_music: 0,
        mix_desc: None,
        mix_create_time: 0,
        mix_pic_type: 0,
        mix_type: 0,
        mix_share_url: None,
        can_comment: 0,
        can_forward: 0,
        can_share: 0,
        download_setting: 0,
        allow_douplus: 0,
        allow_share: 0,
        admire_count: 0,
        hashtag_ids: None,
        hashtag_names: None,
        images: None,
        region: None,
        is_prohibited: 0,
        updated_at: 0,
    }
}

fn resolved(aweme: &str, url: UrlValue, folder: Option<&str>) -> ResolvedItem {
    ResolvedItem {
        aweme_id: aweme.to_string(),
        download_url: url,
        filename: format!("{aweme}_video"),
        suffix: ".mp4".to_string(),
        headers: vec![("Referer".to_string(), "r".to_string())],
        content_type: "video".to_string(),
        detail: Some(ItemDetail {
            desc: Some("desc".to_string()),
            author_nickname: Some("nick".to_string()),
            author_sec_uid: None,
            cover_url: Some("cover".to_string()),
            title: Some("song".to_string()),
            author: Some("singer".to_string()),
        }),
        accessories: vec![],
        folder_name: folder.map(|s| s.to_string()),
    }
}

#[test]
fn nonempty_string_trims() {
    assert_eq!(nonempty_string("  a b "), Some("a b".to_string()));
    assert_eq!(nonempty_string(" \t "), None);
    assert_eq!(trim_leading_dots("..mp4"), "mp4");
    assert_eq!(trim_leading_dots("mp4"), "mp4");
}

#[test]
fn download_urls_of_legacy_items() {
    assert!(matches!(build_download_url(&UrlValue::Text("u".to_string())), DownloadUrl::Single(ref s) if s == "u"));
    assert!(matches!(build_download_url(&UrlValue::Other), DownloadUrl::Single(ref s) if s.is_empty()));
    assert!(matches!(build_download_url(&UrlValue::List(vec![None])), DownloadUrl::Single(ref s) if s.is_empty()));
    assert!(matches!(
        build_download_url(&UrlValue::List(vec![None, Some("a".to_string())])),
        DownloadUrl::Single(ref s) if s == "a"
    ));
    match build_download_url(&UrlValue::List(vec![Some("a".to_string()), None, Some("b".to_string())])) {
        DownloadUrl::Multiple(v) => assert_eq!(v, vec!["a".to_string(), "b".to_string()]),
        other => panic!("unexpected {:?}", other),
    }
}

#[test]
fn download_item_paths() {
    let it = resolved("w1", UrlValue::Text("u".to_string()), Some("folder"));
    let d = build_download_item(&it, "/save", "t1");
    assert_eq!(d.save_path, "/save/folder/w1_video.mp4");
    assert_eq!(d.temp_path, "/save/folder/w1_video.mp4.tmp");
    assert_eq!(d.task_id, "t1");
    assert_eq!(d.headers, vec![("Referer".to_string(), "r".to_string())]);
    let it = resolved("w1", UrlValue::Text("u".to_string()), Some(""));
    assert_eq!(build_download_item(&it, "/save", "t1").save_path, "/save/w1_video.mp4");
}

fn media(urls: Vec<&str>) -> MediaDownloadItemV1 {
    MediaDownloadItemV1 {
        media_key: "w:video:0".to_string(),
        aweme_id: "w".to_string(),
        urls: urls.iter().map(|s| s.to_string()).collect(),
        kind: MediaKindV1::Video,
        output: SingleOutputSpec { filename: "w_video".to_string(), suffix: ".mp4".to_string(), folder_name: Some("f".to_string()) },
        headers: vec![],
        accessories: vec![],
        metadata: video("w"),
    }
}

#[test]
fn single_download_items() {
    let d = build_single_download_item(&media(vec!["a"]), "/s", "t");
    assert!(matches!(d.url, DownloadUrl::Single(ref u) if u == "a"));
    assert_eq!(d.save_path, "/s/f/w_video.mp4");
    assert_eq!(d.temp_path, "/s/f/w_video.mp4.tmp");
    let d = build_single_download_item(&media(vec!["a", "b"]), "/s", "t");
    assert!(matches!(d.url, DownloadUrl::Multiple(ref v) if v.len() == 2));
    let d = build_single_download_item(&media(vec![]), "/s", "t");
    assert!(matches!(d.url, DownloadUrl::Multiple(ref v) if v.is_empty()));
}

#[test]
fn task_rows() {
    let it = resolved("w1", UrlValue::Other, None);
    let row = legacy_task_item("t", &it);
    assert_eq!(row.aweme_id.as_deref(), Some("w1"));
    assert_eq!(row.title.as_deref(), Some("desc"));
    assert_eq!(row.author_nickname.as_deref(), Some("nick"));
    assert_eq!(row.cover_url.as_deref(), Some("cover"));
    let m = music_task_item("t", &it, true);
    assert_eq!(m.title.as_deref(), Some("song"));
    assert_eq!(m.author_nickname.as_deref(), Some("singer"));
    let failed = music_task_item("t", &it, false);
    assert!(failed.title.is_none() && failed.author_nickname.is_none());
    let typed = typed_media_task_item("t", &media(vec!["a"])).unwrap();
    assert_eq!(typed.media_kind.as_deref(), Some("video"));
    assert_eq!(typed.media_index, Some(0));
    let mut bad = media(vec!["a"]);
    bad.media_key = "x:video:0".to_string();
    assert!(typed_media_task_item("t", &bad).is_err());
}

#[test]
fn accessories_follow_configuration() {
    let mut config = AppConfig::default();
    config.cover = true;
    config.desc = true;
    let acc = |t: &str, url: Option<&str>, content: Option<&str>| ResolvedAccessory {
        url: url.map(|s| s.to_string()),
        filename: "a".to_string(),
        suffix: ".jpg".to_string(),
        content_type: t.to_string(),
        content: content.map(|s| s.to_string()),
    };
    assert!(matches!(accessory_action(&acc("music", Some("u"), None), &config, "/s", &None, "t"), AccessoryAction::Skip));
    match accessory_action(&acc("cover", Some("u"), None), &config, "/s", &Some("f".to_string()), "t") {
        AccessoryAction::Download(d) => {
            assert_eq!(d.save_path, "/s/f/a.jpg");
            assert_eq!(d.temp_path, "/s/f/a.jpg.tmp");
            assert!(d.headers.is_empty());
        },
        other => panic!("unexpected {:?}", other),
    }
    assert!(matches!(accessory_action(&acc("cover", None, None), &config, "/s", &None, "t"), AccessoryAction::Skip));
    match accessory_action(&acc("desc", None, Some("text")), &config, "/s", &None, "t") {
        AccessoryAction::WriteText { path, content } => {
            assert_eq!(path, "/s/a.jpg");
            assert_eq!(content, "text");
        },
        other => panic!("unexpected {:?}", other),
    }
    assert!(matches!(accessory_action(&acc("other", Some("u"), None), &config, "/s", &None, "t"), AccessoryAction::Skip));
    let sa = SingleAccessory {
        kind: SingleAccessoryKind::Cover,
        output: SingleOutputSpec { filename: "c".to_string(), suffix: ".jpg".to_string(), folder_name: None },
        url: Some("u".to_string()),
        content: None,
    };
    match single_accessory_action(&sa, &config, "/s", &Some("item".to_string()), "t") {
        AccessoryAction::Download(d) => assert_eq!(d.save_path, "/s/item/c.jpg"),
        other => panic!("unexpected {:?}", other),
    }
    config.cover = false;
    assert!(matches!(single_accessory_action(&sa, &config, "/s", &None, "t"), AccessoryAction::Skip));
}

#[test]
fn progress_throttle() {
    assert!(should_emit_progress(10, 10, 0, 0, 500));
    assert!(!should_emit_progress(1, 10, 100, 0, 500));
    assert!(should_emit_progress(1, 10, 600, 100, 500));
    let mut p = ProgressTracker::new("t");
    let e = p.update(1, 10, 1000).unwrap();
    assert_eq!(e.event_type, TaskEventType::Progress);
    assert_eq!(e.patch.total, Some(10));
    assert_eq!(e.patch.completed, Some(1));
    assert!(p.update(2, 10, 1200).is_none());
    assert!(p.update(10, 10, 1201).is_some());
}

#[test]
fn finalize_steps() {
    assert!(matches!(finalize_write(&Err("下载已取消".to_string()), true), StatusWrite::Cancelled));
    assert!(matches!(finalize_write(&Err("下载已取消".to_string()), false), StatusWrite::Error(_)));
    assert!(matches!(finalize_write(&Err("x".to_string()), true), StatusWrite::Error(ref m) if m == "x"));
    assert!(matches!(finalize_write(&Ok(()), true), StatusWrite::Completed));
    assert!(matches!(finalize_after(StatusWrite::Completed, Ok(())), FinalizeNext::Done(TaskTerminal::Completed)));
    match finalize_after(StatusWrite::Completed, Err("locked".to_string())) {
        FinalizeNext::WriteError(m) => {
            assert_eq!(m, "提交任务完成状态失败: locked");
            match finalize_error_written(m, Err("again".to_string())) {
                TaskTerminal::Error(m) => assert_eq!(m, "提交任务完成状态失败: locked; 任务 error 状态写入失败: again"),
                other => panic!("unexpected {:?}", other),
            }
        },
        other => panic!("unexpected {:?}", other),
    }
    assert!(matches!(
        finalize_after(StatusWrite::Cancelled, Err("db".to_string())),
        FinalizeNext::Done(TaskTerminal::Error(ref m)) if m == "更新取消状态失败: db"
    ));
    assert!(matches!(
        finalize_after(StatusWrite::Error("boom".to_string()), Err("db".to_string())),
        FinalizeNext::Done(TaskTerminal::Error(ref m)) if m == "boom; 任务 error 状态写入失败: db"
    ));
}

#[test]
fn persist_messages() {
    let m = commit_failure_message("disk full");
    assert_eq!(m, "提交媒体项结果失败: disk full");
    let failed = MediaOutcome::Failed { error_msg: "404".to_string() };
    assert_eq!(recovery_message(&m, &failed), "提交媒体项结果失败: disk full; 原始媒体错误: 404");
    let done = MediaOutcome::Completed { file_path: "/f".to_string(), file_size: 3 };
    assert_eq!(recovery_message(&m, &done), "提交媒体项结果失败: disk full; 已下载文件可能仍保留在磁盘");
    assert_eq!(recovery_failed_message(&m, "again"), "提交媒体项结果失败: disk full; 媒体项错误状态恢复写入失败: again");
    assert_eq!(create_task_error("x"), "创建任务失败: x");
    assert_eq!(live_save_error("x"), "保存直播记录失败: x");
}

#[test]
fn counts_and_tally() {
    assert_eq!(counts_result("", 0, 2, 2), Err("所有下载均失败: 2/2 failed".to_string()));
    assert_eq!(counts_result("音乐", 0, 1, 3), Err("所有音乐下载均失败: 1/3 failed".to_string()));
    assert_eq!(counts_result("", 1, 2, 3), Ok(()));
    assert_eq!(counts_result("", 0, 0, 0), Ok(()));
    let mut t = Tally::new();
    t.record(ItemEnd::Done);
    t.record(ItemEnd::SaveFailed);
    t.record(ItemEnd::DownloadFailed);
    assert_eq!((t.completed, t.failed), (1, 2));
}

fn answer(success: bool, error: Option<&str>, items: Vec<ResolvedItem>, dir: Option<&str>) -> ResolvedUrls {
    ResolvedUrls {
        success,
        error: error.map(|s| s.to_string()),
        items,
        save_dir: dir.map(|s| s.to_string()),
        total: None,
        next_cursor: None,
        has_more: None,
    }
}

#[test]
fn resolved_answers() {
    assert_eq!(resolved_save_dir(&answer(false, None, vec![], None), "./d", "empty"), Err("解析失败".to_string()));
    assert_eq!(resolved_save_dir(&answer(false, Some("bad"), vec![], None), "./d", "empty"), Err("bad".to_string()));
    assert_eq!(resolved_save_dir(&answer(true, None, vec![], None), "./d", "没有可下载的内容"), Err("没有可下载的内容".to_string()));
    let items = vec![resolved("w", UrlValue::Other, None)];
    assert_eq!(resolved_save_dir(&answer(true, None, items, None), "./d", "e"), Ok("./d".to_string()));
    assert_eq!(mode_default_dir(DownloadMode::Like), "./Download/like");
}

#[test]
fn legacy_paging_flow() {
    let wanted = vec!["w2".to_string()];
    let mut run = LegacyPaging::new(DownloadMode::Mix, 20, &wanted);
    run.next_page();
    let mut page = answer(true, None, vec![resolved("w1", UrlValue::Other, None), resolved("w2", UrlValue::Other, None)], None);
    page.has_more = Some(true);
    page.next_cursor = Some(7);
    match run.on_page(&page).unwrap() {
        LegacyPageStep::Run { items, first } => {
            assert_eq!(items, vec![1]);
            assert!(first);
        },
        LegacyPageStep::Stop => panic!("page must run"),
    }
    assert_eq!(run.save_dir, "./Download/mix");
    assert_eq!(run.total_items, 1);
    run.tally.record(ItemEnd::Done);
    assert!(!run.after_page(&page));
    assert_eq!(run.final_result(), Ok(()));

    let mut run = LegacyPaging::new(DownloadMode::Like, 20, &vec![]);
    run.next_page();
    assert_eq!(run.on_page(&answer(false, Some("first page failed"), vec![], None)).unwrap_err(), "first page failed");
    run.tally.record(ItemEnd::Done);
    assert!(matches!(run.on_page(&answer(false, None, vec![], None)).unwrap(), LegacyPageStep::Stop));
    let mut more = answer(true, None, vec![], None);
    more.has_more = Some(true);
    more.next_cursor = Some(3);
    assert!(run.after_page(&more));
    assert_eq!(run.cursor, 3);
    more.next_cursor = None;
    assert!(!run.after_page(&more));
}

fn live_plan() -> LivePlanV1 {
    LivePlanV1 {
        success: true,
        contract_version: 1,
        mode: "live".to_string(),
        web_rid: "web".to_string(),
        room_id: " ".to_string(),
        title: "t".to_string(),
        nickname: "n".to_string(),
        sec_user_id: "s".to_string(),
        user_id: None,
        cover_url: String::new(),
        user_count: 0,
        m3u8_url: "https://e/x.m3u8".to_string(),
        output: LiveOutputV1 { save_dir: "/d".to_string(), filename: "f".to_string(), suffix: ".flv".to_string() },
        headers: vec![],
    }
}

#[test]
fn live_task_ends() {
    let out = LiveOutputFacts { path: "/d/f.flv".to_string(), file_size: 5, started_at: 10, ended_at: 70 };
    let done = LiveRecorderOutcome::Completed { reason: LiveCompletionReason::StreamEnded, output: out.clone() };
    match live_task_end(&live_plan(), &done, false) {
        LiveTaskEnd::Save(r) => {
            assert_eq!(r.room_id, None);
            assert_eq!(r.web_rid.as_deref(), Some("web"));
            assert_eq!(r.cover_url, None);
            assert_eq!(r.file_path.as_deref(), Some("/d/f.flv"));
            assert_eq!(r.duration_sec, 60);
            assert_eq!(r.status, "completed");
        },
        other => panic!("unexpected {:?}", other),
    }
    let failed = LiveRecorderOutcome::Failed {
        kind: douyin_core::download::live::LiveFailureKind::FileWrite,
        error: "写入直播文件失败: x".to_string(),
        output: out,
    };
    assert!(matches!(live_task_end(&live_plan(), &failed, true), LiveTaskEnd::Cancelled));
    assert!(matches!(live_task_end(&live_plan(), &failed, false), LiveTaskEnd::Error(ref m) if m == "写入直播文件失败: x"));
}

#[test]
fn task_creation() {
    let id = new_task_id();
    assert_eq!(id.len(), 8);
    assert!(id.chars().all(|c| c.is_ascii_hexdigit()));
    assert_ne!(new_task_id(), id);
    let t = new_download_task("abcd1234", "post", "https://u");
    assert_eq!((t.id.as_str(), t.mode.as_str(), t.url.as_str()), ("abcd1234", "post", "https://u"));
    assert!(t.title.is_none());
    assert!(uses_typed_runner(DownloadMode::Post));
    assert!(!uses_typed_runner(DownloadMode::Like));
}

#[test]
fn request_routes() {
    assert_eq!(route_request("one"), Ok((DownloadMode::One, TaskRoute::Single)));
    assert_eq!(route_request("mix"), Ok((DownloadMode::Mix, TaskRoute::Batch)));
    assert_eq!(route_request("music"), Ok((DownloadMode::Music, TaskRoute::Music)));
    assert_eq!(route_request("live"), Ok((DownloadMode::Live, TaskRoute::Live)));
    assert_eq!(route_request("x"), Err("未知的下载模式: x".to_string()));
    assert!(is_active_live("recording", true));
    assert!(!is_active_live("recording", false));
    assert!(!is_active_live("completed", true));
    assert_eq!(cancel_answer(true, true), Ok(()));
    assert_eq!(cancel_answer(false, true), Err("录制任务不存在或已完成".to_string()));
    assert_eq!(cancel_answer(false, false), Err("任务不存在或已完成".to_string()));
}

#[test]
fn media_item_rows_by_outcome() {
    let id = Some("7001".to_string());
    let row = media_item_row(&id, &None, &MediaOutcome::Completed { file_path: "/d/a.mp4".to_string(), file_size: 12 })
        .unwrap();
    assert_eq!(row.aweme_id, "7001");
    assert_eq!(row.status, "completed");
    assert_eq!(row.file_path.as_deref(), Some("/d/a.mp4"));
    assert_eq!(row.file_size, 12);
    assert_eq!(row.error_msg, None);
    let row = media_item_row(&id, &id, &MediaOutcome::Skipped { file_path: "/d/a.mp4".to_string(), file_size: 3 })
        .unwrap();
    assert_eq!(row.status, "skipped");
    let row = media_item_row(&id, &None, &MediaOutcome::Failed { error_msg: "boom".to_string() }).unwrap();
    assert_eq!(row.status, "failed");
    assert_eq!(row.file_path, None);
    assert_eq!(row.file_size, 0);
    assert_eq!(row.error_msg.as_deref(), Some("boom"));
    assert!(saves_author("MS4w"));
    assert!(!saves_author("  "));
}

#[test]
fn media_item_rows_refused() {
    let failed = MediaOutcome::Failed { error_msg: "x".to_string() };
    assert_eq!(media_item_row(&None, &None, &failed).unwrap_err(), "media item result requires aweme_id");
    assert_eq!(
        media_item_row(&Some("1".to_string()), &Some("2".to_string()), &failed).unwrap_err(),
        "media item video_info.aweme_id must match item aweme_id"
    );
}

#[test]
fn description_accessory_with_separator_in_suffix_is_written() {
    let mut config = AppConfig::default();
    config.desc = true;
    let acc = ResolvedAccessory {
        url: None,
        filename: "a".to_string(),
        suffix: ".d/x.txt".to_string(),
        content_type: "desc".to_string(),
        content: Some("text".to_string()),
    };
    match accessory_action(&acc, &config, "/s", &None, "t") {
        AccessoryAction::WriteText { path, content } => {
            assert_eq!(path, "/s/a.d/x.txt");
            assert_eq!(content, "text");
        },
        other => panic!("unexpected {:?}", other),
    }
    let unknown = ResolvedAccessory { content_type: "other".to_string(), url: Some("u".to_string()), ..acc };
    assert!(matches!(accessory_action(&unknown, &config, "/s", &None, "t"), AccessoryAction::Skip));
}

#[test]
fn persisted_counts_event_keeps_each_count_in_its_field() {
    let counts = douyin_core::models::TaskItemCounts { total: 4, completed: 1, skipped: 2, failed: 1, pending: 0 };
    let e = douyin_core::download::tasks::persisted_counts_event("t1", &counts);
    assert_eq!(e.event_type, TaskEventType::Progress);
    assert_eq!(e.task_id, "t1");
    assert_eq!(e.patch.total, Some(4));
    assert_eq!(e.patch.completed, Some(1));
    assert_eq!(e.patch.skipped, Some(2));
    assert_eq!(e.patch.failed, Some(1));
    assert!(e.patch.status.is_none());
}
