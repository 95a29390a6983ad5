use douyin_core::download::contract::{MediaDownloadItemV1, MediaKindV1, PagedDownloadPlanV1, SingleOutputSpec};
use douyin_core::download::paging::{add_sat, PageWork, PagedRun};
use douyin_core::models::VideoInfo;

fn video(aweme_id: &str) -> VideoInfo {
    VideoInfo {
        aweme_id: aweme_id.to_string(),
        desc: None,
        aweme_type: 0,
        author_nickname: None,
        author_sec_uid: None,
        author_uid: None,
        create_time: None,
        duration: 0,
        video_url: None,
        cover_url: None,
        music_title: None,
        digg_count: 0,
        comment_count: 0,
        share_count: 0,
        collect_count: 0,
        mix_id: None,
        mix_name: None,
        author_nickname_raw: None,
        author_short_id: None,
        author_unique_id: None,
        desc_raw: None,
        is_ads: 0,
        is_story: 0,
        is_top: 0,
        is_long_video: 0,
        video_bit_rate: None,
        animated_cover: None,
        private_status: 0,
        is_delete: 0,
        music_author: None,
        music_author_raw: None,
        music_duration: 0,
        music_id: None,
        music_mid: None,
        pgc_author: None,
        pgc_author_title: None,
        pgc_music_type: 0,
        music_status: 0,
        music_owner_handle: None,
        music_owner_id: None,
        music_owner_nickname: None,
        music_play_url: None,
        is_commerce_music: 0,
        mix_desc: None,
        mix_create_time: 0,
        mix_pic_type: 0,
        mix_type: 0,
        mix_share_url: None,
        can_comment: 0,
        can_forward: 0,
        can_share: 0,
        download_setting: 0,
        allow_douplus: 0,
        allow_share: 0,
        admire_count: 0,
        hashtag_ids: None,
        hashtag_names: None,
        images: None,
        region: None,
        is_prohibited: 0,
        updated_at: 0,
    }
}

fn item(aweme: &str, index: u32) -> MediaDownloadItemV1 {
    let (kind, suffix) = if index == 0 { (MediaKindV1::Video, ".mp4") } else { (MediaKindV1::Image, ".webp") };
    let kind_name = if index == 0 { "video" } else { "image" };
    MediaDownloadItemV1 {
        media_key: format!("{aweme}:{kind_name}:{index}"),
        aweme_id: aweme.to_string(),
        urls: vec![format!("https://cdn/{aweme}/{index}")],
        kind,
        output: SingleOutputSpec { filename: format!("{aweme}_{index}"), suffix: suffix.to_string(), folder_name: None },
        headers: vec![],
        accessories: vec![],
        metadata: video(aweme),
    }
}

fn page(items: Vec<MediaDownloadItemV1>, ids: &[&str], next: Option<i64>, more: bool) -> PagedDownloadPlanV1 {
    PagedDownloadPlanV1 {
        success: true,
        contract_version: 1,
        mode: "post".to_string(),
        save_dir: "/tmp/post".to_string(),
        items,
        next_cursor: next,
        has_more: more,
        page_aweme_ids: ids.iter().map(|s| s.to_string()).collect(),
        user_profile: None,
    }
}

#[test]
fn request_counts_respect_the_limit() {
    let mut run = PagedRun::new(20, 0);
    assert_eq!(run.next_request(), Some(20));
    assert_eq!(run.page_index, 1);
    let mut run = PagedRun::new(20, 3);
    assert_eq!(run.next_request(), Some(3));
    run.seen_aweme_ids = vec!["a".to_string(), "b".to_string(), "c".to_string()];
    assert_eq!(run.next_request(), None);
}

#[test]
fn two_pages_then_stop() {
    let mut run = PagedRun::new(20, 0);
    run.next_request();
    let p1 = page(vec![item("a", 0), item("b", 1), item("b", 2)], &["a", "b"], Some(10), true);
    assert_eq!(run.check_head(&p1), Ok(true));
    assert_eq!(run.save_dir.as_deref(), Some("/tmp/post"));
    match run.select(&p1).unwrap() {
        PageWork::Run(v) => assert_eq!(v, vec![0, 1, 2]),
        PageWork::Stop => panic!("page must run"),
    }
    assert_eq!(run.after_page(3, 0, &p1), Ok(true));
    assert_eq!(run.cursor, 10);
    run.next_request();
    let p2 = page(vec![item("c", 0)], &["c"], None, false);
    assert_eq!(run.check_head(&p2), Ok(false));
    assert!(matches!(run.select(&p2).unwrap(), PageWork::Run(_)));
    assert_eq!(run.after_page(0, 1, &p2), Ok(false));
    assert_eq!(run.final_result(), Ok(()));
}

#[test]
fn page_checks_report_page_numbers() {
    let mut run = PagedRun::new(20, 0);
    run.next_request();
    let mut p = page(vec![item("a", 0)], &["a"], Some(5), true);
    p.mode = "like".to_string();
    assert_eq!(run.check_head(&p).unwrap_err(), "第 1 页 mode 漂移: expected=post, actual=like");
    let p1 = page(vec![item("a", 0)], &["a"], Some(5), true);
    run.check_head(&p1).unwrap();
    run.select(&p1).unwrap();
    run.after_page(1, 0, &p1).unwrap();
    run.next_request();
    let mut p2 = page(vec![item("a", 0)], &["a"], Some(6), true);
    p2.save_dir = "/other".to_string();
    assert_eq!(run.check_head(&p2).unwrap_err(), "第 2 页 save_dir 漂移");
    let p2 = page(vec![item("a", 0)], &["a"], Some(6), true);
    run.check_head(&p2).unwrap();
    assert_eq!(run.select(&p2).unwrap_err(), "跨页重复 media_key: a:video:0");
}

#[test]
fn page_protocol_errors() {
    let mut run = PagedRun::new(20, 0);
    run.next_request();
    let p = page(vec![item("a", 0)], &["a"], None, true);
    assert_eq!(run.select(&p).unwrap_err(), "第 1 页 has_more=true 但 next_cursor 为空");
    let p = page(vec![], &[], Some(3), true);
    let e = run.select(&p).unwrap_err();
    assert_eq!(e, "第 1 页 items 与 page_aweme_ids 为空但 has_more=true (重复 cursor 或协议错误)");
    assert!(e.contains("page_aweme_ids 为空"));
    let p = page(vec![], &[], None, false);
    assert!(matches!(run.select(&p).unwrap(), PageWork::Stop));
    let p = page(vec![item("a", 0)], &["x"], None, false);
    assert_eq!(run.select(&p).unwrap_err(), "第 1 页媒体 a:video:0 不属于 page_aweme_ids");
    let p = page(vec![item("a", 0)], &["a"], Some(0), true);
    assert_eq!(run.after_page(0, 0, &p).unwrap_err(), "第 1 页 next_cursor 重复: 0");
}

#[test]
fn limit_keeps_only_allowed_works() {
    let mut run = PagedRun::new(20, 2);
    run.next_request();
    let p = page(vec![item("a", 0), item("b", 0), item("c", 0)], &["a", "b", "c"], Some(9), true);
    match run.select(&p).unwrap() {
        PageWork::Run(v) => assert_eq!(v, vec![0, 1]),
        PageWork::Stop => panic!("page must run"),
    }
    assert_eq!(run.seen_aweme_ids, vec!["a".to_string(), "b".to_string()]);
    assert_eq!(run.after_page(2, 0, &p), Ok(false));
}

#[test]
fn final_results() {
    let run = PagedRun::new(20, 0);
    assert_eq!(run.final_result().unwrap_err(), "未发现可下载媒体");
    let mut run = PagedRun::new(20, 0);
    run.total_failed = 2;
    assert_eq!(run.final_result().unwrap_err(), "所有下载均失败: 2/2 failed");
    assert_eq!(add_sat(i64::MAX, 1), i64::MAX);
    assert_eq!(add_sat(2, 3), 5);
}

#[test]
fn public_paged_task_empty_page_with_has_more_is_protocol_error() {
    let mut run = PagedRun::new(20, 0);
    assert_eq!(run.next_request(), Some(20));
    let p = page(vec![], &[], Some(10), true);
    run.check_head(&p).unwrap();
    let e = run.select(&p).unwrap_err();
    assert!(e.contains("page_aweme_ids 为空"), "{}", e);
}

#[test]
fn public_paged_task_media_free_source_page_continues_to_next_page() {
    let mut run = PagedRun::new(20, 0);
    run.next_request();
    let first = page(vec![], &["unavailable"], Some(50), true);
    run.check_head(&first).unwrap();
    match run.select(&first).unwrap() {
        PageWork::Run(v) => assert!(v.is_empty()),
        PageWork::Stop => panic!("a media-free page must not stop paging"),
    }
    assert!(run.after_page(0, 0, &first).unwrap());
    assert_eq!(run.cursor, 50);
    run.next_request();
    let second = page(vec![item("downloadable", 0)], &["downloadable"], None, false);
    run.check_head(&second).unwrap();
    match run.select(&second).unwrap() {
        PageWork::Run(v) => assert_eq!(v, vec![0]),
        PageWork::Stop => panic!("second page must run"),
    }
    assert!(!run.after_page(1, 0, &second).unwrap());
    assert!(run.final_result().is_ok());
    assert_eq!(run.total_completed, 1);
}
