use douyin_core::download::contract::{
    MediaDownloadItemV1, MediaKindV1, PagedDownloadPlanV1, SingleAccessory, SingleAccessoryKind,
    SingleDownloadPlanV1, SingleOutputSpec,
};
use douyin_core::models::VideoInfo;

fn video(aweme_id: &str) -> VideoInfo {
    VideoInfo {
        aweme_id: aweme_id.to_string(),
        desc: None,
        aweme_type: 0,
        author_nickname: None,
        author_sec_uid: None,
        author_uid: None,
        create_time: None,
        duration: 0,
        video_url: None,
        cover_url: None,
        music_title: None,
        digg_count: 0,
        comment_count: 0,
        share_count: 0,
        collect_count: 0,
        mix_id: None,
        mix_name: None,
        author_nickname_raw: None,
        author_short_id: None,
        author_unique_id: None,
        desc_raw: None,
        is_ads: 0,
        is_story: 0,
        is_top: 0,
        is_long_video: 0,
        video_bit_rate: None,
        animated_cover: None,
        private_status: 0,
        is_delete: 0,
        music_author: None,
        music_author_raw: None,
        music_duration: 0,
        music_id: None,
        music_mid: None,
        pgc_author: None,
        pgc_author_title: None,
        pgc_music_type: 0,
        music_status: 0,
        music_owner_handle: None,
        music_owner_id: None,
        music_owner_nickname: None,
        music_play_url: None,
        is_commerce_music: 0,
        mix_desc: None,
        mix_create_time: 0,
        mix_pic_type: 0,
        mix_type: 0,
        mix_share_url: None,
        can_comment: 0,
        can_forward: 0,
        can_share: 0,
        download_setting: 0,
        allow_douplus: 0,
        allow_share: 0,
        admire_count: 0,
        hashtag_ids: None,
        hashtag_names: None,
        images: None,
        region: None,
        is_prohibited: 0,
        updated_at: 0,
    }
}

fn item(key: &str, aweme: &str, url: &str, filename: &str, headers: Vec<(String, String)>) -> MediaDownloadItemV1 {
    let mut metadata = video(aweme);
    metadata.desc = Some("contract test".to_string());
    metadata.author_nickname = Some("tester".to_string());
    MediaDownloadItemV1 {
        media_key: key.to_string(),
        aweme_id: aweme.to_string(),
        urls: vec![url.to_string()],
        kind: MediaKindV1::Video,
        output: SingleOutputSpec { filename: filename.to_string(), suffix: ".mp4".to_string(), folder_name: None },
        headers,
        accessories: vec![],
        metadata,
    }
}

fn valid_plan() -> SingleDownloadPlanV1 {
    SingleDownloadPlanV1 {
        success: true,
        contract_version: 1,
        mode: "one".to_string(),
        save_dir: "/tmp/downloads".to_string(),
        total: 1,
        items: vec![item(
            "7650450403901017571:video:0",
            "7650450403901017571",
            "https://cdn.example/video.mp4",
            "7650450403901017571_video",
            vec![("Referer".to_string(), "https://www.douyin.com/".to_string())],
        )],
    }
}

fn rejection_error(plan: SingleDownloadPlanV1) -> String {
    match plan.validate() {
        Ok(()) => panic!("invalid contract must be rejected"),
        Err(error) => error,
    }
}

#[test]
fn accepts_valid_single_download_contract() {
    let plan = valid_plan();
    plan.validate().unwrap();
    assert_eq!(plan.items[0].urls, vec!["https://cdn.example/video.mp4"]);
    assert_eq!(plan.total, 1);
}

#[test]
fn rejects_unsupported_contract_version() {
    let mut plan = valid_plan();
    plan.contract_version = 2;
    let error = rejection_error(plan);
    assert!(error.contains("不支持的单视频解析契约版本"));
}

#[test]
fn rejects_empty_url_list() {
    let mut plan = valid_plan();
    plan.items[0].urls = vec![];
    let error = rejection_error(plan);
    assert!(error.contains("至少需要一个下载地址"), "{error}");
}

#[test]
fn rejects_wrong_mode() {
    let mut plan = valid_plan();
    plan.mode = "post".to_string();
    let error = rejection_error(plan);
    assert!(error.contains("mode 必须为 one"), "{error}");
}

#[test]
fn rejects_blank_save_dir() {
    let mut plan = valid_plan();
    plan.save_dir = "  ".to_string();
    let error = rejection_error(plan);
    assert!(error.contains("save_dir 不能为空"), "{error}");
}

#[test]
fn rejects_total_that_does_not_match_items() {
    let mut plan = valid_plan();
    plan.total = 2;
    let error = rejection_error(plan);
    assert!(error.contains("total 与 items 数量不一致"), "{error}");
}

#[test]
fn rejects_metadata_for_another_aweme() {
    let mut plan = valid_plan();
    plan.items[0].metadata.aweme_id = "other".to_string();
    let error = rejection_error(plan);
    assert!(error.contains("metadata 标识不一致"), "{error}");
}

fn valid_paged_plan() -> PagedDownloadPlanV1 {
    PagedDownloadPlanV1 {
        success: true,
        contract_version: 1,
        mode: "post".to_string(),
        save_dir: "/tmp/paged".to_string(),
        items: vec![item("post-1:video:0", "post-1", "https://cdn.example/post1.mp4", "post-1_video", vec![])],
        next_cursor: Some(100),
        has_more: true,
        page_aweme_ids: vec!["post-1".to_string()],
        user_profile: None,
    }
}

fn paged_rejection_error(plan: PagedDownloadPlanV1) -> String {
    match plan.validate("post") {
        Ok(()) => panic!("invalid paged contract must be rejected"),
        Err(error) => error,
    }
}

#[test]
fn accepts_valid_paged_contract() {
    let plan = valid_paged_plan();
    plan.validate("post").unwrap();
    assert_eq!(plan.mode, "post");
    assert!(plan.has_more);
    assert_eq!(plan.next_cursor, Some(100));
}

#[test]
fn rejects_paged_without_next_cursor_when_has_more() {
    let mut plan = valid_paged_plan();
    plan.next_cursor = None;
    let error = paged_rejection_error(plan);
    assert!(error.contains("has_more=true 但 next_cursor 为空"), "{error}");
}

#[test]
fn rejects_paged_duplicate_media_key() {
    let mut plan = valid_paged_plan();
    let copy = item("post-1:video:0", "post-1", "https://cdn.example/post1.mp4", "post-1_video", vec![]);
    plan.items.push(copy);
    let error = paged_rejection_error(plan);
    assert!(error.contains("重复 media_key"), "{error}");
}

#[test]
fn rejects_paged_item_not_in_page_aweme_ids() {
    let mut plan = valid_paged_plan();
    plan.page_aweme_ids = vec!["other-aweme".to_string()];
    let error = paged_rejection_error(plan);
    assert!(error.contains("不在 page_aweme_ids 中"), "{error}");
}

#[test]
fn rejects_paged_aweme_id_without_media_item() {
    let mut plan = valid_paged_plan();
    plan.page_aweme_ids = vec!["post-1".to_string(), "missing-media".to_string()];
    let error = paged_rejection_error(plan);
    assert!(error.contains("没有媒体项"), "{error}");
}

#[test]
fn rejects_paged_unknown_mode() {
    let mut plan = valid_paged_plan();
    plan.mode = "unknown".to_string();
    let error = paged_rejection_error(plan);
    assert!(error.contains("mode 不匹配"), "{error}");
}

#[test]
fn rejects_paged_unsupported_contract_version() {
    let mut plan = valid_paged_plan();
    plan.contract_version = 2;
    let error = paged_rejection_error(plan);
    assert!(error.contains("不支持的分页解析契约版本"), "{error}");
}

#[test]
fn media_index_follows_key_convention() {
    let mut it = item("a:video:0", "a", "u", "f", vec![]);
    assert_eq!(it.media_index(), Ok(0));
    it.media_key = "a:image:1".to_string();
    assert!(it.media_index().unwrap_err().contains("media_key 与 aweme_id/kind 不一致"));
    it.media_key = "a:video:x".to_string();
    assert!(it.media_index().unwrap_err().contains("media_key index 无效"));
    it.media_key = "a:video:2".to_string();
    assert!(it.media_index().unwrap_err().contains("约定不一致"));
    it.kind = MediaKindV1::Image;
    it.media_key = "a:image:2".to_string();
    it.output.suffix = ".webp".to_string();
    assert_eq!(it.media_index(), Ok(2));
}

#[test]
fn accessory_needs_url_or_content() {
    let mut plan = valid_plan();
    plan.items[0].accessories.push(SingleAccessory {
        kind: SingleAccessoryKind::Cover,
        output: SingleOutputSpec { filename: "c".to_string(), suffix: ".jpg".to_string(), folder_name: None },
        url: None,
        content: None,
    });
    assert!(rejection_error(plan).contains("音乐或封面附件缺少 URL"));
}

#[test]
fn paged_item_validate_alone() {
    let it = item("post-9:video:0", "post-9", "u", "f", vec![]);
    assert!(it.validate().is_ok());
}
