//! Records stored in and read from the local database.

use vstd::prelude::*;

verus! {
#[derive(Debug, Clone)]
pub struct DownloadRecord {
    pub id: i64,
    pub aweme_id: Option<String>,
    pub download_type: String,
    pub title: Option<String>,
    pub author_nickname: Option<String>,
    pub author_sec_uid: Option<String>,
    pub file_path: Option<String>,
    pub file_size: i64,
    pub cover_url: Option<String>,
    pub status: String,
    pub error_msg: Option<String>,
    pub created_at: i64,
}

#[derive(Debug, Clone)]
pub struct DownloadStats {
    pub total_count: i64,
    pub total_size: i64,
    pub by_type: Vec<TypeStat>,
    pub by_day: Vec<DayStat>,
}

#[derive(Debug, Clone)]
pub struct TypeStat {
    pub download_type: String,
    pub cnt: i64,
    pub size: i64,
}

#[derive(Debug, Clone)]
pub struct DayStat {
    pub day: String,
    pub cnt: i64,
}

#[derive(Debug, Clone)]
pub struct LiveRecord {
    pub id: i64,
    pub room_id: Option<String>,
    pub web_rid: Option<String>,
    pub title: Option<String>,
    pub nickname: Option<String>,
    pub sec_user_id: Option<String>,
    pub file_path: Option<String>,
    pub file_size: i64,
    pub duration_sec: i64,
    pub status: String,
    pub started_at: Option<i64>,
    pub ended_at: Option<i64>,
    pub cover_url: Option<String>,
}

#[derive(Debug, Clone)]
pub struct NewDownloadRecord {
    pub aweme_id: Option<String>,
    pub download_type: String,
    pub title: Option<String>,
    pub author_nickname: Option<String>,
    pub author_sec_uid: Option<String>,
    pub file_path: Option<String>,
    pub file_size: i64,
    pub cover_url: Option<String>,
    pub status: String,
    pub error_msg: Option<String>,
}

#[derive(Debug, Clone)]
pub struct NewLiveRecord {
    pub room_id: Option<String>,
    pub web_rid: Option<String>,
    pub title: Option<String>,
    pub nickname: Option<String>,
    pub sec_user_id: Option<String>,
    pub file_path: Option<String>,
    pub file_size: i64,
    pub duration_sec: i64,
    pub status: String,
    pub started_at: Option<i64>,
    pub ended_at: Option<i64>,
    pub cover_url: Option<String>,
}


#[derive(Debug, Clone)]
pub struct DownloadTask {
    pub id: String,
    pub mode: String,
    pub url: String,
    pub title: Option<String>,
    pub author_nickname: Option<String>,
    pub status: String,
    pub total: i64,
    pub completed: i64,
    pub skipped: i64,
    pub failed: i64,
    pub error_msg: Option<String>,
    pub created_at: i64,
    pub updated_at: i64,
}

#[derive(Debug, Clone)]
pub struct NewDownloadTask {
    pub id: String,
    pub mode: String,
    pub url: String,
    pub title: Option<String>,
    pub author_nickname: Option<String>,
}

#[derive(Debug, Clone)]
pub struct TaskItem {
    pub id: i64,
    pub task_id: String,
    pub aweme_id: Option<String>,
    pub title: Option<String>,
    pub author_nickname: Option<String>,
    pub cover_url: Option<String>,
    pub file_path: Option<String>,
    pub file_size: i64,
    pub status: String,
    pub error_msg: Option<String>,
    pub created_at: i64,
}

#[derive(Debug, Clone)]
pub struct NewTaskItem {
    pub task_id: String,
    pub aweme_id: Option<String>,
    pub media_key: Option<String>,
    pub media_kind: Option<String>,
    pub media_index: Option<i64>,
    pub title: Option<String>,
    pub author_sec_uid: Option<String>,
    pub author_nickname: Option<String>,
    pub cover_url: Option<String>,
}

#[derive(Debug, Clone)]
pub struct TaskItemCounts {
    pub total: i64,
    pub completed: i64,
    pub skipped: i64,
    pub failed: i64,
    pub pending: i64,
}

#[derive(Debug, Clone)]
pub struct DownloadTaskDetail {
    pub task: DownloadTask,
    pub items: Vec<TaskItem>,
}


#[derive(Debug, Clone)]
pub struct UserInfo {
    pub sec_user_id: String,
    pub nickname: Option<String>,
    pub uid: Option<String>,
    pub avatar_url: Option<String>,
    pub unique_id: Option<String>,
    pub signature: Option<String>,
    pub aweme_count: i64,
    pub follower_count: i64,
    pub following_count: i64,
    pub total_favorited: i64,
    pub ip_location: Option<String>,
    pub live_status: i32,
    pub room_id: Option<String>,
    pub city: Option<String>,
    pub country: Option<String>,
    pub favoriting_count: i64,
    pub gender: i32,
    pub is_ban: i32,
    pub is_block: i32,
    pub is_blocked: i32,
    pub is_star: i32,
    pub mix_count: i32,
    pub mplatform_followers_count: i64,
    pub nickname_raw: Option<String>,
    pub school_name: Option<String>,
    pub short_id: Option<String>,
    pub signature_raw: Option<String>,
    pub user_age: i32,
    pub custom_verify: Option<String>,
    pub updated_at: i64,
}


#[derive(Debug, Clone)]
pub struct VideoInfo {
    pub aweme_id: String,
    pub desc: Option<String>,
    pub aweme_type: i32,
    pub author_nickname: Option<String>,
    pub author_sec_uid: Option<String>,
    pub author_uid: Option<String>,
    pub create_time: Option<i64>,
    pub duration: i32,
    pub video_url: Option<String>,
    pub cover_url: Option<String>,
    pub music_title: Option<String>,
    pub digg_count: i64,
    pub comment_count: i64,
    pub share_count: i64,
    pub collect_count: i64,
    pub mix_id: Option<String>,
    pub mix_name: Option<String>,
    pub author_nickname_raw: Option<String>,
    pub author_short_id: Option<String>,
    pub author_unique_id: Option<String>,
    pub desc_raw: Option<String>,
    pub is_ads: i32,
    pub is_story: i32,
    pub is_top: i32,
    pub is_long_video: i32,
    pub video_bit_rate: Option<String>,
    pub animated_cover: Option<String>,
    pub private_status: i32,
    pub is_delete: i32,
    pub music_author: Option<String>,
    pub music_author_raw: Option<String>,
    pub music_duration: i32,
    pub music_id: Option<String>,
    pub music_mid: Option<String>,
    pub pgc_author: Option<String>,
    pub pgc_author_title: Option<String>,
    pub pgc_music_type: i32,
    pub music_status: i32,
    pub music_owner_handle: Option<String>,
    pub music_owner_id: Option<String>,
    pub music_owner_nickname: Option<String>,
    pub music_play_url: Option<String>,
    pub is_commerce_music: i32,
    pub mix_desc: Option<String>,
    pub mix_create_time: i64,
    pub mix_pic_type: i32,
    pub mix_type: i32,
    pub mix_share_url: Option<String>,
    pub can_comment: i32,
    pub can_forward: i32,
    pub can_share: i32,
    pub download_setting: i32,
    pub allow_douplus: i32,
    pub allow_share: i32,
    pub admire_count: i64,
    pub hashtag_ids: Option<String>,
    pub hashtag_names: Option<String>,
    pub images: Option<String>,
    pub region: Option<String>,
    pub is_prohibited: i32,
    pub updated_at: i64,
}


#[derive(Debug, Clone)]
pub struct VideoStats {
    pub total_count: i64,
    pub total_digg: i64,
    pub total_comment: i64,
    pub total_share: i64,
    pub total_collect: i64,
    pub by_type: Vec<VideoTypeStat>,
}

#[derive(Debug, Clone)]
pub struct VideoTypeStat {
    pub aweme_type: i32,
    pub cnt: i64,
}

#[derive(Debug, Clone)]
pub struct UserStats {
    pub total_count: i64,
    pub total_follower: i64,
    pub total_aweme: i64,
}

#[derive(Debug, Clone)]
pub struct TrendPoint {
    pub day: String,
    pub cnt: i64,
    pub size: i64,
}

#[derive(Debug, Clone)]
pub struct AuthorStat {
    pub author_nickname: String,
    pub cnt: i64,
    pub total_size: i64,
}

#[derive(Debug, Clone)]
pub struct StorageStat {
    pub download_type: String,
    pub cnt: i64,
    pub total_size: i64,
}

#[derive(Debug, Clone)]
pub struct DbHealth {
    pub download_count: i64,
    pub video_count: i64,
    pub user_count: i64,
    pub live_count: i64,
    pub music_count: i64,
    pub task_count: i64,
    pub db_size_bytes: i64,
}


#[derive(Debug, Clone)]
pub struct MusicCollection {
    pub music_id: String,
    pub mid: Option<String>,
    pub title: Option<String>,
    pub author: Option<String>,
    pub owner_nickname: Option<String>,
    pub duration: i32,
    pub cover: Option<String>,
    pub play_url: Option<String>,
    pub file_path: Option<String>,
    pub status: String,
    pub created_at: i64,
}

#[derive(Debug, Clone)]
pub struct NewMusicCollection {
    pub music_id: String,
    pub mid: Option<String>,
    pub title: Option<String>,
    pub author: Option<String>,
    pub owner_nickname: Option<String>,
    pub duration: i32,
    pub cover: Option<String>,
    pub play_url: Option<String>,
}

} // verus!
