use douyin_core::query_builder::{build_upsert_sql, ColKind};

#[test]
fn upsert_sql_per_column_kind() {
    let sql = build_upsert_sql(
        "video_info",
        "aweme_id",
        &[("aweme_id", ColKind::Normal), ("video_url", ColKind::Volatile), ("digg_count", ColKind::Stat)],
    );
    assert_eq!(
        sql,
        "INSERT INTO video_info (aweme_id, video_url, digg_count) VALUES (?1, ?2, ?3) ON CONFLICT(aweme_id) DO UPDATE SET \
aweme_id = excluded.aweme_id, \
video_url = CASE WHEN excluded.video_url IS NOT NULL AND excluded.video_url != '' THEN excluded.video_url ELSE video_info.video_url END, \
digg_count = CASE WHEN excluded.digg_count > video_info.digg_count OR video_info.digg_count IS NULL THEN excluded.digg_count ELSE video_info.digg_count END"
    );
}

#[test]
fn upsert_sql_without_columns() {
    assert_eq!(
        build_upsert_sql("t", "id", &[]),
        "INSERT INTO t () VALUES () ON CONFLICT(id) DO UPDATE SET "
    );
}

#[test]
fn video_statement_columns_and_kinds() {
    let sql = douyin_core::query_builder::video_upsert_sql();
    assert!(sql.starts_with("INSERT INTO video_info (aweme_id, desc, aweme_type, author_nickname,"));
    assert!(sql.contains("?61) ON CONFLICT(aweme_id) DO UPDATE SET aweme_id = excluded.aweme_id, "));
    assert!(!sql.contains("?62"));
    assert!(sql.contains("video_url = CASE WHEN excluded.video_url IS NOT NULL AND excluded.video_url != '' THEN excluded.video_url ELSE video_info.video_url END"));
    assert!(sql.contains("digg_count = CASE WHEN excluded.digg_count > video_info.digg_count OR video_info.digg_count IS NULL THEN excluded.digg_count ELSE video_info.digg_count END"));
    assert!(sql.ends_with("is_prohibited = excluded.is_prohibited"));
}

#[test]
fn user_statement_columns_and_kinds() {
    let sql = douyin_core::query_builder::user_upsert_sql();
    assert!(sql.starts_with("INSERT INTO user_info (sec_user_id, nickname, uid,"));
    assert!(sql.contains("?30) ON CONFLICT(sec_user_id) DO UPDATE SET sec_user_id = excluded.sec_user_id, "));
    assert!(sql.contains("follower_count = CASE WHEN excluded.follower_count > user_info.follower_count"));
    assert!(sql.ends_with("custom_verify = excluded.custom_verify"));
}
