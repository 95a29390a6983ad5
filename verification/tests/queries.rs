use douyin_core::migration_plan::{ignorable_migration_error, pending_migrations};
use douyin_core::queries::{
    music_count_query, music_list_query, task_list_query, trend_query, user_count_query, user_list_query,
    validate_sort_field, validate_sort_order, video_count_query, video_list_query, SqlParam,
};

fn s(v: &str) -> Option<String> {
    Some(v.to_string())
}

#[test]
fn sort_validation() {
    let allowed = ["a", "b"];
    assert_eq!(validate_sort_field(&allowed, &s("b"), "a"), "b");
    assert_eq!(validate_sort_field(&allowed, &s("c; DROP TABLE x"), "a"), "a");
    assert_eq!(validate_sort_field(&allowed, &None, "a"), "a");
    assert_eq!(validate_sort_order(&s("asc")), "ASC");
    assert_eq!(validate_sort_order(&s("ASC")), "DESC");
    assert_eq!(validate_sort_order(&None), "DESC");
}

#[test]
fn video_queries() {
    let q = video_list_query("SELECT * FROM video_info", 20, 40, &s("cat"), &s("sec"), &s("digg_count"), &s("asc"), &s("images"));
    assert_eq!(
        q.sql,
        "SELECT * FROM video_info WHERE aweme_type = 68 AND author_sec_uid = ? AND (desc LIKE ? OR author_nickname LIKE ?) ORDER BY digg_count ASC LIMIT ? OFFSET ?"
    );
    assert_eq!(
        q.params,
        vec![
            SqlParam::Text("sec".to_string()),
            SqlParam::Text("%cat%".to_string()),
            SqlParam::Text("%cat%".to_string()),
            SqlParam::Int(20),
            SqlParam::Int(40)
        ]
    );
    let q = video_list_query("SELECT * FROM video_info", 1, 0, &s(""), &None, &s("bogus"), &None, &s("all"));
    assert_eq!(q.sql, "SELECT * FROM video_info ORDER BY updated_at DESC LIMIT ? OFFSET ?");
    let c = video_count_query(&None, &None, &s("video"));
    assert_eq!(c.sql, "SELECT COUNT(*) FROM video_info WHERE aweme_type != 68");
    assert!(c.params.is_empty());
}

#[test]
fn task_user_music_queries() {
    let q = task_list_query(10, 0, &s("running"), &s("live"));
    assert!(q.sql.ends_with("FROM download_tasks WHERE status = ? AND mode = ? ORDER BY created_at DESC LIMIT ? OFFSET ?"));
    assert_eq!(q.params.len(), 4);
    let u = user_list_query("SELECT * FROM user_info", 5, 5, &s("x"), &s("follower_count"), &None);
    assert_eq!(
        u.sql,
        "SELECT * FROM user_info WHERE (nickname LIKE ? OR unique_id LIKE ? OR signature LIKE ?) ORDER BY follower_count DESC LIMIT ? OFFSET ?"
    );
    assert_eq!(user_count_query(&None).sql, "SELECT COUNT(*) FROM user_info");
    let m = music_list_query(3, 0, &s("k"), &s("done"));
    assert!(m.sql.contains("WHERE status = ? AND (title LIKE ? OR author LIKE ? OR owner_nickname LIKE ?)"));
    assert_eq!(m.params.len(), 6);
    assert_eq!(music_count_query(&None, &None).sql, "SELECT COUNT(*) FROM music_collection");
}

#[test]
fn trend_grouping() {
    assert!(trend_query("week").ends_with("GROUP BY strftime('%Y-W%W', created_at, 'unixepoch', 'localtime') ORDER BY period DESC LIMIT 12"));
    assert!(trend_query("month").contains("strftime('%Y-%m'"));
    assert!(trend_query("day").ends_with("LIMIT 30"));
    assert!(trend_query("day").contains("FROM download_task_items WHERE status = 'completed'"));
}

#[test]
fn migration_steps() {
    assert_eq!(pending_migrations(0), vec![1, 2, 3, 4, 6, 7, 8, 9, 10, 11, 12]);
    assert_eq!(pending_migrations(9), vec![10, 11, 12]);
    assert!(pending_migrations(12).is_empty());
    assert!(pending_migrations(99).is_empty());
    assert!(ignorable_migration_error("duplicate column name: cover_url"));
    assert!(ignorable_migration_error("index idx already exists"));
    assert!(ignorable_migration_error("SQLITE_ERROR: duplicate key"));
    assert!(!ignorable_migration_error("no such table: x"));
}
