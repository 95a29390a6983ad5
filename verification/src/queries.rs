//! SQL text and parameters of the list and count queries: which filters
//! apply, in which order their parameters bind, the allowed sort columns
//! and directions, and the grouping of the download trend.

use vstd::prelude::*;
use crate::text::{join_spec, str_eq, str_views, to_owned_string};

verus! {

/// A bound parameter.
#[derive(Debug, Clone, PartialEq, Eq)]
pub enum SqlParam {
    Text(String),
    Int(i64),
}

/// A bound parameter seen as text or integer.
pub enum ParamView {
    Text(Seq<char>),
    Int(i64),
}

/// The parameter seen as a [`ParamView`].
pub open spec fn param_view(p: SqlParam) -> ParamView {
    match p {
        SqlParam::Text(s) => ParamView::Text(s@),
        SqlParam::Int(n) => ParamView::Int(n),
    }
}

/// The parameters seen as [`ParamView`]s.
pub open spec fn param_views(p: Seq<SqlParam>) -> Seq<ParamView> {
    p.map_values(|x: SqlParam| param_view(x))
}

/// A statement and its parameters, in binding order.
#[derive(Debug)]
pub struct Query {
    pub sql: String,
    pub params: Vec<SqlParam>,
}

/// The sort column: the requested one when allowed, else the default.
pub open spec fn sort_field_spec(allowed: Seq<Seq<char>>, sort_by: Option<Seq<char>>, default: Seq<char>) -> Seq<char> {
    match sort_by {
        Some(s) => if allowed.contains(s) {
            s
        } else {
            default
        },
        None => default,
    }
}

/// The sort column among the allowed ones.
pub fn validate_sort_field(allowed: &[&str], sort_by: &Option<String>, default: &str) -> (res: String)
    ensures
        res@ == sort_field_spec(
            str_views(allowed@),
            match sort_by {
                Some(s) => Some(s@),
                None => None,
            },
            default@,
        ),
{
    match sort_by {
        Some(s) => {
            let mut i: usize = 0;
            while i < allowed.len()
                invariant
                    i <= allowed@.len(),
                    sort_by matches Some(x) && x@ == s@,
                    forall|k: int| 0 <= k < i ==> str_views(allowed@)[k] != s@,
                decreases allowed@.len() - i,
            {
                if str_eq(allowed[i], s.as_str()) {
                    assert(str_views(allowed@)[i as int] == s@);
                    return s.clone();
                }
                i = i + 1;
            }
            to_owned_string(default)
        },
        None => to_owned_string(default),
    }
}

/// The sort direction: ascending only when asked for by `asc`.
pub fn validate_sort_order(order: &Option<String>) -> (res: String)
    ensures
        res@ == (if order matches Some(o) && o@ == "asc"@ { "ASC"@ } else { "DESC"@ }),
{
    match order {
        Some(o) => if str_eq(o.as_str(), "asc") {
            to_owned_string("ASC")
        } else {
            to_owned_string("DESC")
        },
        None => to_owned_string("DESC"),
    }
}

/// The optional text, when it is given and not empty.
pub open spec fn given(o: Option<String>) -> Option<Seq<char>> {
    match o {
        Some(s) => if s@.len() > 0 {
            Some(s@)
        } else {
            None
        },
        None => None,
    }
}

/// The `LIKE` pattern of a keyword.
pub open spec fn like_pattern(k: Seq<char>) -> Seq<char> {
    "%"@ + k + "%"@
}

/// The filters of the video list: post type, author, keyword (in that
/// order), as conditions and parameters.
pub open spec fn video_filters(keyword: Option<String>, author: Option<String>, post_type: Option<String>) -> (
    Seq<Seq<char>>,
    Seq<ParamView>,
) {
    let c0: Seq<Seq<char>> = match post_type {
        Some(p) => if p@ == "video"@ {
            seq!["aweme_type != 68"@]
        } else if p@ == "images"@ {
            seq!["aweme_type = 68"@]
        } else {
            Seq::empty()
        },
        None => Seq::empty(),
    };
    let (c1, p1) = match given(author) {
        Some(a) => (c0.push("author_sec_uid = ?"@), seq![ParamView::Text(a)]),
        None => (c0, Seq::empty()),
    };
    match given(keyword) {
        Some(k) => (
            c1.push("(desc LIKE ? OR author_nickname LIKE ?)"@),
            p1 + seq![ParamView::Text(like_pattern(k)), ParamView::Text(like_pattern(k))],
        ),
        None => (c1, p1),
    }
}

/// The `WHERE` part for some conditions: nothing, or the conditions joined
/// with `AND`.
pub open spec fn where_part(conds: Seq<Seq<char>>) -> Seq<char> {
    if conds.len() == 0 {
        Seq::empty()
    } else {
        " WHERE "@ + join_spec(conds, " AND "@)
    }
}

fn where_text(conds: &Vec<&str>) -> (res: String)
    ensures
        res@ == where_part(str_views(conds@)),
{
    if conds.len() == 0 {
        String::new()
    } else {
        let mut s = to_owned_string(" WHERE ");
        s.append(crate::text::join_strs(conds, " AND ").as_str());
        s
    }
}

fn given_text(o: &Option<String>) -> (res: Option<String>)
    ensures
        match res {
            Some(s) => given(*o) == Some(s@),
            None => given(*o) is None,
        },
{
    match o {
        Some(s) => if s.as_str().unicode_len() > 0 {
            Some(s.clone())
        } else {
            None
        },
        None => None,
    }
}

fn pattern(k: &str) -> (res: String)
    ensures
        res@ == like_pattern(k@),
{
    let mut s = to_owned_string("%");
    s.append(k);
    s.append("%");
    s
}

/// The conditions and parameters of the video filters.
fn video_filter_parts(keyword: &Option<String>, author: &Option<String>, post_type: &Option<String>) -> (res: (
    Vec<&'static str>,
    Vec<SqlParam>,
))
    ensures
        (str_views(res.0@), param_views(res.1@)) == video_filters(*keyword, *author, *post_type),
{
    let mut conds: Vec<&'static str> = Vec::new();
    let mut params: Vec<SqlParam> = Vec::new();
    match post_type {
        Some(p) => if str_eq(p.as_str(), "video") {
            conds.push("aweme_type != 68");
        } else if str_eq(p.as_str(), "images") {
            conds.push("aweme_type = 68");
        },
        None => {},
    }
    let ghost c0 = str_views(conds@);
    match given_text(author) {
        Some(a) => {
            conds.push("author_sec_uid = ?");
            params.push(SqlParam::Text(a));
        },
        None => {},
    }
    let ghost c1 = str_views(conds@);
    let ghost p1 = param_views(params@);
    proof {
        assert(c1 =~= (match given(*author) {
            Some(a) => c0.push("author_sec_uid = ?"@),
            None => c0,
        }));
    }
    match given_text(keyword) {
        Some(k) => {
            conds.push("(desc LIKE ? OR author_nickname LIKE ?)");
            params.push(SqlParam::Text(pattern(k.as_str())));
            params.push(SqlParam::Text(pattern(k.as_str())));
            proof {
                assert(str_views(conds@) =~= c1.push("(desc LIKE ? OR author_nickname LIKE ?)"@));
                assert(param_views(params@) =~= p1 + seq![
                    ParamView::Text(like_pattern(k@)),
                    ParamView::Text(like_pattern(k@)),
                ]);
            }
        },
        None => {},
    }
    proof {
        assert(str_views(conds@) =~= video_filters(*keyword, *author, *post_type).0);
        assert(param_views(params@) =~= video_filters(*keyword, *author, *post_type).1);
    }
    (conds, params)
}

/// The video list query: `select` (the `SELECT ... FROM video_info` head),
/// the filters, the sort, then the limit and offset parameters.
pub fn video_list_query(
    select: &str,
    limit: i64,
    offset: i64,
    keyword: &Option<String>,
    author_sec_uid: &Option<String>,
    sort_by: &Option<String>,
    sort_order: &Option<String>,
    post_type: &Option<String>,
) -> (res: Query)
    ensures
        ({
            let (conds, params) = video_filters(*keyword, *author_sec_uid, *post_type);
            let col = sort_field_spec(
                seq![
                    "create_time"@, "digg_count"@, "comment_count"@, "share_count"@, "collect_count"@,
                    "updated_at"@,
                ],
                match sort_by {
                    Some(s) => Some(s@),
                    None => None,
                },
                "updated_at"@,
            );
            let dir = if sort_order matches Some(o) && o@ == "asc"@ { "ASC"@ } else { "DESC"@ };
            &&& res.sql@ == select@ + where_part(conds) + " ORDER BY "@ + col + " "@ + dir
                + " LIMIT ? OFFSET ?"@
            &&& param_views(res.params@) == params + seq![ParamView::Int(limit), ParamView::Int(offset)]
        }),
{
    let allowed: [&str; 6] = ["create_time", "digg_count", "comment_count", "share_count", "collect_count", "updated_at"];
    proof {
        assert(str_views(allowed@) =~= seq![
            "create_time"@, "digg_count"@, "comment_count"@, "share_count"@, "collect_count"@, "updated_at"@,
        ]);
    }
    let col = validate_sort_field(&allowed, sort_by, "updated_at");
    let dir = validate_sort_order(sort_order);
    let (conds, mut params) = video_filter_parts(keyword, author_sec_uid, post_type);
    let mut sql = to_owned_string(select);
    sql.append(where_text(&conds).as_str());
    sql.append(" ORDER BY ");
    sql.append(col.as_str());
    sql.append(" ");
    sql.append(dir.as_str());
    sql.append(" LIMIT ? OFFSET ?");
    let ghost before = param_views(params@);
    params.push(SqlParam::Int(limit));
    params.push(SqlParam::Int(offset));
    proof {
        assert(param_views(params@) =~= before + seq![ParamView::Int(limit), ParamView::Int(offset)]);
    }
    Query { sql, params }
}

/// The video count query over the same filters.
pub fn video_count_query(keyword: &Option<String>, author_sec_uid: &Option<String>, post_type: &Option<String>) -> (res:
    Query)
    ensures
        ({
            let (conds, params) = video_filters(*keyword, *author_sec_uid, *post_type);
            &&& res.sql@ == "SELECT COUNT(*) FROM video_info"@ + where_part(conds)
            &&& param_views(res.params@) == params
        }),
{
    let (conds, params) = video_filter_parts(keyword, author_sec_uid, post_type);
    let mut sql = to_owned_string("SELECT COUNT(*) FROM video_info");
    sql.append(where_text(&conds).as_str());
    Query { sql, params }
}

/// The filters of the task list: status, then mode.
pub open spec fn task_filters(status: Option<String>, mode: Option<String>) -> (Seq<Seq<char>>, Seq<ParamView>) {
    let (c0, p0) = match given(status) {
        Some(s) => (seq!["status = ?"@], seq![ParamView::Text(s)]),
        None => (Seq::empty(), Seq::empty()),
    };
    match given(mode) {
        Some(m) => (c0.push("mode = ?"@), p0.push(ParamView::Text(m))),
        None => (c0, p0),
    }
}

/// The task list query, newest first.
pub fn task_list_query(limit: i64, offset: i64, status: &Option<String>, mode: &Option<String>) -> (res: Query)
    ensures
        ({
            let (conds, params) = task_filters(*status, *mode);
            &&& res.sql@ == "SELECT id, mode, url, title, author_nickname, status, total, completed, skipped, failed, error_msg, created_at, updated_at FROM download_tasks"@
                + where_part(conds) + " ORDER BY created_at DESC LIMIT ? OFFSET ?"@
            &&& param_views(res.params@) == params + seq![ParamView::Int(limit), ParamView::Int(offset)]
        }),
{
    let mut conds: Vec<&str> = Vec::new();
    let mut params: Vec<SqlParam> = Vec::new();
    match given_text(status) {
        Some(s) => {
            conds.push("status = ?");
            params.push(SqlParam::Text(s));
        },
        None => {},
    }
    let ghost c0 = str_views(conds@);
    let ghost p0 = param_views(params@);
    match given_text(mode) {
        Some(m) => {
            conds.push("mode = ?");
            params.push(SqlParam::Text(m));
        },
        None => {},
    }
    proof {
        assert(str_views(conds@) =~= task_filters(*status, *mode).0);
        assert(param_views(params@) =~= task_filters(*status, *mode).1);
    }
    let ghost pf = param_views(params@);
    let mut sql = to_owned_string(
        "SELECT id, mode, url, title, author_nickname, status, total, completed, skipped, failed, error_msg, created_at, updated_at FROM download_tasks",
    );
    sql.append(where_text(&conds).as_str());
    sql.append(" ORDER BY created_at DESC LIMIT ? OFFSET ?");
    params.push(SqlParam::Int(limit));
    params.push(SqlParam::Int(offset));
    proof {
        assert(param_views(params@) =~= pf + seq![ParamView::Int(limit), ParamView::Int(offset)]);
    }
    Query { sql, params }
}

/// The keyword filter searching three columns with the same pattern.
pub open spec fn keyword3(k: Option<String>, cond: Seq<char>) -> (Seq<Seq<char>>, Seq<ParamView>) {
    match given(k) {
        Some(w) => (
            seq![cond],
            seq![ParamView::Text(like_pattern(w)), ParamView::Text(like_pattern(w)), ParamView::Text(like_pattern(w))],
        ),
        None => (Seq::empty(), Seq::empty()),
    }
}

fn keyword3_parts(k: &Option<String>, cond: &'static str) -> (res: (Vec<&'static str>, Vec<SqlParam>))
    ensures
        (str_views(res.0@), param_views(res.1@)) == keyword3(*k, cond@),
{
    let mut conds: Vec<&'static str> = Vec::new();
    let mut params: Vec<SqlParam> = Vec::new();
    match given_text(k) {
        Some(w) => {
            conds.push(cond);
            params.push(SqlParam::Text(pattern(w.as_str())));
            params.push(SqlParam::Text(pattern(w.as_str())));
            params.push(SqlParam::Text(pattern(w.as_str())));
            proof {
                assert(str_views(conds@) =~= seq![cond@]);
                assert(param_views(params@) =~= seq![
                    ParamView::Text(like_pattern(w@)),
                    ParamView::Text(like_pattern(w@)),
                    ParamView::Text(like_pattern(w@)),
                ]);
            }
        },
        None => {
            proof {
                assert(str_views(conds@) =~= Seq::<Seq<char>>::empty());
                assert(param_views(params@) =~= Seq::<ParamView>::empty());
            }
        },
    }
    (conds, params)
}

/// The user list query: `select` (the `SELECT ... FROM user_info` head),
/// the keyword filter over nickname, unique id and signature, the sort.
pub fn user_list_query(
    select: &str,
    limit: i64,
    offset: i64,
    keyword: &Option<String>,
    sort_by: &Option<String>,
    sort_order: &Option<String>,
) -> (res: Query)
    ensures
        ({
            let (conds, params) = keyword3(*keyword, "(nickname LIKE ? OR unique_id LIKE ? OR signature LIKE ?)"@);
            let col = sort_field_spec(
                seq!["follower_count"@, "aweme_count"@, "following_count"@, "total_favorited"@, "updated_at"@],
                match sort_by {
                    Some(s) => Some(s@),
                    None => None,
                },
                "updated_at"@,
            );
            let dir = if sort_order matches Some(o) && o@ == "asc"@ { "ASC"@ } else { "DESC"@ };
            &&& res.sql@ == select@ + where_part(conds) + " ORDER BY "@ + col + " "@ + dir
                + " LIMIT ? OFFSET ?"@
            &&& param_views(res.params@) == params + seq![ParamView::Int(limit), ParamView::Int(offset)]
        }),
{
    let allowed: [&str; 5] = ["follower_count", "aweme_count", "following_count", "total_favorited", "updated_at"];
    proof {
        assert(str_views(allowed@) =~= seq![
            "follower_count"@, "aweme_count"@, "following_count"@, "total_favorited"@, "updated_at"@,
        ]);
    }
    let col = validate_sort_field(&allowed, sort_by, "updated_at");
    let dir = validate_sort_order(sort_order);
    let (conds, mut params) = keyword3_parts(keyword, "(nickname LIKE ? OR unique_id LIKE ? OR signature LIKE ?)");
    let mut sql = to_owned_string(select);
    sql.append(where_text(&conds).as_str());
    sql.append(" ORDER BY ");
    sql.append(col.as_str());
    sql.append(" ");
    sql.append(dir.as_str());
    sql.append(" LIMIT ? OFFSET ?");
    let ghost before = param_views(params@);
    params.push(SqlParam::Int(limit));
    params.push(SqlParam::Int(offset));
    proof {
        assert(param_views(params@) =~= before + seq![ParamView::Int(limit), ParamView::Int(offset)]);
    }
    Query { sql, params }
}

/// The user count query over the keyword filter.
pub fn user_count_query(keyword: &Option<String>) -> (res: Query)
    ensures
        ({
            let (conds, params) = keyword3(*keyword, "(nickname LIKE ? OR unique_id LIKE ? OR signature LIKE ?)"@);
            &&& res.sql@ == "SELECT COUNT(*) FROM user_info"@ + where_part(conds)
            &&& param_views(res.params@) == params
        }),
{
    let (conds, params) = keyword3_parts(keyword, "(nickname LIKE ? OR unique_id LIKE ? OR signature LIKE ?)");
    let mut sql = to_owned_string("SELECT COUNT(*) FROM user_info");
    sql.append(where_text(&conds).as_str());
    Query { sql, params }
}

/// The filters of the music collection: status, then keyword over title,
/// author and owner.
pub open spec fn music_filters(keyword: Option<String>, status: Option<String>) -> (Seq<Seq<char>>, Seq<ParamView>) {
    let (c0, p0) = match given(status) {
        Some(s) => (seq!["status = ?"@], seq![ParamView::Text(s)]),
        None => (Seq::empty(), Seq::empty()),
    };
    let (c1, p1) = keyword3(keyword, "(title LIKE ? OR author LIKE ? OR owner_nickname LIKE ?)"@);
    (c0 + c1, p0 + p1)
}

fn music_filter_parts(keyword: &Option<String>, status: &Option<String>) -> (res: (Vec<&'static str>, Vec<SqlParam>))
    ensures
        (str_views(res.0@), param_views(res.1@)) == music_filters(*keyword, *status),
{
    let mut conds: Vec<&'static str> = Vec::new();
    let mut params: Vec<SqlParam> = Vec::new();
    match given_text(status) {
        Some(s) => {
            conds.push("status = ?");
            params.push(SqlParam::Text(s));
        },
        None => {},
    }
    let ghost c0 = str_views(conds@);
    let ghost p0 = param_views(params@);
    let (mut c1, mut p1) = keyword3_parts(keyword, "(title LIKE ? OR author LIKE ? OR owner_nickname LIKE ?)");
    let ghost c1v = str_views(c1@);
    let ghost p1v = param_views(p1@);
    conds.append(&mut c1);
    params.append(&mut p1);
    proof {
        assert(str_views(conds@) =~= c0 + c1v);
        assert(param_views(params@) =~= p0 + p1v);
        assert(c0 =~= music_filters(*keyword, *status).0.take(c0.len() as int));
    }
    (conds, params)
}

/// The music collection query, newest first.
pub fn music_list_query(limit: i64, offset: i64, keyword: &Option<String>, status: &Option<String>) -> (res: Query)
    ensures
        ({
            let (conds, params) = music_filters(*keyword, *status);
            &&& res.sql@ == "SELECT music_id, mid, title, author, owner_nickname, duration, cover, play_url, file_path, status, created_at FROM music_collection"@
                + where_part(conds) + " ORDER BY created_at DESC LIMIT ? OFFSET ?"@
            &&& param_views(res.params@) == params + seq![ParamView::Int(limit), ParamView::Int(offset)]
        }),
{
    let (conds, mut params) = music_filter_parts(keyword, status);
    let mut sql = to_owned_string(
        "SELECT music_id, mid, title, author, owner_nickname, duration, cover, play_url, file_path, status, created_at FROM music_collection",
    );
    sql.append(where_text(&conds).as_str());
    sql.append(" ORDER BY created_at DESC LIMIT ? OFFSET ?");
    let ghost before = param_views(params@);
    params.push(SqlParam::Int(limit));
    params.push(SqlParam::Int(offset));
    proof {
        assert(param_views(params@) =~= before + seq![ParamView::Int(limit), ParamView::Int(offset)]);
    }
    Query { sql, params }
}

/// The music collection count query over the same filters.
pub fn music_count_query(keyword: &Option<String>, status: &Option<String>) -> (res: Query)
    ensures
        ({
            let (conds, params) = music_filters(*keyword, *status);
            &&& res.sql@ == "SELECT COUNT(*) FROM music_collection"@ + where_part(conds)
            &&& param_views(res.params@) == params
        }),
{
    let (conds, params) = music_filter_parts(keyword, status);
    let mut sql = to_owned_string("SELECT COUNT(*) FROM music_collection");
    sql.append(where_text(&conds).as_str());
    Query { sql, params }
}

/// The grouping of the download trend and how many periods it keeps:
/// weeks or months (twelve of them), else days (thirty).
pub open spec fn trend_grouping(range: Seq<char>) -> (Seq<char>, Seq<char>) {
    if range == "week"@ {
        ("strftime('%Y-W%W', created_at, 'unixepoch', 'localtime')"@, "12"@)
    } else if range == "month"@ {
        ("strftime('%Y-%m', created_at, 'unixepoch', 'localtime')"@, "12"@)
    } else {
        ("DATE(created_at, 'unixepoch', 'localtime')"@, "30"@)
    }
}

/// The download trend query for a range: per period, newest first, the
/// number and total size of the completed task items (the table that holds
/// every finished download).
pub fn trend_query(range: &str) -> (res: String)
    ensures
        res@ == "SELECT "@ + trend_grouping(range@).0 + " as period, COUNT(*), COALESCE(SUM(file_size), 0) FROM download_task_items WHERE status = 'completed' GROUP BY "@
            + trend_grouping(range@).0 + " ORDER BY period DESC LIMIT "@ + trend_grouping(range@).1,
{
    let (expr, limit) = if str_eq(range, "week") {
        ("strftime('%Y-W%W', created_at, 'unixepoch', 'localtime')", "12")
    } else if str_eq(range, "month") {
        ("strftime('%Y-%m', created_at, 'unixepoch', 'localtime')", "12")
    } else {
        ("DATE(created_at, 'unixepoch', 'localtime')", "30")
    };
    let mut s = to_owned_string("SELECT ");
    s.append(expr);
    s.append(" as period, COUNT(*), COALESCE(SUM(file_size), 0) FROM download_task_items WHERE status = 'completed' GROUP BY ");
    s.append(expr);
    s.append(" ORDER BY period DESC LIMIT ");
    s.append(limit);
    s
}

} // verus!
