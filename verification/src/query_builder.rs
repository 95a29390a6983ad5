//! SQL text for upserts: `INSERT ... ON CONFLICT(pk) DO UPDATE SET ...`,
//! where each column says how a conflicting row is updated.

use vstd::prelude::*;
use crate::text::{join_spec, join_strings, to_owned_string, u64_text, spec_u64_text};

verus! {

/// How a column is updated on conflict.
#[derive(Debug, Clone, Copy, PartialEq, Eq, Structural)]
pub enum ColKind {
    /// Overwritten.
    Normal,
    /// Overwritten only by a value that is neither NULL nor empty.
    Volatile,
    /// Kept at the larger value (never decreases).
    Stat,
}

/// The `SET` part for one column of `table`.
pub open spec fn set_part(table: Seq<char>, name: Seq<char>, kind: ColKind) -> Seq<char> {
    match kind {
        ColKind::Normal => name + " = excluded."@ + name,
        ColKind::Volatile => name + " = CASE WHEN excluded."@ + name + " IS NOT NULL AND excluded."@ + name
            + " != '' THEN excluded."@ + name + " ELSE "@ + table + "."@ + name + " END"@,
        ColKind::Stat => name + " = CASE WHEN excluded."@ + name + " > "@ + table + "."@ + name + " OR "@
            + table + "."@ + name + " IS NULL THEN excluded."@ + name + " ELSE "@ + table + "."@ + name
            + " END"@,
    }
}

/// The column names.
pub open spec fn col_names(cols: Seq<(&str, ColKind)>) -> Seq<Seq<char>> {
    cols.map_values(|c: (&str, ColKind)| c.0@)
}

/// The placeholders `?1` .. `?n`.
pub open spec fn placeholders(n: nat) -> Seq<Seq<char>> {
    Seq::new(n, |i: int| "?"@ + spec_u64_text((i + 1) as u64))
}

/// The `SET` parts of all columns, in order.
pub open spec fn set_parts(table: Seq<char>, cols: Seq<(&str, ColKind)>) -> Seq<Seq<char>> {
    cols.map_values(|c: (&str, ColKind)| set_part(table, c.0@, c.1))
}

/// The upsert statement for `table` keyed by `pk`.
pub open spec fn upsert_sql(table: Seq<char>, pk: Seq<char>, cols: Seq<(&str, ColKind)>) -> Seq<char> {
    "INSERT INTO "@ + table + " ("@ + join_spec(col_names(cols), ", "@) + ") VALUES ("@ + join_spec(
        placeholders(cols.len()),
        ", "@,
    ) + ") ON CONFLICT("@ + pk + ") DO UPDATE SET "@ + join_spec(set_parts(table, cols), ", "@)
}

fn set_part_text(table: &str, name: &str, kind: ColKind) -> (res: String)
    ensures
        res@ == set_part(table@, name@, kind),
{
    let mut s = to_owned_string(name);
    match kind {
        ColKind::Normal => {
            s.append(" = excluded.");
            s.append(name);
        },
        ColKind::Volatile => {
            s.append(" = CASE WHEN excluded.");
            s.append(name);
            s.append(" IS NOT NULL AND excluded.");
            s.append(name);
            s.append(" != '' THEN excluded.");
            s.append(name);
            s.append(" ELSE ");
            s.append(table);
            s.append(".");
            s.append(name);
            s.append(" END");
        },
        ColKind::Stat => {
            s.append(" = CASE WHEN excluded.");
            s.append(name);
            s.append(" > ");
            s.append(table);
            s.append(".");
            s.append(name);
            s.append(" OR ");
            s.append(table);
            s.append(".");
            s.append(name);
            s.append(" IS NULL THEN excluded.");
            s.append(name);
            s.append(" ELSE ");
            s.append(table);
            s.append(".");
            s.append(name);
            s.append(" END");
        },
    }
    s
}

/// Builds the upsert statement: the columns in order, placeholders `?1`
/// to `?n`, and one `SET` part per column by its kind.
pub fn build_upsert_sql(table: &str, pk: &str, cols: &[(&str, ColKind)]) -> (res: String)
    requires
        cols@.len() < u64::MAX,
    ensures
        res@ == upsert_sql(table@, pk@, cols@),
{
    let mut names: Vec<String> = Vec::new();
    let mut holders: Vec<String> = Vec::new();
    let mut parts: Vec<String> = Vec::new();
    let n = cols.len();
    let mut i: usize = 0;
    while i < n
        invariant
            n == cols@.len(),
            n < u64::MAX,
            i <= n,
            crate::text::views(names@) == col_names(cols@).take(i as int),
            crate::text::views(holders@) == placeholders(cols@.len()).take(i as int),
            crate::text::views(parts@) == set_parts(table@, cols@).take(i as int),
        decreases n - i,
    {
        let (name, kind) = cols[i];
        let ghost nb = crate::text::views(names@);
        let ghost hb = crate::text::views(holders@);
        let ghost pb = crate::text::views(parts@);
        names.push(to_owned_string(name));
        let mut h = to_owned_string("?");
        h.append(u64_text(i as u64 + 1).as_str());
        holders.push(h);
        parts.push(set_part_text(table, name, kind));
        proof {
            assert(crate::text::views(names@) =~= nb.push(name@));
            assert(crate::text::views(holders@) =~= hb.push("?"@ + spec_u64_text((i + 1) as u64)));
            assert(crate::text::views(parts@) =~= pb.push(set_part(table@, name@, kind)));
            assert(col_names(cols@).take(i + 1) =~= col_names(cols@).take(i as int).push(name@));
            assert(placeholders(cols@.len()).take(i + 1) =~= placeholders(cols@.len()).take(i as int).push(
                "?"@ + spec_u64_text((i + 1) as u64),
            ));
            assert(set_parts(table@, cols@).take(i + 1) =~= set_parts(table@, cols@).take(i as int).push(
                set_part(table@, name@, kind),
            ));
        }
        i = i + 1;
    }
    proof {
        assert(col_names(cols@).take(n as int) =~= col_names(cols@));
        assert(placeholders(cols@.len()).take(n as int) =~= placeholders(cols@.len()));
        assert(set_parts(table@, cols@).take(n as int) =~= set_parts(table@, cols@));
    }
    let mut s = to_owned_string("INSERT INTO ");
    s.append(table);
    s.append(" (");
    s.append(join_strings(&names, ", ").as_str());
    s.append(") VALUES (");
    s.append(join_strings(&holders, ", ").as_str());
    s.append(") ON CONFLICT(");
    s.append(pk);
    s.append(") DO UPDATE SET ");
    s.append(join_strings(&parts, ", ").as_str());
    s
}

/// The columns of `video_info`, in statement order, with their update
/// kinds: links and media addresses are volatile, counters are stats.
pub open spec fn video_columns() -> Seq<(&'static str, ColKind)> {
    seq![
        ("aweme_id", ColKind::Normal),
        ("desc", ColKind::Normal),
        ("aweme_type", ColKind::Normal),
        ("author_nickname", ColKind::Normal),
        ("author_sec_uid", ColKind::Normal),
        ("author_uid", ColKind::Normal),
        ("create_time", ColKind::Normal),
        ("duration", ColKind::Normal),
        ("video_url", ColKind::Volatile),
        ("cover_url", ColKind::Volatile),
        ("music_title", ColKind::Normal),
        ("digg_count", ColKind::Stat),
        ("comment_count", ColKind::Stat),
        ("share_count", ColKind::Stat),
        ("collect_count", ColKind::Stat),
        ("mix_id", ColKind::Normal),
        ("mix_name", ColKind::Normal),
        ("updated_at", ColKind::Normal),
        ("author_nickname_raw", ColKind::Normal),
        ("author_short_id", ColKind::Normal),
        ("author_unique_id", ColKind::Normal),
        ("desc_raw", ColKind::Normal),
        ("is_ads", ColKind::Normal),
        ("is_story", ColKind::Normal),
        ("is_top", ColKind::Normal),
        ("is_long_video", ColKind::Normal),
        ("video_bit_rate", ColKind::Volatile),
        ("animated_cover", ColKind::Volatile),
        ("private_status", ColKind::Normal),
        ("is_delete", ColKind::Normal),
        ("music_author", ColKind::Normal),
        ("music_author_raw", ColKind::Normal),
        ("music_duration", ColKind::Normal),
        ("music_id", ColKind::Normal),
        ("music_mid", ColKind::Normal),
        ("pgc_author", ColKind::Normal),
        ("pgc_author_title", ColKind::Normal),
        ("pgc_music_type", ColKind::Normal),
        ("music_status", ColKind::Normal),
        ("music_owner_handle", ColKind::Normal),
        ("music_owner_id", ColKind::Normal),
        ("music_owner_nickname", ColKind::Normal),
        ("music_play_url", ColKind::Volatile),
        ("is_commerce_music", ColKind::Normal),
        ("mix_desc", ColKind::Normal),
        ("mix_create_time", ColKind::Normal),
        ("mix_pic_type", ColKind::Normal),
        ("mix_type", ColKind::Normal),
        ("mix_share_url", ColKind::Normal),
        ("can_comment", ColKind::Normal),
        ("can_forward", ColKind::Normal),
        ("can_share", ColKind::Normal),
        ("download_setting", ColKind::Normal),
        ("allow_douplus", ColKind::Normal),
        ("allow_share", ColKind::Normal),
        ("admire_count", ColKind::Stat),
        ("hashtag_ids", ColKind::Normal),
        ("hashtag_names", ColKind::Normal),
        ("images", ColKind::Volatile),
        ("region", ColKind::Normal),
        ("is_prohibited", ColKind::Normal),
    ]
}

/// The columns of `user_info`, in statement order, with their update
/// kinds: counters are stats.
pub open spec fn user_columns() -> Seq<(&'static str, ColKind)> {
    seq![
        ("sec_user_id", ColKind::Normal),
        ("nickname", ColKind::Normal),
        ("uid", ColKind::Normal),
        ("avatar_url", ColKind::Normal),
        ("unique_id", ColKind::Normal),
        ("signature", ColKind::Normal),
        ("aweme_count", ColKind::Stat),
        ("follower_count", ColKind::Stat),
        ("following_count", ColKind::Stat),
        ("total_favorited", ColKind::Stat),
        ("ip_location", ColKind::Normal),
        ("live_status", ColKind::Normal),
        ("room_id", ColKind::Normal),
        ("updated_at", ColKind::Normal),
        ("city", ColKind::Normal),
        ("country", ColKind::Normal),
        ("favoriting_count", ColKind::Stat),
        ("gender", ColKind::Normal),
        ("is_ban", ColKind::Normal),
        ("is_block", ColKind::Normal),
        ("is_blocked", ColKind::Normal),
        ("is_star", ColKind::Normal),
        ("mix_count", ColKind::Stat),
        ("mplatform_followers_count", ColKind::Stat),
        ("nickname_raw", ColKind::Normal),
        ("school_name", ColKind::Normal),
        ("short_id", ColKind::Normal),
        ("signature_raw", ColKind::Normal),
        ("user_age", ColKind::Normal),
        ("custom_verify", ColKind::Normal),
    ]
}

/// The statement that saves a work's metadata, keyed by `aweme_id`.
pub fn video_upsert_sql() -> (res: String)
    ensures
        res@ == upsert_sql("video_info"@, "aweme_id"@, video_columns()),
{
    let cols: [(&str, ColKind); 61] = [
        ("aweme_id", ColKind::Normal),
        ("desc", ColKind::Normal),
        ("aweme_type", ColKind::Normal),
        ("author_nickname", ColKind::Normal),
        ("author_sec_uid", ColKind::Normal),
        ("author_uid", ColKind::Normal),
        ("create_time", ColKind::Normal),
        ("duration", ColKind::Normal),
        ("video_url", ColKind::Volatile),
        ("cover_url", ColKind::Volatile),
        ("music_title", ColKind::Normal),
        ("digg_count", ColKind::Stat),
        ("comment_count", ColKind::Stat),
        ("share_count", ColKind::Stat),
        ("collect_count", ColKind::Stat),
        ("mix_id", ColKind::Normal),
        ("mix_name", ColKind::Normal),
        ("updated_at", ColKind::Normal),
        ("author_nickname_raw", ColKind::Normal),
        ("author_short_id", ColKind::Normal),
        ("author_unique_id", ColKind::Normal),
        ("desc_raw", ColKind::Normal),
        ("is_ads", ColKind::Normal),
        ("is_story", ColKind::Normal),
        ("is_top", ColKind::Normal),
        ("is_long_video", ColKind::Normal),
        ("video_bit_rate", ColKind::Volatile),
        ("animated_cover", ColKind::Volatile),
        ("private_status", ColKind::Normal),
        ("is_delete", ColKind::Normal),
        ("music_author", ColKind::Normal),
        ("music_author_raw", ColKind::Normal),
        ("music_duration", ColKind::Normal),
        ("music_id", ColKind::Normal),
        ("music_mid", ColKind::Normal),
        ("pgc_author", ColKind::Normal),
        ("pgc_author_title", ColKind::Normal),
        ("pgc_music_type", ColKind::Normal),
        ("music_status", ColKind::Normal),
        ("music_owner_handle", ColKind::Normal),
        ("music_owner_id", ColKind::Normal),
        ("music_owner_nickname", ColKind::Normal),
        ("music_play_url", ColKind::Volatile),
        ("is_commerce_music", ColKind::Normal),
        ("mix_desc", ColKind::Normal),
        ("mix_create_time", ColKind::Normal),
        ("mix_pic_type", ColKind::Normal),
        ("mix_type", ColKind::Normal),
        ("mix_share_url", ColKind::Normal),
        ("can_comment", ColKind::Normal),
        ("can_forward", ColKind::Normal),
        ("can_share", ColKind::Normal),
        ("download_setting", ColKind::Normal),
        ("allow_douplus", ColKind::Normal),
        ("allow_share", ColKind::Normal),
        ("admire_count", ColKind::Stat),
        ("hashtag_ids", ColKind::Normal),
        ("hashtag_names", ColKind::Normal),
        ("images", ColKind::Volatile),
        ("region", ColKind::Normal),
        ("is_prohibited", ColKind::Normal),
    ];
    proof {
        assert(cols@ =~= video_columns());
    }
    build_upsert_sql("video_info", "aweme_id", &cols)
}

/// The statement that saves a user's metadata, keyed by `sec_user_id`.
pub fn user_upsert_sql() -> (res: String)
    ensures
        res@ == upsert_sql("user_info"@, "sec_user_id"@, user_columns()),
{
    let cols: [(&str, ColKind); 30] = [
        ("sec_user_id", ColKind::Normal),
        ("nickname", ColKind::Normal),
        ("uid", ColKind::Normal),
        ("avatar_url", ColKind::Normal),
        ("unique_id", ColKind::Normal),
        ("signature", ColKind::Normal),
        ("aweme_count", ColKind::Stat),
        ("follower_count", ColKind::Stat),
        ("following_count", ColKind::Stat),
        ("total_favorited", ColKind::Stat),
        ("ip_location", ColKind::Normal),
        ("live_status", ColKind::Normal),
        ("room_id", ColKind::Normal),
        ("updated_at", ColKind::Normal),
        ("city", ColKind::Normal),
        ("country", ColKind::Normal),
        ("favoriting_count", ColKind::Stat),
        ("gender", ColKind::Normal),
        ("is_ban", ColKind::Normal),
        ("is_block", ColKind::Normal),
        ("is_blocked", ColKind::Normal),
        ("is_star", ColKind::Normal),
        ("mix_count", ColKind::Stat),
        ("mplatform_followers_count", ColKind::Stat),
        ("nickname_raw", ColKind::Normal),
        ("school_name", ColKind::Normal),
        ("short_id", ColKind::Normal),
        ("signature_raw", ColKind::Normal),
        ("user_age", ColKind::Normal),
        ("custom_verify", ColKind::Normal),
    ];
    proof {
        assert(cols@ =~= user_columns());
    }
    build_upsert_sql("user_info", "sec_user_id", &cols)
}

} // verus!
