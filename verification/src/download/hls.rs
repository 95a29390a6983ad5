//! HLS playlist text: splitting into trimmed lines and reading a master or
//! media playlist out of them. Segment durations stay as the text written
//! after `#EXTINF:`; whether each such text is a number is decided by the
//! caller and handed in.

use vstd::prelude::*;
use crate::text::{split_trimmed_lines, starts_with, str_eq, to_owned_string, trimmed_lines, views};
use crate::download::live::{join_url, spec_join_url, RecorderError};

verus! {

/// Whether `l` begins with `p`.
pub open spec fn has_prefix(l: Seq<char>, p: Seq<char>) -> bool {
    p.len() <= l.len() && l.subrange(0, p.len() as int) == p
}

/// Whether a line names a URI: not empty and not a tag or comment.
pub open spec fn is_uri_line(l: Seq<char>) -> bool {
    l.len() > 0 && l[0] != '#'
}

/// Index of the first line from `j` on that opens a variant stream.
pub open spec fn first_stream_inf(lines: Seq<Seq<char>>, j: int) -> Option<int>
    decreases lines.len() - j,
{
    if j < 0 || j >= lines.len() {
        None
    } else if has_prefix(lines[j], "#EXT-X-STREAM-INF"@) {
        Some(j)
    } else {
        first_stream_inf(lines, j + 1)
    }
}

/// Index of the first URI line from `j` on.
pub open spec fn find_uri(lines: Seq<Seq<char>>, j: int) -> Option<int>
    decreases lines.len() - j,
{
    if j < 0 || j >= lines.len() {
        None
    } else if is_uri_line(lines[j]) {
        Some(j)
    } else {
        find_uri(lines, j + 1)
    }
}

/// Position of the first `c` in `v` from `j` on, or the length of `v`.
pub open spec fn first_pos(v: Seq<char>, c: char, j: int) -> int
    decreases v.len() - j,
{
    if j < 0 || j >= v.len() {
        v.len() as int
    } else if v[j] == c {
        j
    } else {
        first_pos(v, c, j + 1)
    }
}

/// The duration text of an `#EXTINF:` line: what follows the tag, up to the
/// first comma.
pub open spec fn extinf_text(line: Seq<char>) -> Seq<char> {
    let v = line.skip(8);
    v.take(first_pos(v, ',', 0))
}

/// The error handed in for the `k`-th `#EXTINF:` line, if any.
pub open spec fn extinf_error(errors: Seq<Option<Seq<char>>>, k: int) -> Option<Seq<char>> {
    if 0 <= k < errors.len() {
        errors[k]
    } else {
        None
    }
}

/// A playlist as read: the URL of a nested playlist, or the segments (URL
/// and duration text) with whether the list has ended.
pub enum PlaylistView {
    Master(Seq<char>),
    Media(Seq<(Seq<char>, Seq<char>)>, bool),
}

/// Reads the media lines from `i` on, given the segments so far, the
/// pending duration and the count of `#EXTINF:` lines seen; `Err` carries
/// the detail of the first problem.
pub open spec fn media_from(
    base: Seq<char>,
    lines: Seq<Seq<char>>,
    errors: Seq<Option<Seq<char>>>,
    ended: bool,
    i: int,
    segs: Seq<(Seq<char>, Seq<char>)>,
    pending: Option<Seq<char>>,
    k: int,
) -> Result<PlaylistView, Seq<char>>
    decreases lines.len() - i,
{
    if i < 0 || i >= lines.len() {
        if pending is Some {
            Err("#EXTINF 后缺少分片地址"@)
        } else {
            Ok(PlaylistView::Media(segs, ended))
        }
    } else {
        let l = lines[i];
        if has_prefix(l, "#EXTINF:"@) {
            match extinf_error(errors, k) {
                Some(e) => Err(e),
                None => media_from(base, lines, errors, ended, i + 1, segs, Some(extinf_text(l)), k + 1),
            }
        } else if !is_uri_line(l) {
            media_from(base, lines, errors, ended, i + 1, segs, pending, k)
        } else {
            match pending {
                None => Err("分片地址前缺少 #EXTINF"@),
                Some(d) => match spec_join_url(base, l) {
                    Err(e) => Err(e),
                    Ok(u) => media_from(base, lines, errors, ended, i + 1, segs.push((u, d)), None, k),
                },
            }
        }
    }
}

/// What a playlist text reads as, against the URL it was fetched from and
/// the errors of its `#EXTINF:` durations in order: a master playlist
/// resolves its first variant's URI, a media playlist lists its segments.
pub open spec fn playlist_spec(
    base: Seq<char>,
    content: Seq<char>,
    errors: Seq<Option<Seq<char>>>,
) -> Result<PlaylistView, Seq<char>> {
    let lines = trimmed_lines(content);
    if !lines.contains("#EXTM3U"@) {
        Err("缺少 #EXTM3U 标记"@)
    } else {
        match first_stream_inf(lines, 0) {
            Some(i) => match find_uri(lines, i + 1) {
                None => Err("主播放列表缺少子播放列表地址"@),
                Some(j) => match spec_join_url(base, lines[j]) {
                    Ok(u) => Ok(PlaylistView::Master(u)),
                    Err(e) => Err(e),
                },
            },
            None => media_from(
                base,
                lines,
                errors,
                lines.contains("#EXT-X-ENDLIST"@),
                0,
                Seq::empty(),
                None,
                0,
            ),
        }
    }
}

/// The duration texts of the `#EXTINF:` lines from `i` on, in order.
pub open spec fn extinf_texts_from(lines: Seq<Seq<char>>, i: int) -> Seq<Seq<char>>
    decreases lines.len() - i,
{
    if i < 0 || i >= lines.len() {
        Seq::empty()
    } else if has_prefix(lines[i], "#EXTINF:"@) {
        seq![extinf_text(lines[i])] + extinf_texts_from(lines, i + 1)
    } else {
        extinf_texts_from(lines, i + 1)
    }
}

/// A segment of a media playlist.
#[derive(Debug, Clone)]
pub struct LiveSegment {
    pub url: String,
    pub duration_text: String,
}

/// A parsed playlist.
#[derive(Debug, Clone)]
pub enum Playlist {
    Master(String),
    Media { segments: Vec<LiveSegment>, ended: bool },
}

/// The segments seen as (URL, duration text) pairs.
pub open spec fn segment_views(s: Seq<LiveSegment>) -> Seq<(Seq<char>, Seq<char>)> {
    s.map_values(|x: LiveSegment| (x.url@, x.duration_text@))
}

/// The playlist seen as a [`PlaylistView`].
pub open spec fn playlist_view(p: Playlist) -> PlaylistView {
    match p {
        Playlist::Master(u) => PlaylistView::Master(u@),
        Playlist::Media { segments, ended } => PlaylistView::Media(segment_views(segments@), ended),
    }
}

/// The errors handed in, seen as character sequences.
pub open spec fn error_views(e: Seq<Option<String>>) -> Seq<Option<Seq<char>>> {
    e.map_values(
        |x: Option<String>|
            match x {
                Some(s) => Some(s@),
                None => None,
            },
    )
}

/// Whether some line of `lines` equals `target`.
fn has_line(lines: &Vec<String>, target: &str) -> (res: bool)
    ensures
        res == views(lines@).contains(target@),
{
    let mut i: usize = 0;
    while i < lines.len()
        invariant
            i <= lines@.len(),
            forall|k: int| 0 <= k < i ==> views(lines@)[k] != target@,
        decreases lines@.len() - i,
    {
        if str_eq(lines[i].as_str(), target) {
            assert(views(lines@)[i as int] == target@);
            return true;
        }
        i = i + 1;
    }
    false
}

/// Whether a line is a URI line.
fn uri_line(l: &str) -> (res: bool)
    ensures
        res == is_uri_line(l@),
{
    let n = l.unicode_len();
    n > 0 && l.get_char(0) != '#'
}

/// The duration text of an `#EXTINF:` line.
fn duration_text(line: &str) -> (res: String)
    requires
        has_prefix(line@, "#EXTINF:"@),
    ensures
        res@ == extinf_text(line@),
{
    let n = line.unicode_len();
    proof {
        reveal_strlit("#EXTINF:");
    }
    let v = line.substring_char(8, n);
    let m = v.unicode_len();
    let mut j: usize = 0;
    while j < m && v.get_char(j) != ','
        invariant
            m == v@.len(),
            j <= m,
            first_pos(v@, ',', 0) == first_pos(v@, ',', j as int),
        decreases m - j,
    {
        j = j + 1;
    }
    proof {
        assert(v@ =~= line@.skip(8));
        assert(first_pos(v@, ',', j as int) == j);
        assert(v@.subrange(0, j as int) =~= v@.take(j as int));
    }
    to_owned_string(v.substring_char(0, j))
}

/// The duration texts of a playlist's `#EXTINF:` lines, in order; the
/// caller decides which of them are numbers and hands the errors to
/// [`parse_playlist`].
pub fn extinf_texts(content: &str) -> (res: Vec<String>)
    ensures
        views(res@) == extinf_texts_from(trimmed_lines(content@), 0),
{
    let lines = split_trimmed_lines(content);
    let ghost lv = views(lines@);
    let mut out: Vec<String> = Vec::new();
    let mut i: usize = lines.len();
    proof {
        assert(views(out@) =~= extinf_texts_from(lv, i as int));
    }
    while i > 0
        invariant
            lv == views(lines@),
            lv == trimmed_lines(content@),
            i <= lines@.len(),
            views(out@) == extinf_texts_from(lv, i as int),
        decreases i,
    {
        i = i - 1;
        let l = lines[i].as_str();
        if starts_with(l, "#EXTINF:") {
            let t = duration_text(l);
            let ghost before = out@;
            out.insert(0, t);
            proof {
                assert(views(out@) =~= seq![extinf_text(lv[i as int])] + views(before));
            }
        }
    }
    out
}

/// Reads a playlist fetched from `base_url`. `extinf_errors[k]` is the
/// error text for the duration of the `k`-th `#EXTINF:` line when it is not
/// a number (missing entries count as numbers). Every error is an
/// [`RecorderError::InvalidPlaylist`].
pub fn parse_playlist(base_url: &str, content: &str, extinf_errors: &Vec<Option<String>>) -> (res: Result<
    Playlist,
    RecorderError,
>)
    ensures
        match res {
            Ok(p) => playlist_spec(base_url@, content@, error_views(extinf_errors@)) == Ok::<
                PlaylistView,
                Seq<char>,
            >(playlist_view(p)),
            Err(e) => e matches RecorderError::InvalidPlaylist(d) && playlist_spec(
                base_url@,
                content@,
                error_views(extinf_errors@),
            ) == Err::<PlaylistView, Seq<char>>(d@),
        },
{
    let lines = split_trimmed_lines(content);
    let ghost lv = views(lines@);
    let ghost ev = error_views(extinf_errors@);
    if !has_line(&lines, "#EXTM3U") {
        return Err(RecorderError::InvalidPlaylist(to_owned_string("缺少 #EXTM3U 标记")));
    }
    let mut i: usize = 0;
    while i < lines.len()
        invariant
            lv == views(lines@),
            lv == trimmed_lines(content@),
            lv.contains("#EXTM3U"@),
            i <= lines@.len(),
            first_stream_inf(lv, 0) == first_stream_inf(lv, i as int),
        decreases lines@.len() - i,
    {
        if starts_with(lines[i].as_str(), "#EXT-X-STREAM-INF") {
            proof {
                assert(lv[i as int] == lines@[i as int]@);
                assert(first_stream_inf(lv, i as int) == Some(i as int));
            }
            let mut j: usize = i + 1;
            while j < lines.len() && !uri_line(lines[j].as_str())
                invariant
                    lv == views(lines@),
                    i < j <= lines@.len(),
                    find_uri(lv, i + 1) == find_uri(lv, j as int),
                decreases lines@.len() - j,
            {
                proof {
                    assert(lv[j as int] == lines@[j as int]@);
                }
                j = j + 1;
            }
            proof {
                if j < lines.len() {
                    assert(lv[j as int] == lines@[j as int]@);
                    assert(find_uri(lv, j as int) == Some(j as int));
                }
            }
            if j >= lines.len() {
                return Err(
                    RecorderError::InvalidPlaylist(to_owned_string("主播放列表缺少子播放列表地址")),
                );
            }
            return match join_url(base_url, lines[j].as_str()) {
                Ok(u) => Ok(Playlist::Master(u)),
                Err(e) => Err(RecorderError::InvalidPlaylist(e)),
            };
        }
        i = i + 1;
    }
    let ended = has_line(&lines, "#EXT-X-ENDLIST");
    let mut segments: Vec<LiveSegment> = Vec::new();
    let mut pending: Option<String> = None;
    let mut k: usize = 0;
    let mut i: usize = 0;
    proof {
        assert(segment_views(segments@) =~= Seq::<(Seq<char>, Seq<char>)>::empty());
    }
    while i < lines.len()
        invariant
            lv == views(lines@),
            ev == error_views(extinf_errors@),
            i <= lines@.len(),
            k <= i,
            playlist_spec(base_url@, content@, ev) == media_from(
                base_url@,
                lv,
                ev,
                ended,
                i as int,
                segment_views(segments@),
                match pending {
                    Some(p) => Some(p@),
                    None => None,
                },
                k as int,
            ),
        decreases lines@.len() - i,
    {
        let l = lines[i].as_str();
        if starts_with(l, "#EXTINF:") {
            if k < extinf_errors.len() {
                match &extinf_errors[k] {
                    Some(e) => {
                        return Err(RecorderError::InvalidPlaylist(e.clone()));
                    },
                    None => {},
                }
            }
            pending = Some(duration_text(l));
            k = k + 1;
        } else if uri_line(l) {
            let d = match pending {
                Some(d) => d,
                None => {
                    return Err(RecorderError::InvalidPlaylist(to_owned_string("分片地址前缺少 #EXTINF")));
                },
            };
            let u = match join_url(base_url, l) {
                Ok(u) => u,
                Err(e) => {
                    return Err(RecorderError::InvalidPlaylist(e));
                },
            };
            let ghost before = segments@;
            segments.push(LiveSegment { url: u, duration_text: d });
            proof {
                assert(segment_views(segments@) =~= segment_views(before).push((u@, d@)));
            }
            pending = None;
        }
        i = i + 1;
    }
    if pending.is_some() {
        return Err(RecorderError::InvalidPlaylist(to_owned_string("#EXTINF 后缺少分片地址")));
    }
    Ok(Playlist::Media { segments, ended })
}

} // verus!
