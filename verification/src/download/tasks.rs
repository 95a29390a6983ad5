//! Decisions of the download task service: the download items built from a
//! resolver's answer, the task rows written for each outcome, which
//! accessories are fetched, when progress is reported, how a task's final
//! status is settled, and how a run's counts turn into its result. The
//! resolver calls, downloads, database writes and event sending happen in
//! the caller between these steps.

use vstd::prelude::*;
use crate::text::{
    i64_text, is_blank, spec_i64_text, spec_trim, str_eq, to_owned_string, trim_owned, views,
};
use crate::config::AppConfig;
use crate::models::{NewDownloadTask, NewLiveRecord, NewTaskItem, TaskItemCounts};
use crate::download::contract::{
    media_index_spec, violation_message, MediaDownloadItemV1, MediaKindV1, SingleAccessory,
    SingleAccessoryKind,
};
use crate::download::engine::{url_list, DownloadItem, DownloadUrl};
use crate::download::live::{
    outcome_output, path_join, saturating_diff, spec_path_join, LiveOutputFacts, LivePlanV1, LiveRecorderOutcome,
};
use crate::download::types::{
    mode_name, patch_is_blank, DownloadMode, ResolvedAccessory, TaskEvent, TaskEventType, TaskPatch,
};
use crate::download::paging::{add_sat, sat_add_i64};

verus! {

/// The optional text seen as a character sequence.
pub open spec fn opt_text(o: Option<String>) -> Option<Seq<char>> {
    match o {
        Some(s) => Some(s@),
        None => None,
    }
}

/// A copy of an optional text.
pub fn copy_opt(o: &Option<String>) -> (res: Option<String>)
    ensures
        opt_text(res) == opt_text(*o),
{
    match o {
        Some(s) => Some(s.clone()),
        None => None,
    }
}

/// The trimmed text, or `None` when it is blank.
pub open spec fn nonempty_spec(s: Seq<char>) -> Option<Seq<char>> {
    if spec_trim(s).len() == 0 {
        None
    } else {
        Some(spec_trim(s))
    }
}

/// The trimmed text, or `None` when nothing is left.
pub fn nonempty_string(value: &str) -> (res: Option<String>)
    ensures
        opt_text(res) == nonempty_spec(value@),
{
    let t = trim_owned(value);
    if t.as_str().unicode_len() == 0 {
        None
    } else {
        Some(t)
    }
}

/// Number of leading `c` in `s` from position `j` on.
pub open spec fn leading_count(s: Seq<char>, c: char, j: int) -> int
    decreases s.len() - j,
{
    if j < 0 || j >= s.len() || s[j] != c {
        0
    } else {
        1 + leading_count(s, c, j + 1)
    }
}

/// `s` without its leading dots.
pub open spec fn strip_dots(s: Seq<char>) -> Seq<char> {
    s.skip(leading_count(s, '.', 0))
}

proof fn lemma_leading_count_bounds(s: Seq<char>, c: char, j: int)
    requires
        0 <= j <= s.len(),
    ensures
        0 <= leading_count(s, c, j) <= s.len() - j,
    decreases s.len() - j,
{
    if j < s.len() && s[j] == c {
        lemma_leading_count_bounds(s, c, j + 1);
    }
}

/// `s` without its leading dots (as `trim_start_matches('.')`).
pub fn trim_leading_dots(s: &str) -> (res: &str)
    ensures
        res@ == strip_dots(s@),
{
    let n = s.unicode_len();
    let mut i: usize = 0;
    while i < n && s.get_char(i) == '.'
        invariant
            n == s@.len(),
            i <= n,
            leading_count(s@, '.', 0) == i + leading_count(s@, '.', i as int),
        decreases n - i,
    {
        i = i + 1;
    }
    proof {
        assert(leading_count(s@, '.', i as int) == 0);
    }
    let r = s.substring_char(i, n);
    proof {
        assert(r@ =~= s@.skip(i as int));
    }
    r
}

/// Name for what `std::path::Path::with_extension` gives (as text) for a
/// path and an extension.
pub uninterp spec fn spec_with_extension(path: Seq<char>, ext: Seq<char>) -> Seq<char>;

/// Whether a text holds no path separator: neither `/` nor `\` (the
/// latter is one on Windows).
pub open spec fn no_separator(s: Seq<char>) -> bool {
    forall|i: int| 0 <= i < s.len() ==> s[i] != '/' && s[i] != '\\'
}

/// Calls `std::path::Path::with_extension` and returns the path as text.
/// Claimed of it: the result is the named replacement of the extension.
/// The extension may hold no path separator: `with_extension` panics on
/// one.
#[verifier::external_body]
pub(crate) fn with_extension(path: &str, ext: &str) -> (res: String)
    requires
        no_separator(ext@),
    ensures
        res@ == spec_with_extension(path@, ext@),
{
    std::path::Path::new(path).with_extension(ext).to_string_lossy().to_string()
}

/// The directory of an item: the save directory, joined with the folder
/// name when there is one.
pub open spec fn item_dir(save_dir: Seq<char>, folder: Option<Seq<char>>) -> Seq<char> {
    match folder {
        Some(f) => spec_path_join(save_dir, f),
        None => save_dir,
    }
}

/// The output file of `filename + suffix` in `dir`.
pub open spec fn output_path(dir: Seq<char>, filename: Seq<char>, suffix: Seq<char>) -> Seq<char> {
    spec_path_join(dir, filename + suffix)
}

/// The partial file beside an output: its extension becomes the suffix
/// without leading dots, followed by `.tmp`.
pub open spec fn temp_path(save: Seq<char>, suffix: Seq<char>) -> Seq<char> {
    spec_with_extension(save, strip_dots(suffix) + ".tmp"@)
}

/// The output file of `filename + suffix` in `dir`, as text.
fn output_in(dir: &str, filename: &str, suffix: &str) -> (res: String)
    ensures
        res@ == output_path(dir@, filename@, suffix@),
{
    let mut name = to_owned_string(filename);
    name.append(suffix);
    path_join(dir, name.as_str())
}

/// The extension of a partial file holds no separator when the suffix
/// holds none: dropping leading dots and adding `.tmp` adds none.
proof fn lemma_temp_extension(suffix: Seq<char>)
    requires
        no_separator(suffix),
    ensures
        no_separator(strip_dots(suffix) + ".tmp"@),
{
    lemma_leading_count_bounds(suffix, '.', 0);
    let k = leading_count(suffix, '.', 0);
    let e = strip_dots(suffix) + ".tmp"@;
    reveal_strlit(".tmp");
    assert forall|i: int| 0 <= i < e.len() implies e[i] != '/' && e[i] != '\\' by {
        if i < suffix.len() - k {
            assert(e[i] == suffix[k + i]);
        } else {
            assert(e[i] == ".tmp"@[i - (suffix.len() - k)]);
        }
    }
}

/// The partial file beside an output whose suffix holds no separator.
fn temp_beside(save: &str, suffix: &str) -> (res: String)
    requires
        no_separator(suffix@),
    ensures
        res@ == temp_path(save@, suffix@),
{
    let mut ext = to_owned_string(trim_leading_dots(suffix));
    ext.append(".tmp");
    proof {
        lemma_temp_extension(suffix@);
    }
    with_extension(save, ext.as_str())
}

/// The directory of an item as text.
fn dir_of(save_dir: &str, folder: &Option<String>) -> (res: String)
    ensures
        res@ == item_dir(save_dir@, opt_text(*folder)),
{
    match folder {
        Some(f) => path_join(save_dir, f.as_str()),
        None => to_owned_string(save_dir),
    }
}

/// The header pairs seen as character sequences.
pub open spec fn header_list(h: Seq<(String, String)>) -> Seq<(Seq<char>, Seq<char>)> {
    h.map_values(|p: (String, String)| (p.0@, p.1@))
}

/// A copy of header pairs.
pub fn copy_headers(h: &Vec<(String, String)>) -> (res: Vec<(String, String)>)
    ensures
        header_list(res@) == header_list(h@),
{
    let mut out: Vec<(String, String)> = Vec::new();
    let mut i: usize = 0;
    while i < h.len()
        invariant
            i <= h@.len(),
            header_list(out@) == header_list(h@).take(i as int),
        decreases h@.len() - i,
    {
        let ghost before = header_list(out@);
        out.push((h[i].0.clone(), h[i].1.clone()));
        proof {
            assert(header_list(out@) =~= before.push((h@[i as int].0@, h@[i as int].1@)));
            assert(header_list(h@).take(i + 1) =~= header_list(h@).take(i as int).push(
                (h@[i as int].0@, h@[i as int].1@),
            ));
        }
        i = i + 1;
    }
    proof {
        assert(header_list(h@).take(h@.len() as int) =~= header_list(h@));
    }
    out
}

/// A copy of a list of strings.
pub fn copy_strings(v: &Vec<String>) -> (res: Vec<String>)
    ensures
        views(res@) == views(v@),
{
    let mut out: Vec<String> = Vec::new();
    let mut i: usize = 0;
    while i < v.len()
        invariant
            i <= v@.len(),
            views(out@) == views(v@).take(i as int),
        decreases v@.len() - i,
    {
        let ghost before = views(out@);
        out.push(v[i].clone());
        proof {
            assert(views(out@) =~= before.push(v@[i as int]@));
            assert(views(v@).take(i + 1) =~= views(v@).take(i as int).push(v@[i as int]@));
        }
        i = i + 1;
    }
    proof {
        assert(views(v@).take(v@.len() as int) =~= views(v@));
    }
    out
}

/// The download item of a typed media item: its file in the item's folder
/// under the save directory, the partial file beside it, one URL as a
/// single URL and any other number as a list, its headers, no known size.
/// The suffix holds no path separator (the partial file's extension is made
/// from it, and `Path::with_extension` panics on one).
pub fn build_single_download_item(item: &MediaDownloadItemV1, save_dir: &str, task_id: &str) -> (res: DownloadItem)
    requires
        no_separator(item.output.suffix@),
    ensures
        res.save_path@ == output_path(
            item_dir(save_dir@, opt_text(item.output.folder_name)),
            item.output.filename@,
            item.output.suffix@,
        ),
        res.temp_path@ == temp_path(res.save_path@, item.output.suffix@),
        url_list(res.url) == views(item.urls@),
        (res.url is Single) == (item.urls@.len() == 1),
        header_list(res.headers@) == header_list(item.headers@),
        res.task_id@ == task_id@,
        res.file_size is None,
{
    let dir = dir_of(save_dir, &item.output.folder_name);
    let save = output_in(dir.as_str(), item.output.filename.as_str(), item.output.suffix.as_str());
    let temp = temp_beside(save.as_str(), item.output.suffix.as_str());
    let url = if item.urls.len() == 1 {
        proof {
            assert(views(item.urls@) =~= seq![item.urls@[0]@]);
        }
        DownloadUrl::Single(item.urls[0].clone())
    } else {
        DownloadUrl::Multiple(copy_strings(&item.urls))
    };
    DownloadItem {
        url,
        save_path: save,
        temp_path: temp,
        headers: copy_headers(&item.headers),
        task_id: to_owned_string(task_id),
        file_size: None,
    }
}

/// The `download_url` of a legacy resolved item: a text, a list whose
/// entries may or may not be texts, or something else.
#[derive(Debug, Clone)]
pub enum UrlValue {
    Text(String),
    List(Vec<Option<String>>),
    Other,
}

/// The texts among the entries of a list, in order.
pub open spec fn text_entries(v: Seq<Option<String>>) -> Seq<Seq<char>>
    decreases v.len(),
{
    if v.len() == 0 {
        Seq::empty()
    } else {
        let rest = text_entries(v.drop_last());
        match v.last() {
            Some(s) => rest.push(s@),
            None => rest,
        }
    }
}

/// The URLs a legacy item downloads from: a text is one URL; of a list,
/// the texts, where none gives one empty URL and one gives a single URL;
/// anything else one empty URL.
pub open spec fn legacy_urls(v: UrlValue) -> (bool, Seq<Seq<char>>) {
    match v {
        UrlValue::Text(s) => (true, seq![s@]),
        UrlValue::List(l) => {
            let t = text_entries(l@);
            if t.len() == 0 {
                (true, seq![Seq::empty()])
            } else if t.len() == 1 {
                (true, t)
            } else {
                (false, t)
            }
        },
        UrlValue::Other => (true, seq![Seq::empty()]),
    }
}

/// The download URL of a legacy item.
pub fn build_download_url(v: &UrlValue) -> (res: DownloadUrl)
    ensures
        (res is Single, url_list(res)) == legacy_urls(*v),
{
    match v {
        UrlValue::Text(s) => DownloadUrl::Single(s.clone()),
        UrlValue::List(l) => {
            let mut urls: Vec<String> = Vec::new();
            let mut i: usize = 0;
            while i < l.len()
                invariant
                    i <= l@.len(),
                    views(urls@) == text_entries(l@.take(i as int)),
                decreases l@.len() - i,
            {
                proof {
                    assert(l@.take(i + 1).drop_last() =~= l@.take(i as int));
                }
                match &l[i] {
                    Some(s) => {
                        let ghost before = views(urls@);
                        urls.push(s.clone());
                        proof {
                            assert(views(urls@) =~= before.push(s@));
                        }
                    },
                    None => {},
                }
                i = i + 1;
            }
            proof {
                assert(l@.take(l@.len() as int) =~= l@);
            }
            if urls.len() == 0 {
                DownloadUrl::Single(String::new())
            } else if urls.len() == 1 {
                proof {
                    assert(views(urls@) =~= seq![urls@[0]@]);
                }
                DownloadUrl::Single(urls[0].clone())
            } else {
                DownloadUrl::Multiple(urls)
            }
        },
        UrlValue::Other => DownloadUrl::Single(String::new()),
    }
}

/// The text fields of a legacy item's `detail` that the service reads.
#[derive(Debug, Clone)]
pub struct ItemDetail {
    pub desc: Option<String>,
    pub author_nickname: Option<String>,
    pub author_sec_uid: Option<String>,
    pub cover_url: Option<String>,
    pub title: Option<String>,
    pub author: Option<String>,
}

/// A work resolved by the legacy resolver.
#[derive(Debug)]
pub struct ResolvedItem {
    pub aweme_id: String,
    pub download_url: UrlValue,
    pub filename: String,
    pub suffix: String,
    pub headers: Vec<(String, String)>,
    pub content_type: String,
    pub detail: Option<ItemDetail>,
    pub accessories: Vec<ResolvedAccessory>,
    pub folder_name: Option<String>,
}

/// The folder of a legacy item: its folder name unless absent or empty.
pub open spec fn legacy_folder(f: Option<String>) -> Option<Seq<char>> {
    match f {
        Some(s) => if s@.len() == 0 {
            None
        } else {
            Some(s@)
        },
        None => None,
    }
}

/// The folder of a legacy item.
fn folder_of(f: &Option<String>) -> (res: Option<String>)
    ensures
        opt_text(res) == legacy_folder(*f),
{
    match f {
        Some(s) => if s.as_str().unicode_len() == 0 {
            None
        } else {
            Some(s.clone())
        },
        None => None,
    }
}

/// The download item of a legacy resolved item. The suffix holds no path
/// separator (see [`build_single_download_item`]).
pub fn build_download_item(item: &ResolvedItem, save_dir: &str, task_id: &str) -> (res: DownloadItem)
    requires
        no_separator(item.suffix@),
    ensures
        res.save_path@ == output_path(
            item_dir(save_dir@, legacy_folder(item.folder_name)),
            item.filename@,
            item.suffix@,
        ),
        res.temp_path@ == temp_path(res.save_path@, item.suffix@),
        (res.url is Single, url_list(res.url)) == legacy_urls(item.download_url),
        header_list(res.headers@) == header_list(item.headers@),
        res.task_id@ == task_id@,
        res.file_size is None,
{
    let folder = folder_of(&item.folder_name);
    let dir = dir_of(save_dir, &folder);
    let save = output_in(dir.as_str(), item.filename.as_str(), item.suffix.as_str());
    let temp = temp_beside(save.as_str(), item.suffix.as_str());
    DownloadItem {
        url: build_download_url(&item.download_url),
        save_path: save,
        temp_path: temp,
        headers: copy_headers(&item.headers),
        task_id: to_owned_string(task_id),
        file_size: None,
    }
}

/// A detail field, when the detail and the field are there.
pub open spec fn detail_field(d: Option<ItemDetail>, f: spec_fn(ItemDetail) -> Option<String>) -> Option<
    Seq<char>,
> {
    match d {
        Some(x) => opt_text(f(x)),
        None => None,
    }
}

/// The task row of a legacy work: its id and, from its detail, the
/// description as title, the author's nickname and id, and the cover.
pub fn legacy_task_item(task_id: &str, item: &ResolvedItem) -> (res: NewTaskItem)
    ensures
        res.task_id@ == task_id@,
        opt_text(res.aweme_id) == Some(item.aweme_id@),
        res.media_key is None && res.media_kind is None && res.media_index is None,
        opt_text(res.title) == detail_field(item.detail, |x: ItemDetail| x.desc),
        opt_text(res.author_nickname) == detail_field(item.detail, |x: ItemDetail| x.author_nickname),
        opt_text(res.author_sec_uid) == detail_field(item.detail, |x: ItemDetail| x.author_sec_uid),
        opt_text(res.cover_url) == detail_field(item.detail, |x: ItemDetail| x.cover_url),
{
    let (title, nick, uid, cover) = match &item.detail {
        Some(d) => (copy_opt(&d.desc), copy_opt(&d.author_nickname), copy_opt(&d.author_sec_uid), copy_opt(&d.cover_url)),
        None => (None, None, None, None),
    };
    NewTaskItem {
        task_id: to_owned_string(task_id),
        aweme_id: Some(item.aweme_id.clone()),
        media_key: None,
        media_kind: None,
        media_index: None,
        title,
        author_sec_uid: uid,
        author_nickname: nick,
        cover_url: cover,
    }
}

/// The task row of a music item: its id, with title and author from its
/// detail when the download succeeded; nothing else.
pub fn music_task_item(task_id: &str, item: &ResolvedItem, downloaded: bool) -> (res: NewTaskItem)
    ensures
        res.task_id@ == task_id@,
        opt_text(res.aweme_id) == Some(item.aweme_id@),
        res.media_key is None && res.media_kind is None && res.media_index is None,
        res.author_sec_uid is None && res.cover_url is None,
        downloaded ==> opt_text(res.title) == detail_field(item.detail, |x: ItemDetail| x.title),
        downloaded ==> opt_text(res.author_nickname) == detail_field(item.detail, |x: ItemDetail| x.author),
        !downloaded ==> res.title is None && res.author_nickname is None,
{
    let (title, author) = if downloaded {
        match &item.detail {
            Some(d) => (copy_opt(&d.title), copy_opt(&d.author)),
            None => (None, None),
        }
    } else {
        (None, None)
    };
    NewTaskItem {
        task_id: to_owned_string(task_id),
        aweme_id: Some(item.aweme_id.clone()),
        media_key: None,
        media_kind: None,
        media_index: None,
        title,
        author_sec_uid: None,
        author_nickname: author,
        cover_url: None,
    }
}

/// The stored name of a media kind.
pub open spec fn kind_text(k: MediaKindV1) -> Seq<char> {
    match k {
        MediaKindV1::Video => "video"@,
        MediaKindV1::Image => "image"@,
        MediaKindV1::LivePhoto => "live_photo"@,
    }
}

/// The task row of a typed media item, or the violation of its media key.
pub fn typed_media_task_item(task_id: &str, item: &MediaDownloadItemV1) -> (res: Result<NewTaskItem, String>)
    ensures
        match media_index_spec(*item) {
            Err(v) => res matches Err(m) && m@ == violation_message(v),
            Ok(i) => res matches Ok(t) && {
                &&& t.task_id@ == task_id@
                &&& opt_text(t.aweme_id) == Some(item.aweme_id@)
                &&& opt_text(t.media_key) == Some(item.media_key@)
                &&& opt_text(t.media_kind) == Some(kind_text(item.kind))
                &&& t.media_index == Some(i)
                &&& opt_text(t.title) == opt_text(item.metadata.desc)
                &&& opt_text(t.author_nickname) == opt_text(item.metadata.author_nickname)
                &&& opt_text(t.author_sec_uid) == opt_text(item.metadata.author_sec_uid)
                &&& opt_text(t.cover_url) == opt_text(item.metadata.cover_url)
            },
        },
{
    let index = match item.media_index() {
        Ok(i) => i,
        Err(m) => {
            return Err(m);
        },
    };
    let kind = match item.kind {
        MediaKindV1::Video => "video",
        MediaKindV1::Image => "image",
        MediaKindV1::LivePhoto => "live_photo",
    };
    Ok(NewTaskItem {
        task_id: to_owned_string(task_id),
        aweme_id: Some(item.aweme_id.clone()),
        media_key: Some(item.media_key.clone()),
        media_kind: Some(to_owned_string(kind)),
        media_index: Some(index),
        title: copy_opt(&item.metadata.desc),
        author_sec_uid: copy_opt(&item.metadata.author_sec_uid),
        author_nickname: copy_opt(&item.metadata.author_nickname),
        cover_url: copy_opt(&item.metadata.cover_url),
    })
}

/// What to do with an accessory file.
#[derive(Debug)]
pub enum AccessoryAction {
    /// Nothing.
    Skip,
    /// Write the text to the path.
    WriteText { path: String, content: String },
    /// Download the item.
    Download(DownloadItem),
}

/// Whether the configuration asks for an accessory of this content type;
/// unknown types are asked for.
pub open spec fn wants_content(t: Seq<char>, config: AppConfig) -> bool {
    if t == "music"@ {
        config.music
    } else if t == "cover"@ {
        config.cover
    } else if t == "desc"@ {
        config.desc
    } else {
        true
    }
}

/// The download of an accessory file at `path` from `url`: default
/// headers, no known size.
pub open spec fn accessory_download(d: DownloadItem, path: Seq<char>, suffix: Seq<char>, url: Seq<char>, task_id: Seq<char>) -> bool {
    &&& d.url is Single
    &&& url_list(d.url) == seq![url]
    &&& d.save_path@ == path
    &&& d.temp_path@ == temp_path(path, suffix)
    &&& d.headers@.len() == 0
    &&& d.task_id@ == task_id
    &&& d.file_size is None
}

/// What to do with a legacy accessory: skip a type the configuration turns
/// off; write a description's text when it has one; download music or a
/// cover when it has a URL; skip anything else. Only a download needs a
/// partial file, so only then must the suffix hold no path separator.
pub fn accessory_action(
    acc: &ResolvedAccessory,
    config: &AppConfig,
    save_dir: &str,
    folder_name: &Option<String>,
    task_id: &str,
) -> (res: AccessoryAction)
    requires
        wants_content(acc.content_type@, *config) && (acc.content_type@ == "music"@ || acc.content_type@
            == "cover"@) && acc.url is Some ==> no_separator(acc.suffix@),
    ensures
        ({
            let t = acc.content_type@;
            let path = output_path(item_dir(save_dir@, legacy_folder(*folder_name)), acc.filename@, acc.suffix@);
            if !wants_content(t, *config) {
                res is Skip
            } else if t == "desc"@ {
                match acc.content {
                    Some(c) => res matches AccessoryAction::WriteText { path: p, content } && p@ == path
                        && content@ == c@,
                    None => res is Skip,
                }
            } else if t == "music"@ || t == "cover"@ {
                match acc.url {
                    Some(u) => res matches AccessoryAction::Download(d) && accessory_download(
                        d,
                        path,
                        acc.suffix@,
                        u@,
                        task_id@,
                    ),
                    None => res is Skip,
                }
            } else {
                res is Skip
            }
        }),
{
    let t = acc.content_type.as_str();
    let wanted = if str_eq(t, "music") {
        config.music
    } else if str_eq(t, "cover") {
        config.cover
    } else if str_eq(t, "desc") {
        config.desc
    } else {
        true
    };
    if !wanted {
        return AccessoryAction::Skip;
    }
    let folder = folder_of(folder_name);
    let dir = dir_of(save_dir, &folder);
    let path = output_in(dir.as_str(), acc.filename.as_str(), acc.suffix.as_str());
    if str_eq(t, "desc") {
        match &acc.content {
            Some(c) => AccessoryAction::WriteText { path, content: c.clone() },
            None => AccessoryAction::Skip,
        }
    } else if str_eq(t, "music") || str_eq(t, "cover") {
        match &acc.url {
            Some(u) => {
                let temp = temp_beside(path.as_str(), acc.suffix.as_str());
                let d = DownloadItem {
                    url: DownloadUrl::Single(u.clone()),
                    save_path: path,
                    temp_path: temp,
                    headers: Vec::new(),
                    task_id: to_owned_string(task_id),
                    file_size: None,
                };
                AccessoryAction::Download(d)
            },
            None => AccessoryAction::Skip,
        }
    } else {
        AccessoryAction::Skip
    }
}

/// Whether the configuration asks for an accessory kind.
pub open spec fn wants_kind(k: SingleAccessoryKind, config: AppConfig) -> bool {
    match k {
        SingleAccessoryKind::Music => config.music,
        SingleAccessoryKind::Cover => config.cover,
        SingleAccessoryKind::Description => config.desc,
    }
}

/// What to do with a typed accessory: skip a kind the configuration turns
/// off; its folder is its own, else the item's; write a description's text
/// when it has one; download music or a cover when it has a URL. Only a
/// download needs a partial file, so only then must the suffix hold no path
/// separator.
pub fn single_accessory_action(
    acc: &SingleAccessory,
    config: &AppConfig,
    save_dir: &str,
    item_folder: &Option<String>,
    task_id: &str,
) -> (res: AccessoryAction)
    requires
        wants_kind(acc.kind, *config) && acc.kind != SingleAccessoryKind::Description && acc.url is Some
            ==> no_separator(acc.output.suffix@),
    ensures
        ({
            let folder = match acc.output.folder_name {
                Some(f) => Some(f@),
                None => opt_text(*item_folder),
            };
            let path = output_path(item_dir(save_dir@, folder), acc.output.filename@, acc.output.suffix@);
            if !wants_kind(acc.kind, *config) {
                res is Skip
            } else if acc.kind == SingleAccessoryKind::Description {
                match acc.content {
                    Some(c) => res matches AccessoryAction::WriteText { path: p, content } && p@ == path
                        && content@ == c@,
                    None => res is Skip,
                }
            } else {
                match acc.url {
                    Some(u) => res matches AccessoryAction::Download(d) && accessory_download(
                        d,
                        path,
                        acc.output.suffix@,
                        u@,
                        task_id@,
                    ),
                    None => res is Skip,
                }
            }
        }),
{
    let wanted = match acc.kind {
        SingleAccessoryKind::Music => config.music,
        SingleAccessoryKind::Cover => config.cover,
        SingleAccessoryKind::Description => config.desc,
    };
    if !wanted {
        return AccessoryAction::Skip;
    }
    let folder = match &acc.output.folder_name {
        Some(f) => Some(f.clone()),
        None => copy_opt(item_folder),
    };
    let dir = dir_of(save_dir, &folder);
    let path = output_in(dir.as_str(), acc.output.filename.as_str(), acc.output.suffix.as_str());
    match acc.kind {
        SingleAccessoryKind::Description => match &acc.content {
            Some(c) => AccessoryAction::WriteText { path, content: c.clone() },
            None => AccessoryAction::Skip,
        },
        _ => match &acc.url {
            Some(u) => {
                let temp = temp_beside(path.as_str(), acc.output.suffix.as_str());
                let d = DownloadItem {
                    url: DownloadUrl::Single(u.clone()),
                    save_path: path,
                    temp_path: temp,
                    headers: Vec::new(),
                    task_id: to_owned_string(task_id),
                    file_size: None,
                };
                AccessoryAction::Download(d)
            },
            None => AccessoryAction::Skip,
        },
    }
}

/// Least time between two byte-progress reports, in milliseconds.
pub const PROGRESS_INTERVAL_MS: u64 = 500;

/// Whether byte progress is reported now: when the download is complete,
/// or when the interval has passed since the last report.
pub open spec fn should_emit_spec(downloaded: u64, total: u64, now_ms: u64, last_ms: u64, interval_ms: u64) -> bool {
    downloaded >= total || (if now_ms >= last_ms { now_ms - last_ms } else { 0 }) >= interval_ms
}

/// Throttle of byte-progress reports.
pub fn should_emit_progress(downloaded: u64, total: u64, now_ms: u64, last_ms: u64, interval_ms: u64) -> (res: bool)
    ensures
        res == should_emit_spec(downloaded, total, now_ms, last_ms, interval_ms),
{
    let elapsed: u64 = if now_ms >= last_ms { now_ms - last_ms } else { 0 };
    downloaded >= total || elapsed >= interval_ms
}

/// How a task ended, as far as events are concerned.
#[derive(Debug)]
pub enum TaskTerminal {
    Completed,
    Cancelled,
    Error(String),
}

/// The message of an explicit cancellation.
pub open spec fn cancel_message() -> Seq<char> {
    "下载已取消"@
}

/// The first status write that settles a task: `cancelled` for an
/// explicit cancellation (the run failed with the cancellation message
/// while the task was being cancelled), `completed` for a success, else
/// `error` with the run's message.
#[derive(Debug)]
pub enum StatusWrite {
    Cancelled,
    Completed,
    Error(String),
}

/// The first status write for a run's result.
pub fn finalize_write(result: &Result<(), String>, cancelled: bool) -> (res: StatusWrite)
    ensures
        match result {
            Err(m) => if cancelled && m@ == cancel_message() {
                res is Cancelled
            } else {
                res matches StatusWrite::Error(e) && e@ == m@
            },
            Ok(()) => res is Completed,
        },
{
    match result {
        Err(m) => if cancelled && str_eq(m.as_str(), "下载已取消") {
            StatusWrite::Cancelled
        } else {
            StatusWrite::Error(m.clone())
        },
        Ok(()) => StatusWrite::Completed,
    }
}

/// What follows the first status write.
#[derive(Debug)]
pub enum FinalizeNext {
    /// Settled.
    Done(TaskTerminal),
    /// Mark the task `error` with this message, then settle on it.
    WriteError(String),
}

/// After the first status write: a cancellation or completion that was
/// written settles the task; a failed cancellation write is an error of its
/// own; a failed completion write must still mark the task `error`; an
/// `error` write settles on the message, with the write's failure added.
pub fn finalize_after(first: StatusWrite, written: Result<(), String>) -> (res: FinalizeNext)
    ensures
        match (first, written) {
            (StatusWrite::Cancelled, Ok(())) => res matches FinalizeNext::Done(TaskTerminal::Cancelled),
            (StatusWrite::Cancelled, Err(e)) => res matches FinalizeNext::Done(TaskTerminal::Error(m)) && m@
                == "更新取消状态失败: "@ + e@,
            (StatusWrite::Completed, Ok(())) => res matches FinalizeNext::Done(TaskTerminal::Completed),
            (StatusWrite::Completed, Err(e)) => res matches FinalizeNext::WriteError(m) && m@
                == "提交任务完成状态失败: "@ + e@,
            (StatusWrite::Error(m0), Ok(())) => res matches FinalizeNext::Done(TaskTerminal::Error(m)) && m@
                == m0@,
            (StatusWrite::Error(m0), Err(e)) => res matches FinalizeNext::Done(TaskTerminal::Error(m)) && m@
                == m0@ + "; 任务 error 状态写入失败: "@ + e@,
        },
{
    match (first, written) {
        (StatusWrite::Cancelled, Ok(())) => FinalizeNext::Done(TaskTerminal::Cancelled),
        (StatusWrite::Cancelled, Err(e)) => {
            let mut m = to_owned_string("更新取消状态失败: ");
            m.append(e.as_str());
            FinalizeNext::Done(TaskTerminal::Error(m))
        },
        (StatusWrite::Completed, Ok(())) => FinalizeNext::Done(TaskTerminal::Completed),
        (StatusWrite::Completed, Err(e)) => {
            let mut m = to_owned_string("提交任务完成状态失败: ");
            m.append(e.as_str());
            FinalizeNext::WriteError(m)
        },
        (StatusWrite::Error(m0), Ok(())) => FinalizeNext::Done(TaskTerminal::Error(m0)),
        (StatusWrite::Error(m0), Err(e)) => {
            let mut m = m0;
            m.append("; 任务 error 状态写入失败: ");
            m.append(e.as_str());
            FinalizeNext::Done(TaskTerminal::Error(m))
        },
    }
}

/// The terminal after marking a failed completion `error`: the message,
/// with the second write's failure added.
pub fn finalize_error_written(message: String, written: Result<(), String>) -> (res: TaskTerminal)
    ensures
        match written {
            Ok(()) => res matches TaskTerminal::Error(m) && m@ == message@,
            Err(e) => res matches TaskTerminal::Error(m) && m@ == message@ + "; 任务 error 状态写入失败: "@ + e@,
        },
{
    match written {
        Ok(()) => TaskTerminal::Error(message),
        Err(e) => {
            let mut m = message;
            m.append("; 任务 error 状态写入失败: ");
            m.append(e.as_str());
            TaskTerminal::Error(m)
        },
    }
}

/// The outcome of a typed media item, for its result transaction.
#[derive(Debug)]
pub enum MediaOutcome {
    Completed { file_path: String, file_size: i64 },
    Skipped { file_path: String, file_size: i64 },
    Failed { error_msg: String },
}

/// The message of a failed result transaction.
pub fn commit_failure_message(db_error: &str) -> (res: String)
    ensures
        res@ == "提交媒体项结果失败: "@ + db_error@,
{
    let mut m = to_owned_string("提交媒体项结果失败: ");
    m.append(db_error);
    m
}

/// The error recorded on the item when its result transaction failed:
/// the failure, then the media error for a failed item, or a note that the
/// downloaded file may still be on disk.
pub fn recovery_message(message: &str, outcome: &MediaOutcome) -> (res: String)
    ensures
        match outcome {
            MediaOutcome::Failed { error_msg } => res@ == message@ + "; 原始媒体错误: "@ + error_msg@,
            _ => res@ == message@ + "; 已下载文件可能仍保留在磁盘"@,
        },
{
    let mut m = to_owned_string(message);
    match outcome {
        MediaOutcome::Failed { error_msg } => {
            m.append("; 原始媒体错误: ");
            m.append(error_msg.as_str());
        },
        _ => {
            m.append("; 已下载文件可能仍保留在磁盘");
        },
    }
    m
}

/// The error returned when even the recovery write failed.
pub fn recovery_failed_message(message: &str, recovery_error: &str) -> (res: String)
    ensures
        res@ == message@ + "; 媒体项错误状态恢复写入失败: "@ + recovery_error@,
{
    let mut m = to_owned_string(message);
    m.append("; 媒体项错误状态恢复写入失败: ");
    m.append(recovery_error);
    m
}

/// The row written for a typed media item's result.
#[derive(Debug)]
pub struct ItemRow {
    pub aweme_id: String,
    pub status: String,
    pub file_path: Option<String>,
    pub file_size: i64,
    pub error_msg: Option<String>,
}

/// The status, file path, size and error that an outcome writes.
pub open spec fn outcome_columns(o: MediaOutcome) -> (Seq<char>, Option<Seq<char>>, i64, Option<Seq<char>>) {
    match o {
        MediaOutcome::Completed { file_path, file_size } => ("completed"@, Some(file_path@), file_size, None),
        MediaOutcome::Skipped { file_path, file_size } => ("skipped"@, Some(file_path@), file_size, None),
        MediaOutcome::Failed { error_msg } => ("failed"@, None, 0, Some(error_msg@)),
    }
}

/// The row of a media item's result: refused when the item has no aweme id
/// or the video metadata sent with it is for another work.
pub fn media_item_row(item_aweme_id: &Option<String>, video_aweme_id: &Option<String>, outcome: &MediaOutcome) -> (res:
    Result<ItemRow, String>)
    ensures
        match opt_text(*item_aweme_id) {
            None => res matches Err(e) && e@ == "media item result requires aweme_id"@,
            Some(id) => match opt_text(*video_aweme_id) {
                Some(v) if v != id => res matches Err(e) && e@
                    == "media item video_info.aweme_id must match item aweme_id"@,
                _ => res matches Ok(r) && r.aweme_id@ == id && (r.status@, opt_text(r.file_path), r.file_size,
                    opt_text(r.error_msg)) == outcome_columns(*outcome),
            },
        },
{
    let aweme_id = match item_aweme_id {
        Some(a) => a.clone(),
        None => {
            return Err(to_owned_string("media item result requires aweme_id"));
        },
    };
    match video_aweme_id {
        Some(v) => if !str_eq(v.as_str(), aweme_id.as_str()) {
            return Err(to_owned_string("media item video_info.aweme_id must match item aweme_id"));
        },
        None => {},
    }
    let (status, file_path, file_size, error_msg) = match outcome {
        MediaOutcome::Completed { file_path, file_size } => (
            to_owned_string("completed"),
            Some(file_path.clone()),
            *file_size,
            None,
        ),
        MediaOutcome::Skipped { file_path, file_size } => (
            to_owned_string("skipped"),
            Some(file_path.clone()),
            *file_size,
            None,
        ),
        MediaOutcome::Failed { error_msg } => (to_owned_string("failed"), None, 0i64, Some(error_msg.clone())),
    };
    Ok(ItemRow { aweme_id, status, file_path, file_size, error_msg })
}

/// Whether the author metadata sent with a result is saved: only with a
/// sec_user_id that is not blank.
pub fn saves_author(sec_user_id: &str) -> (res: bool)
    ensures
        res == !crate::text::blank(sec_user_id@),
{
    !is_blank(sec_user_id)
}

/// The progress event sent once an item's result is committed: the task's
/// item counts as stored, each in its own field, and nothing else set.
pub fn persisted_counts_event(task_id: &str, counts: &TaskItemCounts) -> (res: TaskEvent)
    ensures
        res.event_type == TaskEventType::Progress,
        res.task_id@ == task_id@,
        res.mode is None,
        res.url is None,
        res.patch.task_id@ == task_id@,
        res.patch.total == Some(counts.total),
        res.patch.completed == Some(counts.completed),
        res.patch.skipped == Some(counts.skipped),
        res.patch.failed == Some(counts.failed),
        patch_is_blank(
            (TaskPatch { total: None, completed: None, skipped: None, failed: None, ..res.patch }),
        ),
{
    let patch = TaskPatch::new(task_id).with_counts(counts.total, counts.completed, counts.failed, counts.skipped);
    TaskEvent::progress(patch)
}

/// "所有{what}下载均失败: {failed}/{total} failed".
pub open spec fn all_failed_text(what: Seq<char>, failed: i64, total: i64) -> Seq<char> {
    "所有"@ + what + "下载均失败: "@ + spec_i64_text(failed) + "/"@ + spec_i64_text(total) + " failed"@
}

/// The result of a run from its counts: an error when something failed
/// and nothing completed.
pub fn counts_result(what: &str, completed: i64, failed: i64, total: i64) -> (res: Result<(), String>)
    ensures
        failed > 0 && completed == 0 ==> (res matches Err(m) && m@ == all_failed_text(what@, failed, total)),
        !(failed > 0 && completed == 0) ==> res is Ok,
{
    if failed > 0 && completed == 0 {
        let mut m = to_owned_string("所有");
        m.append(what);
        m.append("下载均失败: ");
        m.append(i64_text(failed).as_str());
        m.append("/");
        m.append(i64_text(total).as_str());
        m.append(" failed");
        return Err(m);
    }
    Ok(())
}

/// What the legacy resolver answered for a work list or a page.
#[derive(Debug)]
pub struct ResolvedUrls {
    pub success: bool,
    pub error: Option<String>,
    pub items: Vec<ResolvedItem>,
    pub save_dir: Option<String>,
    pub total: Option<i64>,
    pub next_cursor: Option<i64>,
    pub has_more: Option<bool>,
}

/// The error of a failed answer: its own, else "解析失败".
pub open spec fn answer_error(e: Option<String>) -> Seq<char> {
    match e {
        Some(m) => m@,
        None => "解析失败"@,
    }
}

/// The save directory of an answer: its own, else `default`.
pub open spec fn answer_dir(d: Option<String>, default: Seq<char>) -> Seq<char> {
    match d {
        Some(s) => s@,
        None => default,
    }
}

fn error_of(e: &Option<String>) -> (res: String)
    ensures
        res@ == answer_error(*e),
{
    match e {
        Some(m) => m.clone(),
        None => to_owned_string("解析失败"),
    }
}

fn dir_or(d: &Option<String>, default: &str) -> (res: String)
    ensures
        res@ == answer_dir(*d, default@),
{
    match d {
        Some(s) => s.clone(),
        None => to_owned_string(default),
    }
}

/// The default save directory of a mode: `./Download/{mode}`.
pub open spec fn default_dir(mode: DownloadMode) -> Seq<char> {
    "./Download/"@ + mode_name(mode)
}

/// The save directory of a non-paged answer, or why nothing is downloaded:
/// the answer's error when it failed, `empty_error` when it has no items.
pub fn resolved_save_dir(resolved: &ResolvedUrls, default: &str, empty_error: &str) -> (res: Result<String, String>)
    ensures
        !resolved.success ==> (res matches Err(m) && m@ == answer_error(resolved.error)),
        resolved.success && resolved.items@.len() == 0 ==> (res matches Err(m) && m@ == empty_error@),
        resolved.success && resolved.items@.len() > 0 ==> (res matches Ok(d) && d@ == answer_dir(
            resolved.save_dir,
            default@,
        )),
{
    if !resolved.success {
        return Err(error_of(&resolved.error));
    }
    let dir = dir_or(&resolved.save_dir, default);
    if resolved.items.len() == 0 {
        return Err(to_owned_string(empty_error));
    }
    Ok(dir)
}

/// The default save directory of a mode, as text.
pub fn mode_default_dir(mode: DownloadMode) -> (res: String)
    ensures
        res@ == default_dir(mode),
{
    let mut s = to_owned_string("./Download/");
    s.append(mode.as_str());
    s
}

/// Counts of a run's items.
#[derive(Debug, Clone, Copy)]
pub struct Tally {
    pub completed: i64,
    pub failed: i64,
}

/// How one item of a legacy run ended.
#[derive(Debug, Clone, Copy, PartialEq, Eq, Structural)]
pub enum ItemEnd {
    /// Downloaded (or found already on disk) and recorded.
    Done,
    /// Downloaded, but writing its rows failed.
    SaveFailed,
    /// The download failed.
    DownloadFailed,
}

impl Tally {
    /// No items yet.
    pub fn new() -> (res: Tally)
        ensures
            res.completed == 0 && res.failed == 0,
    {
        Tally { completed: 0, failed: 0 }
    }

    /// Counts one item: done items as completed, the others as failed.
    pub fn record(&mut self, end: ItemEnd)
        ensures
            end == ItemEnd::Done ==> final(self).completed == sat_add_i64(old(self).completed, 1)
                && final(self).failed == old(self).failed,
            end != ItemEnd::Done ==> final(self).failed == sat_add_i64(old(self).failed, 1)
                && final(self).completed == old(self).completed,
    {
        match end {
            ItemEnd::Done => {
                self.completed = add_sat(self.completed, 1);
            },
            _ => {
                self.failed = add_sat(self.failed, 1);
            },
        }
    }
}

/// Indices of the items whose work is among `ids`, from `k` on; all
/// items when `ids` is empty.
pub open spec fn wanted_items(items: Seq<ResolvedItem>, ids: Seq<Seq<char>>, k: int) -> Seq<int>
    decreases items.len() - k,
{
    if k < 0 || k >= items.len() {
        Seq::empty()
    } else if ids.len() == 0 || ids.contains(items[k].aweme_id@) {
        seq![k] + wanted_items(items, ids, k + 1)
    } else {
        wanted_items(items, ids, k + 1)
    }
}

/// State of a legacy paged run (like, mix, collects, music, or post with
/// a chosen set of works).
#[derive(Debug)]
pub struct LegacyPaging {
    pub mode: DownloadMode,
    pub page_counts: i64,
    pub aweme_ids: Vec<String>,
    pub cursor: i64,
    pub page_index: i64,
    pub save_dir: String,
    pub user_saved: bool,
    pub total_items: i64,
    pub tally: Tally,
}

/// What to do with a legacy page.
#[derive(Debug)]
pub enum LegacyPageStep {
    /// Stop paging.
    Stop,
    /// Download these items of the page (indices), in order. `first` tells
    /// that this is the first page: the caller creates the save directory,
    /// saves the user profile when the mode keeps one, and reports the
    /// answer's total.
    Run { items: Vec<usize>, first: bool },
}

impl LegacyPaging {
    /// A run from cursor 0.
    pub fn new(mode: DownloadMode, page_counts: u32, aweme_ids: &Vec<String>) -> (res: LegacyPaging)
        ensures
            res.mode == mode,
            res.page_counts == page_counts,
            views(res.aweme_ids@) == views(aweme_ids@),
            res.cursor == 0 && res.page_index == 0 && res.total_items == 0,
            !res.user_saved,
            res.tally.completed == 0 && res.tally.failed == 0,
    {
        LegacyPaging {
            mode,
            page_counts: page_counts as i64,
            aweme_ids: copy_strings(aweme_ids),
            cursor: 0,
            page_index: 0,
            save_dir: String::new(),
            user_saved: false,
            total_items: 0,
            tally: Tally::new(),
        }
    }

    /// Starts the next page; its number goes up by one.
    pub fn next_page(&mut self)
        ensures
            final(self).page_index == sat_add_i64(old(self).page_index, 1),
            final(self).cursor == old(self).cursor,
            final(self).total_items == old(self).total_items,
            final(self).tally == old(self).tally,
            final(self).save_dir@ == old(self).save_dir@,
    {
        self.page_index = add_sat(self.page_index, 1);
    }

    /// Handles a page's answer: a failed answer ends the run with its error
    /// while nothing completed, else stops paging; the first page fixes the
    /// save directory (the answer's, else the mode's default); the items
    /// not among the chosen works are dropped; an empty page stops paging.
    pub fn on_page(&mut self, resolved: &ResolvedUrls) -> (res: Result<LegacyPageStep, String>)
        ensures
            !resolved.success && old(self).tally.completed == 0 ==> (res matches Err(m) && m@ == answer_error(
                resolved.error,
            )),
            !resolved.success && old(self).tally.completed != 0 ==> (res matches Ok(LegacyPageStep::Stop)),
            resolved.success ==> {
                let chosen = wanted_items(resolved.items@, views(old(self).aweme_ids@), 0);
                &&& old(self).page_index == 1 ==> final(self).save_dir@ == answer_dir(
                    resolved.save_dir,
                    default_dir(old(self).mode),
                ) && final(self).user_saved
                &&& old(self).page_index != 1 ==> final(self).save_dir@ == old(self).save_dir@
                    && final(self).user_saved == old(self).user_saved
                &&& chosen.len() == 0 ==> (res matches Ok(LegacyPageStep::Stop)) && final(self).total_items
                    == old(self).total_items
                &&& chosen.len() > 0 ==> (res matches Ok(LegacyPageStep::Run { items, first }) && items@.map_values(
                    |x: usize| x as int,
                ) == chosen && first == (old(self).page_index == 1)) && final(self).total_items == sat_add_i64(
                    old(self).total_items,
                    chosen.len() as i64,
                )
            },
            final(self).cursor == old(self).cursor,
            final(self).page_index == old(self).page_index,
            final(self).tally == old(self).tally,
            views(final(self).aweme_ids@) == views(old(self).aweme_ids@),
            final(self).mode == old(self).mode,
    {
        if !resolved.success {
            let err = error_of(&resolved.error);
            if self.tally.completed == 0 {
                return Err(err);
            }
            return Ok(LegacyPageStep::Stop);
        }
        let first = self.page_index == 1;
        if first {
            let d = mode_default_dir(self.mode);
            self.save_dir = dir_or(&resolved.save_dir, d.as_str());
            self.user_saved = true;
        }
        let ghost ids = views(self.aweme_ids@);
        let ghost items = resolved.items@;
        let mut chosen: Vec<usize> = Vec::new();
        let mut k: usize = resolved.items.len();
        proof {
            assert(chosen@.map_values(|x: usize| x as int) =~= wanted_items(items, ids, k as int));
        }
        while k > 0
            invariant
                items == resolved.items@,
                ids == views(self.aweme_ids@),
                k <= items.len(),
                chosen@.map_values(|x: usize| x as int) == wanted_items(items, ids, k as int),
            decreases k,
        {
            k = k - 1;
            let keep = self.aweme_ids.len() == 0 || crate::text::contains_before(
                &self.aweme_ids,
                self.aweme_ids.len(),
                resolved.items[k].aweme_id.as_str(),
            );
            proof {
                assert(views(self.aweme_ids@).take(self.aweme_ids@.len() as int) =~= ids);
            }
            if keep {
                let ghost before = chosen@.map_values(|x: usize| x as int);
                chosen.insert(0, k);
                proof {
                    assert(chosen@.map_values(|x: usize| x as int) =~= seq![k as int] + before);
                }
            }
        }
        if chosen.len() == 0 {
            return Ok(LegacyPageStep::Stop);
        }
        self.total_items = add_sat(self.total_items, chosen.len() as i64);
        Ok(LegacyPageStep::Run { items: chosen, first })
    }

    /// After a page ran: stop once every chosen work is handled, when the
    /// answer has no more pages, or when it gives no next cursor; else move
    /// to the next cursor (`true`).
    pub fn after_page(&mut self, resolved: &ResolvedUrls) -> (res: bool)
        ensures
            ({
                let handled = sat_add_i64(old(self).tally.completed, old(self).tally.failed);
                if old(self).aweme_ids@.len() > 0 && handled >= old(self).aweme_ids@.len() {
                    !res && final(self).cursor == old(self).cursor
                } else if resolved.has_more != Some(true) {
                    !res && final(self).cursor == old(self).cursor
                } else {
                    match resolved.next_cursor {
                        Some(c) => res && final(self).cursor == c,
                        None => !res && final(self).cursor == old(self).cursor,
                    }
                }
            }),
            final(self).page_index == old(self).page_index,
            final(self).tally == old(self).tally,
            final(self).total_items == old(self).total_items,
            final(self).save_dir@ == old(self).save_dir@,
    {
        let handled = add_sat(self.tally.completed, self.tally.failed);
        if self.aweme_ids.len() > 0 && handled >= 0 && (handled as u64) >= self.aweme_ids.len() as u64 {
            return false;
        }
        match resolved.has_more {
            Some(true) => {},
            _ => {
                return false;
            },
        }
        match resolved.next_cursor {
            Some(c) => {
                self.cursor = c;
                true
            },
            None => false,
        }
    }

    /// How the run ends: an error when items failed and none completed.
    pub fn final_result(&self) -> (res: Result<(), String>)
        ensures
            self.tally.failed > 0 && self.tally.completed == 0 ==> (res matches Err(m) && m@ == all_failed_text(
                Seq::empty(),
                self.tally.failed,
                self.total_items,
            )),
            !(self.tally.failed > 0 && self.tally.completed == 0) ==> res is Ok,
    {
        proof {
            reveal_strlit("");
        }
        counts_result("", self.tally.completed, self.tally.failed, self.total_items)
    }
}

/// Whether a character is a lower-case hexadecimal digit.
pub open spec fn is_lower_hex(c: char) -> bool {
    ('0' <= c && c <= '9') || ('a' <= c && c <= 'f')
}

/// Calls `uuid::Uuid::new_v4` and writes it with `to_string`. Claimed of it:
/// the text is the 36-character hyphenated lower-case form, so its first
/// eight characters are hexadecimal digits; which digits is left to chance.
#[verifier::external_body]
fn uuid_v4_text() -> (res: String)
    ensures
        res@.len() == 36,
        forall|i: int| 0 <= i < 8 ==> is_lower_hex(#[trigger] res@[i]),
{
    uuid::Uuid::new_v4().to_string()
}

/// A fresh task id: the first eight hexadecimal digits of a random UUID.
pub fn new_task_id() -> (res: String)
    ensures
        res@.len() == 8,
        forall|i: int| 0 <= i < 8 ==> is_lower_hex(#[trigger] res@[i]),
{
    let u = uuid_v4_text();
    let id = to_owned_string(u.as_str().substring_char(0, 8));
    proof {
        assert forall|i: int| 0 <= i < 8 implies is_lower_hex(#[trigger] id@[i]) by {
            assert(id@[i] == u@[i]);
        }
    }
    id
}

/// The task row created when a task starts: its id, mode and URL, with no
/// title or author yet.
pub fn new_download_task(id: &str, mode: &str, url: &str) -> (res: NewDownloadTask)
    ensures
        res.id@ == id@,
        res.mode@ == mode@,
        res.url@ == url@,
        res.title is None,
        res.author_nickname is None,
{
    NewDownloadTask {
        id: to_owned_string(id),
        mode: to_owned_string(mode),
        url: to_owned_string(url),
        title: None,
        author_nickname: None,
    }
}

/// The error of a task that could not be created.
pub fn create_task_error(db_error: &str) -> (res: String)
    ensures
        res@ == "创建任务失败: "@ + db_error@,
{
    let mut m = to_owned_string("创建任务失败: ");
    m.append(db_error);
    m
}

/// Whether a batch mode runs on the typed paged runner (post) rather than
/// the legacy one.
pub fn uses_typed_runner(mode: DownloadMode) -> (res: bool)
    ensures
        res == (mode == DownloadMode::Post),
{
    match mode {
        DownloadMode::Post => true,
        _ => false,
    }
}

/// How a live recording task ends.
#[derive(Debug)]
pub enum LiveTaskEnd {
    /// Save this record, then mark the task completed.
    Save(NewLiveRecord),
    /// The user stopped the task before anything usable was recorded.
    Cancelled,
    /// The task failed with this message.
    Error(String),
}

/// The record of a completed recording: the room's texts unless blank,
/// the output file and its measures, status `completed`.
pub open spec fn live_record_fits(r: NewLiveRecord, plan: LivePlanV1, o: LiveOutputFacts) -> bool {
    &&& opt_text(r.room_id) == nonempty_spec(plan.room_id@)
    &&& opt_text(r.web_rid) == nonempty_spec(plan.web_rid@)
    &&& opt_text(r.title) == nonempty_spec(plan.title@)
    &&& opt_text(r.nickname) == nonempty_spec(plan.nickname@)
    &&& opt_text(r.sec_user_id) == nonempty_spec(plan.sec_user_id@)
    &&& opt_text(r.file_path) == nonempty_spec(o.path@)
    &&& r.file_size == o.file_size as i64
    &&& r.duration_sec == saturating_diff(o.ended_at, o.started_at)
    &&& r.status@ == "completed"@
    &&& r.started_at == Some(o.started_at)
    &&& r.ended_at == Some(o.ended_at)
    &&& opt_text(r.cover_url) == nonempty_spec(plan.cover_url@)
}

/// How a live task ends after recording: a completed recording is saved; a
/// failed one is a cancellation when the task was being cancelled, else an
/// error with the recorder's message.
pub fn live_task_end(plan: &LivePlanV1, outcome: &LiveRecorderOutcome, cancelled: bool) -> (res: LiveTaskEnd)
    ensures
        match outcome {
            LiveRecorderOutcome::Completed { output, .. } => res matches LiveTaskEnd::Save(r) && live_record_fits(
                r,
                *plan,
                *output,
            ),
            LiveRecorderOutcome::Failed { error, .. } => if cancelled {
                res is Cancelled
            } else {
                res matches LiveTaskEnd::Error(m) && m@ == error@
            },
        },
{
    match outcome {
        LiveRecorderOutcome::Completed { output, .. } => {
            let record = NewLiveRecord {
                room_id: nonempty_string(plan.room_id.as_str()),
                web_rid: nonempty_string(plan.web_rid.as_str()),
                title: nonempty_string(plan.title.as_str()),
                nickname: nonempty_string(plan.nickname.as_str()),
                sec_user_id: nonempty_string(plan.sec_user_id.as_str()),
                file_path: nonempty_string(output.path.as_str()),
                file_size: output.file_size as i64,
                duration_sec: output.duration_sec(),
                status: to_owned_string("completed"),
                started_at: Some(output.started_at),
                ended_at: Some(output.ended_at),
                cover_url: nonempty_string(plan.cover_url.as_str()),
            };
            LiveTaskEnd::Save(record)
        },
        LiveRecorderOutcome::Failed { error, .. } => if cancelled {
            LiveTaskEnd::Cancelled
        } else {
            LiveTaskEnd::Error(error.clone())
        },
    }
}

/// The error of a recording whose record could not be saved.
pub fn live_save_error(db_error: &str) -> (res: String)
    ensures
        res@ == "保存直播记录失败: "@ + db_error@,
{
    let mut m = to_owned_string("保存直播记录失败: ");
    m.append(db_error);
    m
}

/// Throttle of a task's byte-progress events: at most one per interval,
/// and always one when a download completes.
#[derive(Debug)]
pub struct ProgressTracker {
    pub task_id: String,
    /// When the last event went out, in milliseconds since the epoch.
    pub last_emit_ms: u64,
    pub interval_ms: u64,
}

impl ProgressTracker {
    /// A tracker for a task that has sent nothing yet, with the 500 ms
    /// interval.
    pub fn new(task_id: &str) -> (res: ProgressTracker)
        ensures
            res.task_id@ == task_id@,
            res.last_emit_ms == 0,
            res.interval_ms == PROGRESS_INTERVAL_MS,
    {
        ProgressTracker { task_id: to_owned_string(task_id), last_emit_ms: 0, interval_ms: PROGRESS_INTERVAL_MS }
    }

    /// Byte progress at `now_ms`: the progress event to send (counts: the
    /// total and the bytes so far, nothing failed or skipped), when due.
    pub fn update(&mut self, downloaded: u64, total: u64, now_ms: u64) -> (res: Option<TaskEvent>)
        ensures
            final(self).task_id@ == old(self).task_id@,
            final(self).interval_ms == old(self).interval_ms,
            should_emit_spec(downloaded, total, now_ms, old(self).last_emit_ms, old(self).interval_ms) ==> {
                &&& final(self).last_emit_ms == now_ms
                &&& res matches Some(e) && {
                    &&& e.event_type == TaskEventType::Progress
                    &&& e.task_id@ == old(self).task_id@
                    &&& e.patch.task_id@ == old(self).task_id@
                    &&& e.patch.total == Some(total as i64)
                    &&& e.patch.completed == Some(downloaded as i64)
                    &&& e.patch.failed == Some(0i64)
                    &&& e.patch.skipped == Some(0i64)
                    &&& patch_is_blank(TaskPatch { total: None, completed: None, failed: None, skipped: None, ..e.patch })
                }
            },
            !should_emit_spec(downloaded, total, now_ms, old(self).last_emit_ms, old(self).interval_ms) ==> res is None
                && final(self).last_emit_ms == old(self).last_emit_ms,
    {
        if should_emit_progress(downloaded, total, now_ms, self.last_emit_ms, self.interval_ms) {
            self.last_emit_ms = now_ms;
            let patch = TaskPatch::new(self.task_id.as_str()).with_counts(total as i64, downloaded as i64, 0, 0);
            Some(TaskEvent::progress(patch))
        } else {
            None
        }
    }
}

} // verus!

verus! {

/// A completed download always reports its progress, whatever the time.
pub proof fn lemma_completion_always_emits(downloaded: u64, total: u64, now_ms: u64, last_ms: u64, interval_ms: u64)
    requires
        downloaded >= total,
    ensures
        should_emit_spec(downloaded, total, now_ms, last_ms, interval_ms),
{
}

/// With chosen works, every item kept from a legacy page belongs to one of
/// them, and the kept indices are increasing indices of the page.
pub proof fn lemma_wanted_items_chosen(items: Seq<ResolvedItem>, ids: Seq<Seq<char>>, k: int)
    requires
        0 <= k,
    ensures
        forall|x: int|
            0 <= x < wanted_items(items, ids, k).len() ==> k <= #[trigger] wanted_items(items, ids, k)[x] < items.len()
                && (ids.len() > 0 ==> ids.contains(items[wanted_items(items, ids, k)[x]].aweme_id@)),
        forall|x: int, y: int|
            0 <= x < y < wanted_items(items, ids, k).len() ==> wanted_items(items, ids, k)[x] < wanted_items(
                items,
                ids,
                k,
            )[y],
    decreases items.len() - k,
{
    if k < items.len() {
        lemma_wanted_items_chosen(items, ids, k + 1);
        let rest = wanted_items(items, ids, k + 1);
        if ids.len() == 0 || ids.contains(items[k].aweme_id@) {
            let w = seq![k] + rest;
            assert(wanted_items(items, ids, k) == w);
            assert forall|x: int| 0 <= x < w.len() implies k <= #[trigger] w[x] < items.len() && (ids.len() > 0
                ==> ids.contains(items[w[x]].aweme_id@)) by {
                if x > 0 {
                    assert(w[x] == rest[x - 1]);
                }
            }
            assert forall|x: int, y: int| 0 <= x < y < w.len() implies w[x] < w[y] by {
                assert(w[y] == rest[y - 1]);
                if x > 0 {
                    assert(w[x] == rest[x - 1]);
                }
            }
        }
    }
}

} // verus!

verus! {

/// Where a download request goes.
#[derive(Debug, Clone, Copy, PartialEq, Eq, Structural)]
pub enum TaskRoute {
    /// A single work.
    Single,
    /// Music.
    Music,
    /// A paged batch (post, like, mix, collects).
    Batch,
    /// A live recording.
    Live,
}

/// The route of a download request by its mode name, or the error for an
/// unknown mode.
pub fn route_request(mode: &str) -> (res: Result<(DownloadMode, TaskRoute), String>)
    ensures
        match crate::download::types::mode_named(mode@) {
            None => res matches Err(e) && e@ == "未知的下载模式: "@ + mode@,
            Some(m) => res matches Ok((rm, route)) && rm == m && route == (match m {
                DownloadMode::One => TaskRoute::Single,
                DownloadMode::Music => TaskRoute::Music,
                DownloadMode::Live => TaskRoute::Live,
                _ => TaskRoute::Batch,
            }),
        },
{
    match DownloadMode::from_str(mode) {
        None => {
            let mut e = to_owned_string("未知的下载模式: ");
            e.append(mode);
            Err(e)
        },
        Some(m) => {
            let route = match m {
                DownloadMode::One => TaskRoute::Single,
                DownloadMode::Music => TaskRoute::Music,
                DownloadMode::Live => TaskRoute::Live,
                _ => TaskRoute::Batch,
            };
            Ok((m, route))
        },
    }
}

/// Whether a live task is still running: its status is one of the running
/// ones and it still has a stop signal.
pub open spec fn live_active_spec(status: Seq<char>, has_signal: bool) -> bool {
    (status == "starting"@ || status == "running"@ || status == "recording"@ || status == "stopping"@) && has_signal
}

/// Whether a live task is listed as running.
pub fn is_active_live(status: &str, has_signal: bool) -> (res: bool)
    ensures
        res == live_active_spec(status@, has_signal),
{
    (str_eq(status, "starting") || str_eq(status, "running") || str_eq(status, "recording") || str_eq(
        status,
        "stopping",
    )) && has_signal
}

/// The answer to a cancel request: an error when no running task had that
/// id.
pub fn cancel_answer(cancelled: bool, live: bool) -> (res: Result<(), String>)
    ensures
        cancelled ==> res is Ok,
        !cancelled && live ==> (res matches Err(e) && e@ == "录制任务不存在或已完成"@),
        !cancelled && !live ==> (res matches Err(e) && e@ == "任务不存在或已完成"@),
{
    if cancelled {
        Ok(())
    } else if live {
        Err(to_owned_string("录制任务不存在或已完成"))
    } else {
        Err(to_owned_string("任务不存在或已完成"))
    }
}

/// Each accessory kind follows its own setting and no other: music is
/// fetched exactly when music is on, a cover exactly when covers are on, a
/// description exactly when descriptions are on; the same holds of the
/// legacy type names, and a type with no setting is always wanted.
pub proof fn lemma_accessory_settings(config: AppConfig)
    ensures
        wants_kind(SingleAccessoryKind::Music, config) == config.music,
        wants_kind(SingleAccessoryKind::Cover, config) == config.cover,
        wants_kind(SingleAccessoryKind::Description, config) == config.desc,
        forall|other: AppConfig| #![trigger wants_kind(SingleAccessoryKind::Music, other)]
            other.music == config.music ==> wants_kind(SingleAccessoryKind::Music, other) == wants_kind(
                SingleAccessoryKind::Music,
                config,
            ),
        wants_content("music"@, config) == config.music,
        wants_content("cover"@, config) == config.cover,
        wants_content("desc"@, config) == config.desc,
        forall|t: Seq<char>| t != "music"@ && t != "cover"@ && t != "desc"@ ==> #[trigger] wants_content(t, config),
{
    reveal_strlit("music");
    reveal_strlit("cover");
    reveal_strlit("desc");
    assert("cover"@ != "music"@) by {
        assert("cover"@[0] != "music"@[0]);
    }
    assert("desc"@ != "music"@ && "desc"@ != "cover"@) by {
        assert("desc"@[0] != "music"@[0] && "desc"@[0] != "cover"@[0]);
    }
}

} // verus!
