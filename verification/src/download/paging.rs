//! Decisions of the typed paged download runner (post mode): how many works
//! to ask the resolver for, how each returned page is checked against the
//! pages before it, which of its media are downloaded, when paging stops,
//! and how the run ends. Resolving, downloading and persisting are done by
//! the caller between these steps.

use vstd::prelude::*;
use crate::text::{i64_text, spec_i64_text, str_eq, to_owned_string, views};
use crate::download::contract::{
    media_index_spec, violation_message, MediaDownloadItemV1, PagedDownloadPlanV1,
};

verus! {

/// `a + b`, kept at `i64::MAX` when larger.
pub open spec fn sat_add_i64(a: i64, b: i64) -> i64 {
    if a + b > i64::MAX {
        i64::MAX
    } else if a + b < i64::MIN {
        i64::MIN
    } else {
        (a + b) as i64
    }
}

/// `a + b`, kept within the range of `i64`.
pub fn add_sat(a: i64, b: i64) -> (res: i64)
    ensures
        res == sat_add_i64(a, b),
{
    let s: i128 = a as i128 + b as i128;
    if s > i64::MAX as i128 {
        i64::MAX
    } else if s < i64::MIN as i128 {
        i64::MIN
    } else {
        s as i64
    }
}

/// State of a typed paged run.
pub struct PagedRun {
    /// Works asked for per page.
    pub page_counts: i64,
    /// Most works downloaded in all (0: no limit).
    pub max_counts: usize,
    pub cursor: i64,
    /// Number of the page being handled, from 1.
    pub page_index: i64,
    /// Save directory fixed by the first page.
    pub save_dir: Option<String>,
    pub seen_cursors: Vec<i64>,
    pub seen_media_keys: Vec<String>,
    pub seen_aweme_ids: Vec<String>,
    pub total_completed: i64,
    pub total_failed: i64,
}

/// What to do with a checked page.
#[derive(Debug)]
pub enum PageWork {
    /// Stop paging.
    Stop,
    /// Download these items of the page (indices into its items), in order.
    Run(Vec<usize>),
}

/// "第 {page} 页" and what follows.
pub open spec fn page_text(page: i64, rest: Seq<char>) -> Seq<char> {
    "第 "@ + spec_i64_text(page) + rest
}

/// The works to ask for next: the page size without a limit; else the page
/// size capped by the works still allowed, or `None` to stop when none is.
pub open spec fn request_count_spec(page_counts: i64, max_counts: usize, seen: nat) -> Option<i64> {
    if max_counts == 0 {
        Some(page_counts)
    } else if seen >= max_counts {
        None
    } else if page_counts <= max_counts - seen {
        Some(page_counts)
    } else {
        Some((max_counts - seen) as i64)
    }
}

/// The first check of a page against the run: its mode, and on later pages
/// that the save directory holds and no user profile comes again.
pub open spec fn head_violation(page: i64, first_dir: Option<Seq<char>>, plan: PagedDownloadPlanV1) -> Option<
    Seq<char>,
> {
    if plan.mode@ != "post"@ {
        Some(page_text(page, " 页 mode 漂移: expected=post, actual="@ + plan.mode@))
    } else if page == 1 {
        None
    } else if first_dir is None || first_dir->Some_0 != plan.save_dir@ {
        Some(page_text(page, " 页 save_dir 漂移"@))
    } else if plan.user_profile is Some {
        Some(page_text(page, " 页不得重复返回 user_profile"@))
    } else {
        None
    }
}

/// Checks the items of a page from `i` on: each belongs to the page's works,
/// has a valid media index and a key not seen on this or an earlier page.
/// `Ok` gives the keys seen afterwards.
pub open spec fn items_check(
    items: Seq<MediaDownloadItemV1>,
    ids: Seq<Seq<char>>,
    keys: Seq<Seq<char>>,
    page: i64,
    i: int,
) -> Result<Seq<Seq<char>>, Seq<char>>
    decreases items.len() - i,
{
    if i < 0 || i >= items.len() {
        Ok(keys)
    } else {
        let it = items[i];
        if !ids.contains(it.aweme_id@) {
            Err(page_text(page, " 页媒体 "@ + it.media_key@ + " 不属于 page_aweme_ids"@))
        } else if media_index_spec(it) is Err {
            Err(violation_message(media_index_spec(it)->Err_0))
        } else if keys.contains(it.media_key@) {
            Err("跨页重复 media_key: "@ + it.media_key@)
        } else {
            items_check(items, ids, keys.push(it.media_key@), page, i + 1)
        }
    }
}

/// Walks the page's works from `j` on: a work seen before is allowed again;
/// a new one is taken while the limit allows, and the walk stops at the
/// first new work over the limit. Gives the works seen and those allowed.
pub open spec fn allow_ids(
    ids: Seq<Seq<char>>,
    seen: Seq<Seq<char>>,
    allowed: Seq<Seq<char>>,
    max_counts: usize,
    j: int,
) -> (Seq<Seq<char>>, Seq<Seq<char>>)
    decreases ids.len() - j,
{
    if j < 0 || j >= ids.len() {
        (seen, allowed)
    } else if seen.contains(ids[j]) {
        allow_ids(ids, seen, allowed.push(ids[j]), max_counts, j + 1)
    } else if max_counts != 0 && seen.len() >= max_counts {
        (seen, allowed)
    } else {
        allow_ids(ids, seen.push(ids[j]), allowed.push(ids[j]), max_counts, j + 1)
    }
}

/// Indices, from `k` on, of the items whose work is allowed.
pub open spec fn allowed_indices(items: Seq<MediaDownloadItemV1>, allowed: Seq<Seq<char>>, k: int) -> Seq<int>
    decreases items.len() - k,
{
    if k < 0 || k >= items.len() {
        Seq::empty()
    } else if allowed.contains(items[k].aweme_id@) {
        seq![k] + allowed_indices(items, allowed, k + 1)
    } else {
        allowed_indices(items, allowed, k + 1)
    }
}

/// Model of the state a page selection touches: the keys and works seen.
/// A page with neither items nor works stops paging, and is an error while
/// `has_more` is set; a page that lists works but has no media for them
/// (a media-free source page) counts its works and downloads nothing, so
/// paging goes on to the next cursor.
pub open spec fn select_spec(
    page: i64,
    keys: Seq<Seq<char>>,
    seen: Seq<Seq<char>>,
    max_counts: usize,
    plan: PagedDownloadPlanV1,
) -> Result<(Seq<Seq<char>>, Seq<Seq<char>>, Option<Seq<int>>), Seq<char>> {
    let items = plan.items@;
    let ids = views(plan.page_aweme_ids@);
    if plan.has_more && plan.next_cursor is None {
        Err(page_text(page, " 页 has_more=true 但 next_cursor 为空"@))
    } else if items.len() == 0 && ids.len() == 0 && plan.has_more {
        Err(page_text(page, " 页 items 与 page_aweme_ids 为空但 has_more=true (重复 cursor 或协议错误)"@))
    } else if items.len() == 0 && ids.len() == 0 {
        Ok((keys, seen, None))
    } else {
        match items_check(items, ids, keys, page, 0) {
            Err(m) => Err(m),
            Ok(keys2) => {
                let (seen2, allowed) = allow_ids(ids, seen, Seq::empty(), max_counts, 0);
                let chosen = allowed_indices(items, allowed, 0);
                if chosen.len() == 0 && max_counts != 0 && seen2.len() >= max_counts {
                    Ok((keys2, seen2, None))
                } else {
                    Ok((keys2, seen2, Some(chosen)))
                }
            },
        }
    }
}

/// After a page ran: the totals, and whether paging goes on with which
/// cursor, stops, or fails on a missing or repeated cursor.
pub open spec fn after_page_spec(
    page: i64,
    max_counts: usize,
    seen_ids: nat,
    seen_cursors: Seq<i64>,
    plan: PagedDownloadPlanV1,
) -> Result<Option<i64>, Seq<char>> {
    if max_counts != 0 && seen_ids >= max_counts {
        Ok(None)
    } else if !plan.has_more {
        Ok(None)
    } else {
        match plan.next_cursor {
            None => Err(page_text(page, " 页 has_more=true 但 next_cursor 为空"@)),
            Some(next) => if seen_cursors.contains(next) {
                Err(page_text(page, " 页 next_cursor 重复: "@ + spec_i64_text(next)))
            } else {
                Ok(Some(next))
            },
        }
    }
}

/// How a finished run is reported from its totals.
pub open spec fn paged_final_spec(completed: i64, failed: i64) -> Result<(), Seq<char>> {
    if completed == 0 && failed == 0 {
        Err("未发现可下载媒体"@)
    } else if failed > 0 && completed == 0 {
        Err("所有下载均失败: "@ + spec_i64_text(failed) + "/"@ + spec_i64_text(sat_add_i64(failed, completed))
            + " failed"@)
    } else {
        Ok(())
    }
}

/// Whether `id` is among `list`.
fn has_string(list: &Vec<String>, id: &str) -> (res: bool)
    ensures
        res == views(list@).contains(id@),
{
    let mut i: usize = 0;
    while i < list.len()
        invariant
            i <= list@.len(),
            forall|k: int| 0 <= k < i ==> views(list@)[k] != id@,
        decreases list@.len() - i,
    {
        if str_eq(list[i].as_str(), id) {
            assert(views(list@)[i as int] == id@);
            return true;
        }
        i = i + 1;
    }
    false
}

/// Whether `c` is among `list`.
fn has_cursor(list: &Vec<i64>, c: i64) -> (res: bool)
    ensures
        res == list@.contains(c),
{
    let mut i: usize = 0;
    while i < list.len()
        invariant
            i <= list@.len(),
            forall|k: int| 0 <= k < i ==> list@[k] != c,
        decreases list@.len() - i,
    {
        if list[i] == c {
            return true;
        }
        i = i + 1;
    }
    false
}

/// `s` with `s2` appended, as a new `String`.
fn concat(a: &str, b: &str) -> (res: String)
    ensures
        res@ == a@ + b@,
{
    let mut s = to_owned_string(a);
    s.append(b);
    s
}

/// "第 {page}" followed by `rest`.
fn page_message(page: i64, rest: &str) -> (res: String)
    ensures
        res@ == page_text(page, rest@),
{
    let mut s = to_owned_string("第 ");
    let n = i64_text(page);
    s.append(n.as_str());
    s.append(rest);
    s
}

impl PagedRun {
    /// A run starting at cursor 0 with the configured page size and limit.
    pub fn new(page_counts: u32, max_counts: u32) -> (res: PagedRun)
        ensures
            res.page_counts == page_counts,
            res.max_counts == max_counts,
            res.cursor == 0,
            res.page_index == 0,
            res.save_dir is None,
            res.seen_cursors@ == seq![0i64],
            res.seen_media_keys@.len() == 0,
            res.seen_aweme_ids@.len() == 0,
            res.total_completed == 0,
            res.total_failed == 0,
    {
        let mut cursors: Vec<i64> = Vec::new();
        cursors.push(0);
        PagedRun {
            page_counts: page_counts as i64,
            max_counts: max_counts as usize,
            cursor: 0,
            page_index: 0,
            save_dir: None,
            seen_cursors: cursors,
            seen_media_keys: Vec::new(),
            seen_aweme_ids: Vec::new(),
            total_completed: 0,
            total_failed: 0,
        }
    }

    /// Starts the next page: its number goes up by one, and the works to ask
    /// for are returned, or `None` when the limit is reached (stop paging).
    pub fn next_request(&mut self) -> (res: Option<i64>)
        ensures
            final(self).page_index == sat_add_i64(old(self).page_index, 1),
            res == request_count_spec(old(self).page_counts, old(self).max_counts, old(self).seen_aweme_ids@.len()),
            final(self).cursor == old(self).cursor,
            final(self).page_counts == old(self).page_counts,
            final(self).max_counts == old(self).max_counts,
            final(self).save_dir == old(self).save_dir,
            final(self).seen_cursors@ == old(self).seen_cursors@,
            final(self).seen_media_keys@ == old(self).seen_media_keys@,
            final(self).seen_aweme_ids@ == old(self).seen_aweme_ids@,
            final(self).total_completed == old(self).total_completed,
            final(self).total_failed == old(self).total_failed,
    {
        self.page_index = add_sat(self.page_index, 1);
        if self.max_counts == 0 {
            return Some(self.page_counts);
        }
        let seen = self.seen_aweme_ids.len();
        if seen >= self.max_counts {
            return None;
        }
        let remaining = self.max_counts - seen;
        if self.page_counts <= 0 || (self.page_counts as u64) <= remaining as u64 {
            Some(self.page_counts)
        } else {
            Some(remaining as i64)
        }
    }

    /// Checks the head of a page: mode, and against the first page's save
    /// directory and profile. The first page fixes the save directory; the
    /// result tells whether this is the first page (whose directory and user
    /// profile the caller then creates and saves).
    pub fn check_head(&mut self, plan: &PagedDownloadPlanV1) -> (res: Result<bool, String>)
        ensures
            match head_violation(
                old(self).page_index,
                match old(self).save_dir {
                    Some(d) => Some(d@),
                    None => None,
                },
                *plan,
            ) {
                Some(m) => res matches Err(e) && e@ == m,
                None => res matches Ok(first) && first == (old(self).page_index == 1),
            },
            res matches Ok(true) ==> final(self).save_dir matches Some(d) && d@ == plan.save_dir@,
            !(res matches Ok(true)) ==> final(self).save_dir == old(self).save_dir,
            final(self).page_index == old(self).page_index,
            final(self).cursor == old(self).cursor,
            final(self).page_counts == old(self).page_counts,
            final(self).max_counts == old(self).max_counts,
            final(self).seen_cursors@ == old(self).seen_cursors@,
            final(self).seen_media_keys@ == old(self).seen_media_keys@,
            final(self).seen_aweme_ids@ == old(self).seen_aweme_ids@,
            final(self).total_completed == old(self).total_completed,
            final(self).total_failed == old(self).total_failed,
    {
        if !str_eq(plan.mode.as_str(), "post") {
            let rest = concat(" 页 mode 漂移: expected=post, actual=", plan.mode.as_str());
            return Err(page_message(self.page_index, rest.as_str()));
        }
        if self.page_index == 1 {
            self.save_dir = Some(plan.save_dir.clone());
            return Ok(true);
        }
        let same_dir = match &self.save_dir {
            Some(d) => str_eq(d.as_str(), plan.save_dir.as_str()),
            None => false,
        };
        if !same_dir {
            return Err(page_message(self.page_index, " 页 save_dir 漂移"));
        }
        if plan.user_profile.is_some() {
            return Err(page_message(self.page_index, " 页不得重复返回 user_profile"));
        }
        Ok(false)
    }

    /// Checks the items of a checked page and picks those to download (see
    /// [`select_spec`]).
    pub fn select(&mut self, plan: &PagedDownloadPlanV1) -> (res: Result<PageWork, String>)
        ensures
            match select_spec(
                old(self).page_index,
                views(old(self).seen_media_keys@),
                views(old(self).seen_aweme_ids@),
                old(self).max_counts,
                *plan,
            ) {
                Err(m) => res matches Err(e) && e@ == m,
                Ok((keys, seen, chosen)) => {
                    &&& views(final(self).seen_media_keys@) == keys
                    &&& views(final(self).seen_aweme_ids@) == seen
                    &&& match chosen {
                        None => res matches Ok(PageWork::Stop),
                        Some(c) => res matches Ok(PageWork::Run(v)) && v@.map_values(|x: usize| x as int) == c,
                    }
                },
            },
            final(self).page_index == old(self).page_index,
            final(self).cursor == old(self).cursor,
            final(self).page_counts == old(self).page_counts,
            final(self).max_counts == old(self).max_counts,
            final(self).save_dir == old(self).save_dir,
            final(self).seen_cursors@ == old(self).seen_cursors@,
            final(self).total_completed == old(self).total_completed,
            final(self).total_failed == old(self).total_failed,
    {
        let page = self.page_index;
        let ghost keys0 = views(self.seen_media_keys@);
        let ghost seen0 = views(self.seen_aweme_ids@);
        if plan.has_more && plan.next_cursor.is_none() {
            return Err(page_message(page, " 页 has_more=true 但 next_cursor 为空"));
        }
        let n = plan.items.len();
        if n == 0 && plan.page_aweme_ids.len() == 0 {
            if plan.has_more {
                return Err(
                    page_message(page, " 页 items 与 page_aweme_ids 为空但 has_more=true (重复 cursor 或协议错误)"),
                );
            }
            return Ok(PageWork::Stop);
        }
        let ghost items = plan.items@;
        let ghost ids = views(plan.page_aweme_ids@);
        let mut i: usize = 0;
        while i < n
            invariant
                n == items.len(),
                !(plan.has_more && plan.next_cursor is None),
                keys0 == views(old(self).seen_media_keys@),
                seen0 == views(old(self).seen_aweme_ids@),
                page == old(self).page_index,
                items == plan.items@,
                ids == views(plan.page_aweme_ids@),
                i <= n,
                items_check(items, ids, keys0, page, 0) == items_check(
                    items,
                    ids,
                    views(self.seen_media_keys@),
                    page,
                    i as int,
                ),
                self.page_index == page,
                self.cursor == old(self).cursor,
                self.page_counts == old(self).page_counts,
                self.max_counts == old(self).max_counts,
                self.save_dir == old(self).save_dir,
                self.seen_cursors@ == old(self).seen_cursors@,
                self.seen_aweme_ids@ == old(self).seen_aweme_ids@,
                self.total_completed == old(self).total_completed,
                self.total_failed == old(self).total_failed,
            decreases n - i,
        {
            let it = &plan.items[i];
            proof {
                assert(items[i as int] == *it);
            }
            if !has_string(&plan.page_aweme_ids, it.aweme_id.as_str()) {
                let rest = concat(" 页媒体 ", it.media_key.as_str());
                let rest2 = concat(rest.as_str(), " 不属于 page_aweme_ids");
                return Err(page_message(page, rest2.as_str()));
            }
            match it.media_index() {
                Ok(_) => {},
                Err(m) => {
                    return Err(m);
                },
            }
            if has_string(&self.seen_media_keys, it.media_key.as_str()) {
                return Err(concat("跨页重复 media_key: ", it.media_key.as_str()));
            }
            let ghost before = views(self.seen_media_keys@);
            self.seen_media_keys.push(it.media_key.clone());
            proof {
                assert(views(self.seen_media_keys@) =~= before.push(it.media_key@));
            }
            i = i + 1;
        }
        let ghost seen_start = views(self.seen_aweme_ids@);
        let ghost keys1 = views(self.seen_media_keys@);
        let ghost goal = allow_ids(ids, seen_start, Seq::empty(), self.max_counts, 0);
        let mut allowed: Vec<String> = Vec::new();
        let m = plan.page_aweme_ids.len();
        let mut j: usize = 0;
        let mut stop = false;
        proof {
            assert(views(allowed@) =~= Seq::<Seq<char>>::empty());
        }
        while j < m && !stop
            invariant
                m == ids.len(),
                ids == views(plan.page_aweme_ids@),
                j <= m,
                goal == (if stop {
                    (views(self.seen_aweme_ids@), views(allowed@))
                } else {
                    allow_ids(ids, views(self.seen_aweme_ids@), views(allowed@), self.max_counts, j as int)
                }),
                views(self.seen_media_keys@) == keys1,
                self.page_index == page,
                self.cursor == old(self).cursor,
                self.page_counts == old(self).page_counts,
                self.max_counts == old(self).max_counts,
                self.save_dir == old(self).save_dir,
                self.seen_cursors@ == old(self).seen_cursors@,
                self.total_completed == old(self).total_completed,
                self.total_failed == old(self).total_failed,
                page == old(self).page_index,
            decreases m - j + (if stop { 0int } else { 1int }),
        {
            let id = plan.page_aweme_ids[j].as_str();
            proof {
                assert(ids[j as int] == id@);
            }
            if has_string(&self.seen_aweme_ids, id) {
                let ghost before = views(allowed@);
                allowed.push(to_owned_string(id));
                proof {
                    assert(views(allowed@) =~= before.push(id@));
                }
            } else if self.max_counts != 0 && self.seen_aweme_ids.len() >= self.max_counts {
                stop = true;
            } else {
                let ghost before = views(allowed@);
                let ghost before_seen = views(self.seen_aweme_ids@);
                self.seen_aweme_ids.push(to_owned_string(id));
                allowed.push(to_owned_string(id));
                proof {
                    assert(views(allowed@) =~= before.push(id@));
                    assert(views(self.seen_aweme_ids@) =~= before_seen.push(id@));
                }
            }
            if !stop {
                j = j + 1;
            }
        }
        let ghost allowed_v = views(allowed@);
        proof {
            assert(goal == (views(self.seen_aweme_ids@), allowed_v));
        }
        let mut chosen: Vec<usize> = Vec::new();
        let mut k: usize = n;
        proof {
            assert(chosen@.map_values(|x: usize| x as int) =~= allowed_indices(items, allowed_v, k as int));
        }
        while k > 0
            invariant
                n == items.len(),
                items == plan.items@,
                allowed_v == views(allowed@),
                k <= n,
                chosen@.map_values(|x: usize| x as int) == allowed_indices(items, allowed_v, k as int),
            decreases k,
        {
            k = k - 1;
            if has_string(&allowed, plan.items[k].aweme_id.as_str()) {
                let ghost before = chosen@.map_values(|x: usize| x as int);
                chosen.insert(0, k);
                proof {
                    assert(chosen@.map_values(|x: usize| x as int) =~= seq![k as int] + before);
                }
            }
        }
        if chosen.len() == 0 && self.max_counts != 0 && self.seen_aweme_ids.len() >= self.max_counts {
            return Ok(PageWork::Stop);
        }
        Ok(PageWork::Run(chosen))
    }

    /// Adds a page's results to the totals and decides whether paging goes
    /// on: `Ok(true)` moves to the page's next cursor.
    pub fn after_page(&mut self, completed: i64, failed: i64, plan: &PagedDownloadPlanV1) -> (res: Result<
        bool,
        String,
    >)
        ensures
            final(self).total_completed == sat_add_i64(old(self).total_completed, completed),
            final(self).total_failed == sat_add_i64(old(self).total_failed, failed),
            match after_page_spec(
                old(self).page_index,
                old(self).max_counts,
                old(self).seen_aweme_ids@.len(),
                old(self).seen_cursors@,
                *plan,
            ) {
                Err(m) => res matches Err(e) && e@ == m && final(self).cursor == old(self).cursor
                    && final(self).seen_cursors@ == old(self).seen_cursors@,
                Ok(None) => res matches Ok(false) && final(self).cursor == old(self).cursor
                    && final(self).seen_cursors@ == old(self).seen_cursors@,
                Ok(Some(next)) => res matches Ok(true) && final(self).cursor == next
                    && final(self).seen_cursors@ == old(self).seen_cursors@.push(next),
            },
            final(self).page_index == old(self).page_index,
            final(self).page_counts == old(self).page_counts,
            final(self).max_counts == old(self).max_counts,
            final(self).save_dir == old(self).save_dir,
            final(self).seen_media_keys@ == old(self).seen_media_keys@,
            final(self).seen_aweme_ids@ == old(self).seen_aweme_ids@,
    {
        self.total_completed = add_sat(self.total_completed, completed);
        self.total_failed = add_sat(self.total_failed, failed);
        if self.max_counts != 0 && self.seen_aweme_ids.len() >= self.max_counts {
            return Ok(false);
        }
        if !plan.has_more {
            return Ok(false);
        }
        let next = match plan.next_cursor {
            Some(c) => c,
            None => {
                return Err(page_message(self.page_index, " 页 has_more=true 但 next_cursor 为空"));
            },
        };
        if has_cursor(&self.seen_cursors, next) {
            let t = i64_text(next);
            let rest = concat(" 页 next_cursor 重复: ", t.as_str());
            return Err(page_message(self.page_index, rest.as_str()));
        }
        self.seen_cursors.push(next);
        self.cursor = next;
        Ok(true)
    }

    /// How the run ends once paging stopped.
    pub fn final_result(&self) -> (res: Result<(), String>)
        ensures
            match paged_final_spec(self.total_completed, self.total_failed) {
                Ok(()) => res is Ok,
                Err(m) => res matches Err(e) && e@ == m,
            },
    {
        if self.total_completed == 0 && self.total_failed == 0 {
            return Err(to_owned_string("未发现可下载媒体"));
        }
        if self.total_failed > 0 && self.total_completed == 0 {
            let mut s = to_owned_string("所有下载均失败: ");
            s.append(i64_text(self.total_failed).as_str());
            s.append("/");
            s.append(i64_text(add_sat(self.total_failed, self.total_completed)).as_str());
            s.append(" failed");
            return Err(s);
        }
        Ok(())
    }
}

} // verus!

verus! {

/// Media keys never repeat across the pages of a run: checking a page
/// only accepts keys not seen before, so distinct keys stay distinct, and
/// the keys seen before are kept.
pub proof fn lemma_items_check_keeps_keys_distinct(
    items: Seq<MediaDownloadItemV1>,
    ids: Seq<Seq<char>>,
    keys: Seq<Seq<char>>,
    page: i64,
    i: int,
)
    requires
        keys.no_duplicates(),
    ensures
        items_check(items, ids, keys, page, i) matches Ok(k2) ==> k2.no_duplicates() && keys.len() <= k2.len()
            && k2.subrange(0, keys.len() as int) == keys,
    decreases items.len() - i,
{
    if 0 <= i < items.len() {
        let it = items[i];
        if ids.contains(it.aweme_id@) && media_index_spec(it) is Ok && !keys.contains(it.media_key@) {
            let k1 = keys.push(it.media_key@);
            assert forall|a: int, b: int| 0 <= a < b < k1.len() implies k1[a] != k1[b] by {
                if b == keys.len() {
                    assert(keys.contains(keys[a]));
                }
            }
            lemma_items_check_keeps_keys_distinct(items, ids, k1, page, i + 1);
            if items_check(items, ids, k1, page, i + 1) is Ok {
                let k2 = items_check(items, ids, k1, page, i + 1)->Ok_0;
                assert(k2.subrange(0, keys.len() as int) =~= k1.subrange(0, keys.len() as int));
                assert(k1.subrange(0, keys.len() as int) =~= keys);
            }
        }
    }
}

/// The works taken never exceed the limit: with a limit, a run that is
/// within it stays within it after a page, and works already taken stay.
pub proof fn lemma_allow_ids_within_limit(
    ids: Seq<Seq<char>>,
    seen: Seq<Seq<char>>,
    allowed: Seq<Seq<char>>,
    max_counts: usize,
    j: int,
)
    requires
        max_counts != 0 ==> seen.len() <= max_counts,
        seen.no_duplicates(),
    ensures
        max_counts != 0 ==> allow_ids(ids, seen, allowed, max_counts, j).0.len() <= max_counts,
        allow_ids(ids, seen, allowed, max_counts, j).0.no_duplicates(),
        seen.len() <= allow_ids(ids, seen, allowed, max_counts, j).0.len(),
    decreases ids.len() - j,
{
    if 0 <= j < ids.len() {
        if seen.contains(ids[j]) {
            lemma_allow_ids_within_limit(ids, seen, allowed.push(ids[j]), max_counts, j + 1);
        } else if max_counts != 0 && seen.len() >= max_counts {
        } else {
            let s1 = seen.push(ids[j]);
            assert forall|a: int, b: int| 0 <= a < b < s1.len() implies s1[a] != s1[b] by {
                if b == seen.len() {
                    assert(seen.contains(seen[a]));
                }
            }
            lemma_allow_ids_within_limit(ids, s1, allowed.push(ids[j]), max_counts, j + 1);
        }
    }
}

/// Paging never returns to a cursor: the next cursor it moves to is one
/// not seen in this run.
pub proof fn lemma_next_cursor_is_new(
    page: i64,
    max_counts: usize,
    seen_ids: nat,
    seen_cursors: Seq<i64>,
    plan: PagedDownloadPlanV1,
)
    ensures
        after_page_spec(page, max_counts, seen_ids, seen_cursors, plan) matches Ok(Some(next)) ==> !seen_cursors.contains(
            next,
        ),
{
}

/// A request never asks for more works than the limit still allows.
pub proof fn lemma_request_within_limit(page_counts: i64, max_counts: usize, seen: nat)
    requires
        page_counts >= 0,
    ensures
        request_count_spec(page_counts, max_counts, seen) matches Some(n) ==> n <= page_counts && (max_counts
            != 0 ==> n <= max_counts - seen),
{
}

/// How a paged run ends: with at least one completed download it succeeds,
/// whatever failed; it reports that all downloads failed only when nothing
/// completed and something failed; and it reports that no media was found
/// only when nothing completed or failed.
pub proof fn lemma_paged_final_outcome(completed: i64, failed: i64)
    requires
        completed >= 0,
        failed >= 0,
    ensures
        completed > 0 ==> paged_final_spec(completed, failed) is Ok,
        paged_final_spec(completed, failed) is Err <==> completed == 0,
        completed == 0 && failed == 0 ==> paged_final_spec(completed, failed) == Err::<(), Seq<char>>(
            "未发现可下载媒体"@,
        ),
        completed == 0 && failed > 0 ==> paged_final_spec(completed, failed) == Err::<(), Seq<char>>(
            "所有下载均失败: "@ + spec_i64_text(failed) + "/"@ + spec_i64_text(failed) + " failed"@,
        ),
{
    assert(sat_add_i64(failed, 0) == failed);
}

} // verus!
