//! Selection state for a paged download restricted to explicit work ids.
//!
//! Tracks which requested ids were seen in a page and which produced media,
//! and classifies the ids that end up missing or unavailable.

use vstd::prelude::*;
use vstd::string::*;
use crate::text::{
    join_spec, join_strings, join_strs, spec_trim, str_eq, str_views, to_owned_string, trim_owned,
    views,
};

verus! {

/// Normalised request list: every raw id trimmed, empty ids dropped, and
/// only the first occurrence of each id kept, in input order.
pub open spec fn normalize_spec(raw: Seq<Seq<char>>) -> Seq<Seq<char>>
    decreases raw.len(),
{
    if raw.len() == 0 {
        Seq::empty()
    } else {
        let prev = normalize_spec(raw.drop_last());
        let t = spec_trim(raw.last());
        if t.len() == 0 || prev.contains(t) {
            prev
        } else {
            prev.push(t)
        }
    }
}

/// The ids of `ids` whose flag is set.
pub open spec fn flag_set(ids: Seq<Seq<char>>, flags: Seq<bool>) -> Set<Seq<char>> {
    Set::new(|id: Seq<char>| exists|k: int| 0 <= k < ids.len() && k < flags.len() && flags[k] && ids[k] == id)
}

/// The ids of `ids` that belong to `members`, in the order of `ids`.
pub open spec fn ordered_in(ids: Seq<Seq<char>>, members: Set<Seq<char>>) -> Seq<Seq<char>> {
    ids.filter(|id: Seq<char>| members.contains(id))
}

/// The ids of `ids` that do not belong to `members`, in the order of `ids`.
pub open spec fn ordered_not_in(ids: Seq<Seq<char>>, members: Set<Seq<char>>) -> Seq<Seq<char>> {
    ids.filter(|id: Seq<char>| !members.contains(id))
}

/// The ids that were seen but never planned, in request order.
pub open spec fn unavailable_spec(
    requested: Seq<Seq<char>>,
    seen: Set<Seq<char>>,
    planned: Set<Seq<char>>,
) -> Seq<Seq<char>> {
    requested.filter(|id: Seq<char>| seen.contains(id) && !planned.contains(id))
}

/// Text of the selection summary for the given missing and unavailable ids.
pub open spec fn summary_spec(missing: Seq<Seq<char>>, unavailable: Seq<Seq<char>>) -> Option<Seq<char>> {
    if missing.len() == 0 && unavailable.len() == 0 {
        None
    } else {
        let m = if missing.len() != 0 {
            seq!["missing_aweme_ids=["@ + join_spec(missing, ","@) + "]"@]
        } else {
            Seq::empty()
        };
        let u = if unavailable.len() != 0 {
            seq!["unavailable_aweme_ids=["@ + join_spec(unavailable, ","@) + "]"@]
        } else {
            Seq::empty()
        };
        Some(join_spec(m + u, "; "@))
    }
}

/// Text of a message extended with the selection state.
pub open spec fn contextualize_spec(
    message: Seq<char>,
    requested: Seq<Seq<char>>,
    seen: Seq<Seq<char>>,
    planned: Seq<Seq<char>>,
) -> Seq<char> {
    message + "; selection_state requested=["@ + join_spec(requested, ","@) + "]; seen=["@
        + join_spec(seen, ","@) + "]; planned=["@ + join_spec(planned, ","@) + "]"@
}

/// Items whose id is kept by `keep`, in their original order.
pub open spec fn filter_by_keys<T>(items: Seq<T>, keys: Seq<Seq<char>>, keep: spec_fn(Seq<char>) -> bool) -> Seq<T>
    decreases items.len(),
{
    if items.len() == 0 || keys.len() != items.len() {
        Seq::empty()
    } else {
        let prev = filter_by_keys(items.drop_last(), keys.drop_last(), keep);
        if keep(keys.last()) {
            prev.push(items.last())
        } else {
            prev
        }
    }
}

/// Selection state for a paged download with optional explicit work ids.
///
/// When no id is requested the tracker is inactive (full download).
#[derive(Debug)]
pub struct SelectionTracker {
    /// Normalised, deduplicated requested ids in first-occurrence order.
    requested: Vec<String>,
    /// `seen[k]`: `requested[k]` appeared in at least one page.
    seen: Vec<bool>,
    /// `planned[k]`: `requested[k]` produced at least one media item.
    planned: Vec<bool>,
}

/// Whether every id of the sequence is non-empty and already trimmed.
pub open spec fn all_clean(ids: Seq<Seq<char>>) -> bool {
    forall|k: int| #![trigger ids[k]] 0 <= k < ids.len() ==> ids[k].len() > 0 && spec_trim(ids[k]) == ids[k]
}

impl SelectionTracker {
    #[verifier::type_invariant]
    spec fn inv(self) -> bool {
        &&& self.seen@.len() == self.requested@.len()
        &&& self.planned@.len() == self.requested@.len()
        &&& views(self.requested@).no_duplicates()
        &&& all_clean(views(self.requested@))
    }

    /// The requested ids, in order.
    pub closed spec fn requested_ids(&self) -> Seq<Seq<char>> {
        views(self.requested@)
    }

    /// The requested ids that have been seen in a page.
    pub closed spec fn seen_ids(&self) -> Set<Seq<char>> {
        flag_set(views(self.requested@), self.seen@)
    }

    /// The requested ids that have produced media.
    pub closed spec fn planned_ids(&self) -> Set<Seq<char>> {
        flag_set(views(self.requested@), self.planned@)
    }

    /// Builds a tracker from raw user-supplied ids: each is trimmed, empty
    /// ones are dropped and repeats are removed, keeping first-occurrence
    /// order. Nothing is seen or planned yet.
    pub fn new(raw: Vec<String>) -> (res: Self)
        ensures
            res.requested_ids() == normalize_spec(views(raw@)),
            res.seen_ids() == Set::<Seq<char>>::empty(),
            res.planned_ids() == Set::<Seq<char>>::empty(),
            res.requested_ids().no_duplicates(),
            all_clean(res.requested_ids()),
    {
        let requested = Self::normalize(raw);
        let n = requested.len();
        let mut seen: Vec<bool> = Vec::new();
        let mut planned: Vec<bool> = Vec::new();
        let mut i: usize = 0;
        while i < n
            invariant
                n == requested.len(),
                i <= n,
                seen@.len() == i,
                planned@.len() == i,
                forall|k: int| 0 <= k < i ==> !seen@[k] && !planned@[k],
            decreases n - i,
        {
            seen.push(false);
            planned.push(false);
            i = i + 1;
        }
        proof {
            lemma_normalize_distinct(views(raw@));
        }
        let res = SelectionTracker { requested, seen, planned };
        assert(res.seen_ids() =~= Set::<Seq<char>>::empty());
        assert(res.planned_ids() =~= Set::<Seq<char>>::empty());
        res
    }

    /// Whether a selection is active (some id was requested).
    pub fn is_active(&self) -> (res: bool)
        ensures
            res == (self.requested_ids().len() > 0),
    {
        self.requested.len() > 0
    }

    /// The normalised requested ids, in order.
    pub fn requested(&self) -> (res: &[String])
        ensures
            views(res@) == self.requested_ids(),
            self.requested_ids().no_duplicates(),
            all_clean(self.requested_ids()),
    {
        proof {
            use_type_invariant(self);
        }
        self.requested.as_slice()
    }

    /// Number of requested ids seen so far.
    pub fn seen_count(&self) -> (res: usize)
        ensures
            res == ordered_in(self.requested_ids(), self.seen_ids()).len(),
    {
        let seen = self.ordered_members(false);
        seen.len()
    }

    /// Position of `id` among the requested ids.
    fn position(&self, id: &str) -> (res: Option<usize>)
        ensures
            match res {
                Some(k) => k < self.requested@.len() && self.requested_ids()[k as int] == id@,
                None => !self.requested_ids().contains(id@),
            },
    {
        let mut i: usize = 0;
        while i < self.requested.len()
            invariant
                i <= self.requested@.len(),
                forall|k: int| 0 <= k < i ==> views(self.requested@)[k] != id@,
            decreases self.requested@.len() - i,
        {
            if str_eq(self.requested[i].as_str(), id) {
                return Some(i);
            }
            i = i + 1;
        }
        None
    }

    /// Records the ids of a page; ids that were not requested are ignored.
    pub fn mark_seen(&mut self, page_aweme_ids: &[String])
        ensures
            final(self).requested_ids() == old(self).requested_ids(),
            final(self).planned_ids() == old(self).planned_ids(),
            final(self).seen_ids() == old(self).seen_ids().union(
                views(page_aweme_ids@).to_set().intersect(old(self).requested_ids().to_set()),
            ),
    {
        proof {
            use_type_invariant(&*self);
        }
        let ghost old_seen = self.seen@;
        let ghost ids = views(self.requested@);
        let mut i: usize = 0;
        while i < page_aweme_ids.len()
            invariant
                ids == views(self.requested@),
                self.seen@.len() == ids.len(),
                self.planned@.len() == ids.len(),
                ids.no_duplicates(),
                all_clean(ids),
                self.planned@ == old(self).planned@,
                self.requested@ == old(self).requested@,
                old_seen == old(self).seen@,
                i <= page_aweme_ids@.len(),
                forall|k: int| 0 <= k < ids.len() ==> #[trigger] self.seen@[k] == (old_seen[k]
                    || views(page_aweme_ids@).take(i as int).contains(ids[k])),
            decreases page_aweme_ids@.len() - i,
        {
            let pos = self.position(page_aweme_ids[i].as_str());
            let ghost page = views(page_aweme_ids@);
            proof {
                let p0 = page.take(i as int);
                let p1 = page.take(i + 1);
                assert(p1 =~= p0.push(page[i as int]));
                assert forall|k: int| 0 <= k < ids.len() implies (p1.contains(ids[k]) <==> (
                p0.contains(ids[k]) || page[i as int] == ids[k])) by {
                    if p1.contains(ids[k]) {
                        let j = choose|j: int| 0 <= j < p1.len() && p1[j] == ids[k];
                        if j < i {
                            assert(p0[j] == ids[k]);
                        }
                    }
                    if p0.contains(ids[k]) {
                        let j = choose|j: int| 0 <= j < p0.len() && p0[j] == ids[k];
                        assert(p1[j] == ids[k]);
                    }
                    if page[i as int] == ids[k] {
                        assert(p1[i as int] == ids[k]);
                    }
                }
            }
            match pos {
                Some(k) => {
                    self.seen = with_flag(&self.seen, k);
                },
                None => {},
            }
            i = i + 1;
        }
        proof {
            let page = views(page_aweme_ids@);
            assert(page.take(i as int) =~= page);
            let lhs = flag_set(ids, self.seen@);
            let rhs = flag_set(ids, old_seen).union(page.to_set().intersect(ids.to_set()));
            assert forall|id| lhs.contains(id) <==> rhs.contains(id) by {
                if lhs.contains(id) {
                    let k = choose|k: int| 0 <= k < ids.len() && k < self.seen@.len() && self.seen@[k] && ids[k] == id;
                    if !old_seen[k] {
                        assert(page.contains(id));
                        assert(ids.to_set().contains(id));
                    }
                }
                if rhs.contains(id) {
                    if flag_set(ids, old_seen).contains(id) {
                        let k = choose|k: int| 0 <= k < ids.len() && k < old_seen.len() && old_seen[k] && ids[k] == id;
                        assert(self.seen@[k]);
                    } else {
                        assert(ids.contains(id));
                        let k = choose|k: int| 0 <= k < ids.len() && ids[k] == id;
                        assert(self.seen@[k]);
                    }
                }
            }
            assert(lhs =~= rhs);
        }
    }

    /// Records that a requested id produced at least one media item; other
    /// ids are ignored.
    pub fn mark_planned(&mut self, aweme_id: &str)
        ensures
            final(self).requested_ids() == old(self).requested_ids(),
            final(self).seen_ids() == old(self).seen_ids(),
            final(self).planned_ids() == (if old(self).requested_ids().contains(aweme_id@) {
                old(self).planned_ids().insert(aweme_id@)
            } else {
                old(self).planned_ids()
            }),
    {
        proof {
            use_type_invariant(&*self);
        }
        let ghost ids = views(self.requested@);
        let ghost old_planned = self.planned@;
        match self.position(aweme_id) {
            Some(k) => {
                self.planned = with_flag(&self.planned, k);
                proof {
                    assert(flag_set(ids, self.planned@) =~= flag_set(ids, old_planned).insert(aweme_id@));
                }
            },
            None => {},
        }
    }

    /// Keeps the complete media groups of requested works that have not yet
    /// produced a plan on an earlier page, and marks those works planned.
    /// When no selection is active the items are returned unchanged.
    pub fn take_unplanned_items<T>(&mut self, items: Vec<T>, get_aweme_id: &impl Fn(&T) -> &str) -> (res: Vec<T>)
        requires
            forall|t: &T| #[trigger] get_aweme_id.requires((t,)),
        ensures
            final(self).requested_ids() == old(self).requested_ids(),
            final(self).seen_ids() == old(self).seen_ids(),
            !old(self).is_active_spec() ==> res@ == items@ && final(self).planned_ids() == old(self).planned_ids(),
            old(self).is_active_spec() ==> exists|keys: Seq<Seq<char>>| {
                &&& keys.len() == items@.len()
                &&& forall|i: int| 0 <= i < keys.len() ==> gives_key(*get_aweme_id, items@[i], #[trigger] keys[i])
                &&& res@ == filter_by_keys(items@, keys, |id: Seq<char>| old(self).requested_ids().contains(id) && !old(self).planned_ids().contains(id))
                &&& final(self).planned_ids() == old(self).planned_ids().union(
                    keys.to_set().intersect(old(self).requested_ids().to_set()))
            },
    {
        if !self.is_active() {
            return items;
        }
        let keys = keys_of(&items, get_aweme_id);
        self.take_unplanned_by_keys(items, keys)
    }

    /// Keeps the items whose key is requested and not yet planned, then
    /// marks every requested key of the page planned.
    fn take_unplanned_by_keys<T>(&mut self, items: Vec<T>, keys: Vec<String>) -> (res: Vec<T>)
        requires
            keys@.len() == items@.len(),
        ensures
            final(self).requested_ids() == old(self).requested_ids(),
            final(self).seen_ids() == old(self).seen_ids(),
            res@ == filter_by_keys(items@, views(keys@), |id: Seq<char>| old(self).requested_ids().contains(id) && !old(self).planned_ids().contains(id)),
            final(self).planned_ids() == old(self).planned_ids().union(
                views(keys@).to_set().intersect(old(self).requested_ids().to_set())),
    {
        proof {
            use_type_invariant(&*self);
        }
        let ghost ids = views(self.requested@);
        let ghost old_planned = self.planned@;
        let ghost old_items = items@;
        let ghost all_keys = views(keys@);
        let ghost keep = |id: Seq<char>| ids.contains(id) && !flag_set(ids, old_planned).contains(id);
        let mut items = items;
        let mut kept: Vec<T> = Vec::new();
        let mut newly: Vec<usize> = Vec::new();
        let mut i: usize = 0;
        let n = items.len();
        while i < n
            invariant
                n == old_items.len(),
                n == keys@.len(),
                all_keys == views(keys@),
                i <= n,
                items@ == old_items.skip(i as int),
                kept@ == filter_by_keys(old_items.take(i as int), all_keys.take(i as int), keep),
                keep == (|id: Seq<char>| ids.contains(id) && !flag_set(ids, old_planned).contains(id)),
                ids == views(self.requested@),
                self.requested@ == old(self).requested@,
                self.seen@ == old(self).seen@,
                self.planned@ == old_planned,
                old_planned == old(self).planned@,
                ids.len() == old_planned.len(),
                ids.no_duplicates(),
                all_clean(ids),
                forall|j: int| 0 <= j < newly@.len() ==> #[trigger] newly@[j] < ids.len(),
                forall|j: int| 0 <= j < newly@.len() ==> all_keys.take(i as int).contains(#[trigger] ids[newly@[j] as int]),
                forall|j: int| 0 <= j < i && ids.contains(#[trigger] all_keys[j]) ==> exists|q: int| 0 <= q < newly@.len() && #[trigger] ids[newly@[q] as int] == all_keys[j],
            decreases n - i,
        {
            let item = items.remove(0);
            proof {
                assert(item == old_items[i as int]);
                assert(old_items.take(i + 1).drop_last() =~= old_items.take(i as int));
                assert(all_keys.take(i + 1).drop_last() =~= all_keys.take(i as int));
                assert(all_keys.take(i + 1).last() == all_keys[i as int]);
                assert forall|x| all_keys.take(i as int).contains(x) implies all_keys.take(i + 1).contains(x) by {
                    let j = choose|j: int| 0 <= j < i && all_keys.take(i as int)[j] == x;
                    assert(all_keys.take(i + 1)[j] == x);
                }
                assert(all_keys.take(i + 1)[i as int] == all_keys[i as int]);
            }
            let ghost old_newly = newly@;
            let ghost old_kept = kept@;
            let pos = self.position(keys[i].as_str());
            match pos {
                Some(k) => {
                    proof {
                        lemma_flag_set_index(ids, old_planned, k as int);
                        assert(ids.contains(ids[k as int]));
                    }
                    if !self.planned[k] {
                        kept.push(item);
                    }
                    newly.push(k);
                    proof {
                        assert(newly@[old_newly.len() as int] == k);
                        assert(ids[newly@[old_newly.len() as int] as int] == all_keys[i as int]);
                    }
                },
                None => {},
            }
            proof {
                let a = old_items.take(i + 1);
                let b = all_keys.take(i + 1);
                assert(a.last() == old_items[i as int]);
                assert(b.last() == all_keys[i as int]);
                assert(filter_by_keys(a, b, keep) == (if keep(b.last()) {
                    filter_by_keys(a.drop_last(), b.drop_last(), keep).push(a.last())
                } else {
                    filter_by_keys(a.drop_last(), b.drop_last(), keep)
                }));
                assert(filter_by_keys(a.drop_last(), b.drop_last(), keep) == old_kept);
                match pos {
                    Some(k) => {
                        lemma_flag_set_index(ids, old_planned, k as int);
                        assert(ids[k as int] == all_keys[i as int]);
                        assert(ids.contains(all_keys[i as int]));
                        assert(flag_set(ids, old_planned).contains(all_keys[i as int]) == old_planned[k as int]);
                        assert(keep(all_keys[i as int]) == !old_planned[k as int]);
                    },
                    None => {
                        assert(all_keys[i as int] == keys@[i as int]@);
                        assert(!ids.contains(all_keys[i as int]));
                        assert(!keep(all_keys[i as int]));
                    },
                }
                assert(kept@ == filter_by_keys(a, b, keep));
                assert forall|j: int| 0 <= j < i + 1 && ids.contains(#[trigger] all_keys[j]) implies exists|q: int| 0 <= q < newly@.len() && #[trigger] ids[newly@[q] as int] == all_keys[j] by {
                    if j < i {
                        let q = choose|q: int| 0 <= q < old_newly.len() && #[trigger] ids[old_newly[q] as int] == all_keys[j];
                        assert(newly@[q] == old_newly[q]);
                        assert(ids[newly@[q] as int] == all_keys[j]);
                    } else {
                        assert(ids[newly@[old_newly.len() as int] as int] == all_keys[i as int]);
                    }
                }
            }
            i = i + 1;
        }
        proof {
            assert(old_items.take(n as int) =~= old_items);
            assert(all_keys.take(n as int) =~= all_keys);
        }
        let mut q: usize = 0;
        while q < newly.len()
            invariant
                ids == views(self.requested@),
                self.requested@ == old(self).requested@,
                self.seen@ == old(self).seen@,
                self.planned@.len() == ids.len(),
                self.seen@.len() == ids.len(),
                ids.no_duplicates(),
                all_clean(ids),
                ids.len() == old_planned.len(),
                q <= newly@.len(),
                forall|j: int| 0 <= j < newly@.len() ==> #[trigger] newly@[j] < ids.len(),
                forall|k: int| 0 <= k < ids.len() ==> #[trigger] self.planned@[k] == (old_planned[k]
                    || exists|j: int| 0 <= j < q && newly@[j] == k),
            decreases newly@.len() - q,
        {
            let k = newly[q];
            self.planned = with_flag(&self.planned, k);
            proof {
                assert forall|k2: int| 0 <= k2 < ids.len() implies #[trigger] self.planned@[k2] == (old_planned[k2]
                    || exists|j: int| 0 <= j < q + 1 && newly@[j] == k2) by {
                    if k2 == k {
                        assert(newly@[q as int] == k2);
                    } else if exists|j: int| 0 <= j < q + 1 && newly@[j] == k2 {
                        let j = choose|j: int| 0 <= j < q + 1 && newly@[j] == k2;
                        assert(j != q);
                    }
                }
            }
            q = q + 1;
        }
        proof {
            let lhs = flag_set(ids, self.planned@);
            let rhs = flag_set(ids, old_planned).union(all_keys.to_set().intersect(ids.to_set()));
            assert forall|id| lhs.contains(id) <==> rhs.contains(id) by {
                if lhs.contains(id) {
                    let k = choose|k: int| 0 <= k < ids.len() && k < self.planned@.len() && self.planned@[k] && ids[k] == id;
                    if !old_planned[k] {
                        let j = choose|j: int| 0 <= j < q && newly@[j] == k;
                        assert(all_keys.contains(ids[newly@[j] as int]));
                        assert(ids.to_set().contains(id));
                    }
                }
                if rhs.contains(id) {
                    if flag_set(ids, old_planned).contains(id) {
                        let k = choose|k: int| 0 <= k < ids.len() && k < old_planned.len() && old_planned[k] && ids[k] == id;
                        assert(self.planned@[k]);
                    } else {
                        let j = choose|j: int| 0 <= j < all_keys.len() && all_keys[j] == id;
                        assert(ids.contains(all_keys[j]));
                        let qq = choose|qq: int| 0 <= qq < newly@.len() && #[trigger] ids[newly@[qq] as int] == all_keys[j];
                        let k = newly@[qq] as int;
                        assert(self.planned@[k]);
                    }
                }
            }
            assert(lhs =~= rhs);
            let keep2 = |id: Seq<char>| old(self).requested_ids().contains(id) && !old(self).planned_ids().contains(id);
            assert(keep =~= keep2);
        }
        kept
    }

    /// Spec form of `is_active`.
    pub open spec fn is_active_spec(&self) -> bool {
        self.requested_ids().len() > 0
    }

    /// Whether every requested id has been seen in some page.
    pub fn all_seen(&self) -> (res: bool)
        ensures
            res == self.requested_ids().to_set().subset_of(self.seen_ids()),
    {
        proof {
            use_type_invariant(self);
        }
        let ghost ids = views(self.requested@);
        let mut i: usize = 0;
        while i < self.seen.len()
            invariant
                ids == views(self.requested@),
                ids.no_duplicates(),
                self.seen@.len() == ids.len(),
                i <= ids.len(),
                forall|k: int| 0 <= k < i ==> self.seen@[k],
            decreases ids.len() - i,
        {
            if !self.seen[i] {
                proof {
                    lemma_flag_set_index(ids, self.seen@, i as int);
                    assert(ids.to_set().contains(ids[i as int]));
                }
                return false;
            }
            i = i + 1;
        }
        proof {
            assert forall|id| ids.to_set().contains(id) implies flag_set(ids, self.seen@).contains(id) by {
                let k = choose|k: int| 0 <= k < ids.len() && ids[k] == id;
                assert(self.seen@[k]);
            }
        }
        true
    }

    /// Whether every requested id has produced media.
    pub fn all_planned(&self) -> (res: bool)
        ensures
            res == self.requested_ids().to_set().subset_of(self.planned_ids()),
    {
        proof {
            use_type_invariant(self);
        }
        let ghost ids = views(self.requested@);
        let mut i: usize = 0;
        while i < self.planned.len()
            invariant
                ids == views(self.requested@),
                ids.no_duplicates(),
                self.planned@.len() == ids.len(),
                i <= ids.len(),
                forall|k: int| 0 <= k < i ==> self.planned@[k],
            decreases ids.len() - i,
        {
            if !self.planned[i] {
                proof {
                    lemma_flag_set_index(ids, self.planned@, i as int);
                    assert(ids.to_set().contains(ids[i as int]));
                }
                return false;
            }
            i = i + 1;
        }
        proof {
            assert forall|id| ids.to_set().contains(id) implies flag_set(ids, self.planned@).contains(id) by {
                let k = choose|k: int| 0 <= k < ids.len() && ids[k] == id;
                assert(self.planned@[k]);
            }
        }
        true
    }

    /// Requested ids whose seen and planned flags match the wanted values
    /// (`None` accepts either), in request order.
    fn select_ids(&self, pred: Ghost<spec_fn(Seq<char>) -> bool>, want_seen: Option<bool>, want_planned: Option<bool>) -> (res: Vec<&str>)
        requires
            forall|k: int| 0 <= k < self.requested@.len() ==> #[trigger] pred@(self.requested_ids()[k]) == (
                (want_seen matches Some(s) ==> self.seen@[k] == s)
                && (want_planned matches Some(p) ==> self.planned@[k] == p)),
        ensures
            str_views(res@) == self.requested_ids().filter(pred@),
    {
        proof {
            use_type_invariant(self);
        }
        let ghost ids = views(self.requested@);
        proof {
            assert forall|k: int| 0 <= k < self.requested@.len() implies #[trigger] pred@(ids[k]) == (
                (want_seen matches Some(s) ==> self.seen@[k] == s)
                && (want_planned matches Some(p) ==> self.planned@[k] == p)) by {
                assert(pred@(self.requested_ids()[k]) == (
                    (want_seen matches Some(s) ==> self.seen@[k] == s)
                    && (want_planned matches Some(p) ==> self.planned@[k] == p)));
            }
        }
        let mut res: Vec<&str> = Vec::new();
        let mut i: usize = 0;
        while i < self.requested.len()
            invariant
                ids == views(self.requested@),
                self.seen@.len() == ids.len(),
                self.planned@.len() == ids.len(),
                i <= ids.len(),
                forall|k: int| 0 <= k < self.requested@.len() ==> #[trigger] pred@(ids[k]) == (
                    (want_seen matches Some(s) ==> self.seen@[k] == s)
                    && (want_planned matches Some(p) ==> self.planned@[k] == p)),
                str_views(res@) == ids.take(i as int).filter(pred@),
            decreases ids.len() - i,
        {
            proof {
                reveal(Seq::filter);
                assert(ids.take(i + 1).drop_last() =~= ids.take(i as int));
                assert(ids.take(i + 1).last() == ids[i as int]);
                assert(pred@(ids[i as int]) == (
                    (want_seen matches Some(s) ==> self.seen@[i as int] == s)
                    && (want_planned matches Some(p) ==> self.planned@[i as int] == p)));
            }
            let s_ok = match want_seen {
                Some(s) => self.seen[i] == s,
                None => true,
            };
            let p_ok = match want_planned {
                Some(p) => self.planned[i] == p,
                None => true,
            };
            if s_ok && p_ok {
                let ghost before = res@;
                res.push(self.requested[i].as_str());
                proof {
                    assert(str_views(res@) =~= str_views(before).push(ids[i as int]));
                }
            }
            i = i + 1;
        }
        proof {
            assert(ids.take(i as int) =~= ids);
        }
        res
    }

    /// Requested ids never seen in any page, in request order.
    pub fn missing_ids(&self) -> (res: Vec<&str>)
        ensures
            str_views(res@) == ordered_not_in(self.requested_ids(), self.seen_ids()),
    {
        let ghost pred = |id: Seq<char>| !self.seen_ids().contains(id);
        proof {
            use_type_invariant(self);
            let ids = self.requested_ids();
            assert forall|k: int| 0 <= k < self.requested@.len() implies #[trigger] pred(ids[k]) == !self.seen@[k] by {
                lemma_flag_set_index(ids, self.seen@, k);
            }
        }
        self.select_ids(Ghost(pred), Some(false), None)
    }

    /// Requested ids seen but never planned, in request order.
    pub fn unavailable_ids(&self) -> (res: Vec<&str>)
        ensures
            str_views(res@) == unavailable_spec(self.requested_ids(), self.seen_ids(), self.planned_ids()),
    {
        let ghost pred = |id: Seq<char>| self.seen_ids().contains(id) && !self.planned_ids().contains(id);
        proof {
            use_type_invariant(self);
            let ids = self.requested_ids();
            assert forall|k: int| 0 <= k < self.requested@.len() implies #[trigger] pred(ids[k]) == (self.seen@[k] && !self.planned@[k]) by {
                lemma_flag_set_index(ids, self.seen@, k);
                lemma_flag_set_index(ids, self.planned@, k);
            }
        }
        self.select_ids(Ghost(pred), Some(true), Some(false))
    }

    /// Requested ids that were planned (or, with `planned == false`, seen),
    /// in request order.
    fn ordered_members(&self, planned: bool) -> (res: Vec<&str>)
        ensures
            str_views(res@) == ordered_in(self.requested_ids(),
                if planned { self.planned_ids() } else { self.seen_ids() }),
    {
        proof {
            use_type_invariant(self);
        }
        let ghost ids = self.requested_ids();
        if planned {
            let ghost pred = |id: Seq<char>| self.planned_ids().contains(id);
            proof {
                assert forall|k: int| 0 <= k < self.requested@.len() implies #[trigger] pred(ids[k]) == self.planned@[k] by {
                    lemma_flag_set_index(ids, self.planned@, k);
                }
            }
            self.select_ids(Ghost(pred), None, Some(true))
        } else {
            let ghost pred = |id: Seq<char>| self.seen_ids().contains(id);
            proof {
                assert forall|k: int| 0 <= k < self.requested@.len() implies #[trigger] pred(ids[k]) == self.seen@[k] by {
                    lemma_flag_set_index(ids, self.seen@, k);
                }
            }
            self.select_ids(Ghost(pred), Some(true), None)
        }
    }

    /// Selection summary error: `None` when no id is missing or unavailable,
    /// else `missing_aweme_ids=[..]` and/or `unavailable_aweme_ids=[..]`
    /// joined by `"; "`.
    pub fn summary_error(&self) -> (res: Option<String>)
        ensures
            res matches Some(s) ==> summary_spec(
                ordered_not_in(self.requested_ids(), self.seen_ids()),
                unavailable_spec(self.requested_ids(), self.seen_ids(), self.planned_ids()),
            ) == Some(s@),
            res is None <==> summary_spec(
                ordered_not_in(self.requested_ids(), self.seen_ids()),
                unavailable_spec(self.requested_ids(), self.seen_ids(), self.planned_ids()),
            ) is None,
    {
        let missing = self.missing_ids();
        let unavailable = self.unavailable_ids();
        if missing.len() == 0 && unavailable.len() == 0 {
            return None;
        }
        let mut parts: Vec<String> = Vec::new();
        if missing.len() != 0 {
            let mut part = String::from_str("missing_aweme_ids=[");
            let joined = join_strs(&missing, ",");
            part.append(joined.as_str());
            part.append("]");
            parts.push(part);
        }
        if unavailable.len() != 0 {
            let mut part = String::from_str("unavailable_aweme_ids=[");
            let joined = join_strs(&unavailable, ",");
            part.append(joined.as_str());
            part.append("]");
            parts.push(part);
        }
        let res = join_strings(&parts, "; ");
        proof {
            let m = str_views(missing@);
            let u = str_views(unavailable@);
            let mp = if m.len() != 0 { seq!["missing_aweme_ids=["@ + join_spec(m, ","@) + "]"@] } else { Seq::empty() };
            let up = if u.len() != 0 { seq!["unavailable_aweme_ids=["@ + join_spec(u, ","@) + "]"@] } else { Seq::empty() };
            assert(views(parts@) =~= mp + up);
        }
        Some(res)
    }

    /// Appends the ordered selection state to a page or protocol error; an
    /// inactive tracker returns the message unchanged.
    pub fn contextualize(&self, message: String) -> (res: String)
        ensures
            !self.is_active_spec() ==> res@ == message@,
            self.is_active_spec() ==> res@ == contextualize_spec(
                message@,
                self.requested_ids(),
                ordered_in(self.requested_ids(), self.seen_ids()),
                ordered_in(self.requested_ids(), self.planned_ids()),
            ),
    {
        if !self.is_active() {
            return message;
        }
        let seen = self.ordered_members(false);
        let planned = self.ordered_members(true);
        let mut res = message;
        res.append("; selection_state requested=[");
        let req = join_strings(&self.requested, ",");
        res.append(req.as_str());
        res.append("]; seen=[");
        let s = join_strs(&seen, ",");
        res.append(s.as_str());
        res.append("]; planned=[");
        let p = join_strs(&planned, ",");
        res.append(p.as_str());
        res.append("]");
        res
    }

    /// Normalises raw ids: trims each, drops empty ones and keeps only the
    /// first occurrence of every id.
    fn normalize(raw: Vec<String>) -> (res: Vec<String>)
        ensures
            views(res@) == normalize_spec(views(raw@)),
            all_clean(views(res@)),
    {
        let mut result: Vec<String> = Vec::new();
        let ghost all = views(raw@);
        let mut i: usize = 0;
        while i < raw.len()
            invariant
                all == views(raw@),
                i <= raw.len(),
                views(result@) == normalize_spec(all.take(i as int)),
                all_clean(views(result@)),
            decreases raw.len() - i,
        {
            let trimmed = trim_owned(raw[i].as_str());
            proof {
                assert(all.take(i + 1).drop_last() =~= all.take(i as int));
                assert(all.take(i + 1).last() == all[i as int]);
            }
            if trimmed.as_str().unicode_len() == 0 || contains_string(&result, trimmed.as_str()) {
            } else {
                let ghost before = views(result@);
                let ghost t = trimmed@;
                result.push(trimmed);
                proof {
                    assert(views(result@) =~= before.push(t));
                    assert(t.len() > 0);
                    assert forall|k: int| #![trigger views(result@)[k]] 0 <= k < views(result@).len() implies spec_trim(views(result@)[k])
                        == views(result@)[k] && views(result@)[k].len() > 0 by {
                        if k < before.len() {
                            assert(views(result@)[k] == before[k]);
                            assert(spec_trim(before[k]) == before[k]);
                        }
                    }
                }
            }
            i = i + 1;
        }
        proof {
            assert(all.take(raw.len() as int) =~= all);
        }
        result
    }
}

/// Whether `get_aweme_id` may return an id viewed as `key` for `item`.
pub open spec fn gives_key<T, F: Fn(&T) -> &str>(get_aweme_id: F, item: T, key: Seq<char>) -> bool {
    exists|r: &str| #[trigger] get_aweme_id.ensures((&item,), r) && r@ == key
}

/// The ids that `get_aweme_id` gives for the items, copied, in order.
fn keys_of<T>(items: &Vec<T>, get_aweme_id: &impl Fn(&T) -> &str) -> (res: Vec<String>)
    requires
        forall|t: &T| #[trigger] get_aweme_id.requires((t,)),
    ensures
        res@.len() == items@.len(),
        forall|i: int| 0 <= i < res@.len() ==> gives_key(*get_aweme_id, items@[i], #[trigger] res@[i]@),
{
    let mut res: Vec<String> = Vec::new();
    let mut i: usize = 0;
    while i < items.len()
        invariant
            i <= items@.len(),
            res@.len() == i,
            forall|t: &T| #[trigger] get_aweme_id.requires((t,)),
            forall|j: int| 0 <= j < i ==> gives_key(*get_aweme_id, items@[j], #[trigger] res@[j]@),
        decreases items@.len() - i,
    {
        let got = get_aweme_id(&items[i]);
        let key = to_owned_string(got);
        let ghost before = res@;
        res.push(key);
        assert(get_aweme_id.ensures((&items@[i as int],), got));
        assert(gives_key(*get_aweme_id, items@[i as int], res@[i as int]@));
        assert forall|j: int| 0 <= j < i + 1 implies gives_key(*get_aweme_id, items@[j], #[trigger] res@[j]@) by {
            if j < i {
                assert(res@[j] == before[j]);
            }
        }
        i = i + 1;
    }
    res
}

/// A copy of `flags` with position `k` set.
fn with_flag(flags: &Vec<bool>, k: usize) -> (res: Vec<bool>)
    requires
        k < flags@.len(),
    ensures
        res@ == flags@.update(k as int, true),
{
    let mut res: Vec<bool> = Vec::new();
    let mut i: usize = 0;
    while i < flags.len()
        invariant
            i <= flags@.len(),
            k < flags@.len(),
            res@ == flags@.update(k as int, true).take(i as int),
        decreases flags@.len() - i,
    {
        if i == k {
            res.push(true);
        } else {
            res.push(flags[i]);
        }
        proof {
            assert(flags@.update(k as int, true).take(i + 1) =~= flags@.update(k as int, true).take(i as int).push(
                flags@.update(k as int, true)[i as int]));
        }
        i = i + 1;
    }
    assert(flags@.update(k as int, true).take(i as int) =~= flags@.update(k as int, true));
    res
}

/// Whether `id` occurs among `list`.
fn contains_string(list: &Vec<String>, id: &str) -> (res: bool)
    ensures
        res == views(list@).contains(id@),
{
    let mut i: usize = 0;
    while i < list.len()
        invariant
            i <= list.len(),
            forall|k: int| 0 <= k < i ==> views(list@)[k] != id@,
        decreases list.len() - i,
    {
        if str_eq(list[i].as_str(), id) {
            assert(views(list@)[i as int] == id@);
            return true;
        }
        i = i + 1;
    }
    false
}

/// With distinct ids, an id's membership in a flag set is its own flag.
pub proof fn lemma_flag_set_index(ids: Seq<Seq<char>>, flags: Seq<bool>, k: int)
    requires
        ids.no_duplicates(),
        flags.len() == ids.len(),
        0 <= k < ids.len(),
    ensures
        flag_set(ids, flags).contains(ids[k]) == flags[k],
{
    if flag_set(ids, flags).contains(ids[k]) {
        let j = choose|j: int| 0 <= j < ids.len() && j < flags.len() && flags[j] && ids[j] == ids[k];
        assert(j == k);
    }
}

/// Normalisation yields distinct ids.
pub proof fn lemma_normalize_distinct(raw: Seq<Seq<char>>)
    ensures
        normalize_spec(raw).no_duplicates(),
    decreases raw.len(),
{
    if raw.len() > 0 {
        lemma_normalize_distinct(raw.drop_last());
    }
}

/// A request list that is already distinct, non-empty and trimmed is left
/// as it is by normalisation: building a tracker from the requested ids of
/// another tracker gives back the same list.
pub proof fn lemma_normalize_fixpoint(ids: Seq<Seq<char>>)
    requires
        ids.no_duplicates(),
        all_clean(ids),
    ensures
        normalize_spec(ids) == ids,
    decreases ids.len(),
{
    if ids.len() > 0 {
        let prev = ids.drop_last();
        assert(prev.no_duplicates());
        assert(all_clean(prev)) by {
            assert forall|k: int| #![trigger prev[k]] 0 <= k < prev.len() implies prev[k].len() > 0 && spec_trim(prev[k]) == prev[k] by {
                assert(prev[k] == ids[k]);
            }
        }
        lemma_normalize_fixpoint(prev);
        let last = ids.last();
        assert(ids[ids.len() - 1] == last);
        assert(spec_trim(last) == last);
        assert(!prev.contains(last)) by {
            if prev.contains(last) {
                let j = choose|j: int| 0 <= j < prev.len() && prev[j] == last;
                assert(ids[j] == ids[ids.len() - 1]);
            }
        }
        assert(prev.push(last) =~= ids);
    }
}

/// Every normalised id is the trim of some raw id, and the trim of every raw
/// id that is not blank occurs in the normalised list.
pub proof fn lemma_normalize_members(raw: Seq<Seq<char>>)
    ensures
        forall|k: int| 0 <= k < normalize_spec(raw).len() ==> exists|j: int| 0 <= j < raw.len() && spec_trim(raw[j]) == #[trigger] normalize_spec(raw)[k],
        forall|j: int| 0 <= j < raw.len() && spec_trim(#[trigger] raw[j]).len() > 0 ==> normalize_spec(raw).contains(spec_trim(raw[j])),
    decreases raw.len(),
{
    if raw.len() > 0 {
        let prev_raw = raw.drop_last();
        lemma_normalize_members(prev_raw);
        let prev = normalize_spec(prev_raw);
        let out = normalize_spec(raw);
        let t = spec_trim(raw.last());
        assert forall|k: int| 0 <= k < out.len() implies exists|j: int| 0 <= j < raw.len() && spec_trim(raw[j]) == #[trigger] out[k] by {
            if k < prev.len() {
                assert(out[k] == prev[k]);
                let j = choose|j: int| 0 <= j < prev_raw.len() && spec_trim(prev_raw[j]) == #[trigger] prev[k];
                assert(raw[j] == prev_raw[j]);
            } else {
                assert(out[k] == t);
                assert(raw[raw.len() - 1] == raw.last());
            }
        }
        assert forall|j: int| 0 <= j < raw.len() && spec_trim(#[trigger] raw[j]).len() > 0 implies out.contains(spec_trim(raw[j])) by {
            if j < raw.len() - 1 {
                assert(raw[j] == prev_raw[j]);
                assert(prev.contains(spec_trim(prev_raw[j])));
                let q = choose|q: int| 0 <= q < prev.len() && prev[q] == spec_trim(prev_raw[j]);
                if !(t.len() == 0 || prev.contains(t)) {
                    assert(out[q] == prev[q]);
                }
            } else {
                assert(raw[j] == raw.last());
                if !prev.contains(t) {
                    assert(out[out.len() - 1] == t);
                }
            }
        }
    }
}

/// The selection summary is absent exactly when every requested id has been
/// both seen in a page and planned.
pub proof fn lemma_summary_absent_iff_complete(
    requested: Seq<Seq<char>>,
    seen: Set<Seq<char>>,
    planned: Set<Seq<char>>,
)
    ensures
        summary_spec(ordered_not_in(requested, seen), unavailable_spec(requested, seen, planned)) is None
            <==> (forall|k: int| 0 <= k < requested.len() ==> seen.contains(#[trigger] requested[k])
                && planned.contains(requested[k])),
{
    broadcast use vstd::seq_lib::group_filter_ensures;
    let missing = ordered_not_in(requested, seen);
    let unavailable = unavailable_spec(requested, seen, planned);
    if forall|k: int| 0 <= k < requested.len() ==> seen.contains(#[trigger] requested[k]) && planned.contains(requested[k]) {
        if missing.len() > 0 {
            assert(!seen.contains(missing[0]));
            lemma_filter_subset(requested, |id: Seq<char>| !seen.contains(id), 0);
        }
        if unavailable.len() > 0 {
            assert(!planned.contains(unavailable[0]));
            lemma_filter_subset(requested, |id: Seq<char>| seen.contains(id) && !planned.contains(id), 0);
        }
    } else {
        let k = choose|k: int| 0 <= k < requested.len() && !(seen.contains(#[trigger] requested[k]) && planned.contains(requested[k]));
        if !seen.contains(requested[k]) {
            requested.lemma_filter_contains(|id: Seq<char>| !seen.contains(id), k);
        } else {
            requested.lemma_filter_contains(|id: Seq<char>| seen.contains(id) && !planned.contains(id), k);
        }
    }
}

/// Taking the unplanned items of a page twice returns nothing the second
/// time: once a work's media group was handed out, the work is planned.
pub proof fn lemma_take_unplanned_once<T>(
    items: Seq<T>,
    keys: Seq<Seq<char>>,
    requested: Seq<Seq<char>>,
    planned: Set<Seq<char>>,
)
    requires
        keys.len() == items.len(),
    ensures
        filter_by_keys(items, keys, |id: Seq<char>| requested.contains(id)
            && !planned.union(keys.to_set().intersect(requested.to_set())).contains(id)).len() == 0,
    decreases items.len(),
{
    if items.len() > 0 {
        let after = planned.union(keys.to_set().intersect(requested.to_set()));
        let after_prev = planned.union(keys.drop_last().to_set().intersect(requested.to_set()));
        lemma_take_unplanned_once(items.drop_last(), keys.drop_last(), requested, planned);
        let keep = |id: Seq<char>| requested.contains(id) && !after.contains(id);
        let keep_prev = |id: Seq<char>| requested.contains(id) && !after_prev.contains(id);
        assert(keys.contains(keys.last())) by {
            assert(keys[keys.len() - 1] == keys.last());
        }
        assert(!keep(keys.last()));
        lemma_filter_by_keys_weaker(items.drop_last(), keys.drop_last(), keep, keep_prev);
    }
}

/// Every element kept by a filter comes from the filtered sequence.
proof fn lemma_filter_subset<A>(s: Seq<A>, pred: spec_fn(A) -> bool, i: int)
    requires
        0 <= i < s.filter(pred).len(),
    ensures
        s.contains(s.filter(pred)[i]),
    decreases s.len(),
{
    reveal(Seq::filter);
    let prev = s.drop_last().filter(pred);
    if i < prev.len() {
        lemma_filter_subset(s.drop_last(), pred, i);
        let j = choose|j: int| 0 <= j < s.drop_last().len() && s.drop_last()[j] == prev[i];
        assert(s[j] == prev[i]);
    } else {
        assert(s[s.len() - 1] == s.last());
    }
}

/// Filtering with a stronger predicate keeps no more than a weaker one.
proof fn lemma_filter_by_keys_weaker<T>(
    items: Seq<T>,
    keys: Seq<Seq<char>>,
    strong: spec_fn(Seq<char>) -> bool,
    weak: spec_fn(Seq<char>) -> bool,
)
    requires
        keys.len() == items.len(),
        forall|k: int| 0 <= k < keys.len() && #[trigger] strong(keys[k]) ==> weak(keys[k]),
        filter_by_keys(items, keys, weak).len() == 0,
    ensures
        filter_by_keys(items, keys, strong).len() == 0,
    decreases items.len(),
{
    if items.len() > 0 {
        assert(strong(keys.last()) ==> weak(keys.last())) by {
            assert(keys[keys.len() - 1] == keys.last());
        }
        assert forall|k: int| 0 <= k < keys.drop_last().len() && #[trigger] strong(keys.drop_last()[k]) implies weak(keys.drop_last()[k]) by {
            assert(keys.drop_last()[k] == keys[k]);
        }
        lemma_filter_by_keys_weaker(items.drop_last(), keys.drop_last(), strong, weak);
    }
}

} // verus!
