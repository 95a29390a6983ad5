//! Text helpers shared by the library: trimming, comparison, prefix tests and
//! joining, stated over the character sequences that strings view as.

use vstd::prelude::*;
use vstd::string::*;

verus! {

/// Name for what `str::trim` returns on a character sequence.
pub uninterp spec fn spec_trim(s: Seq<char>) -> Seq<char>;

/// Calls `str::trim` and copies the result into a `String`.
/// Claimed of it: the result is the named trim of the input, and trimming is
/// idempotent (a trimmed string has no leading or trailing whitespace left).
#[verifier::external_body]
pub(crate) fn trim_owned(s: &str) -> (res: String)
    ensures
        res@ == spec_trim(s@),
        spec_trim(res@) == res@,
{
    s.trim().to_string()
}

/// `s` seen as a sequence with every element viewed.
pub open spec fn views(s: Seq<String>) -> Seq<Seq<char>> {
    s.map_values(|x: String| x@)
}

/// Character-by-character equality of two string slices.
pub fn str_eq(a: &str, b: &str) -> (res: bool)
    ensures
        res == (a@ == b@),
{
    let n = a.unicode_len();
    let m = b.unicode_len();
    if n != m {
        return false;
    }
    let mut i: usize = 0;
    while i < n
        invariant
            n == a@.len(),
            m == b@.len(),
            n == m,
            i <= n,
            forall|j: int| 0 <= j < i ==> a@[j] == b@[j],
        decreases n - i,
    {
        if a.get_char(i) != b.get_char(i) {
            return false;
        }
        i = i + 1;
    }
    assert(a@ =~= b@);
    true
}

/// Whether `s` begins with `prefix`.
pub fn starts_with(s: &str, prefix: &str) -> (res: bool)
    ensures
        res == (prefix@.len() <= s@.len() && s@.subrange(0, prefix@.len() as int) == prefix@),
{
    let n = s.unicode_len();
    let m = prefix.unicode_len();
    if m > n {
        return false;
    }
    let mut i: usize = 0;
    while i < m
        invariant
            n == s@.len(),
            m == prefix@.len(),
            m <= n,
            i <= m,
            forall|j: int| 0 <= j < i ==> s@[j] == prefix@[j],
        decreases m - i,
    {
        if s.get_char(i) != prefix.get_char(i) {
            assert(s@.subrange(0, m as int)[i as int] != prefix@[i as int]);
            return false;
        }
        i = i + 1;
    }
    assert(s@.subrange(0, m as int) =~= prefix@);
    true
}

/// Whether `s` ends with `suffix`.
pub fn ends_with(s: &str, suffix: &str) -> (res: bool)
    ensures
        res == (suffix@.len() <= s@.len() && s@.subrange(s@.len() - suffix@.len(), s@.len() as int)
            == suffix@),
{
    let n = s.unicode_len();
    let m = suffix.unicode_len();
    if m > n {
        return false;
    }
    let off = n - m;
    let mut i: usize = 0;
    while i < m
        invariant
            n == s@.len(),
            m == suffix@.len(),
            m <= n,
            off == n - m,
            i <= m,
            forall|j: int| 0 <= j < i ==> s@[off + j] == suffix@[j],
        decreases m - i,
    {
        if s.get_char(off + i) != suffix.get_char(i) {
            assert(s@.subrange(off as int, n as int)[i as int] != suffix@[i as int]);
            return false;
        }
        i = i + 1;
    }
    assert(s@.subrange(off as int, n as int) =~= suffix@);
    true
}

/// Copies a string slice into a fresh `String`.
pub fn to_owned_string(s: &str) -> (res: String)
    ensures
        res@ == s@,
{
    String::from_str(s)
}

} // verus!

verus! {

/// The elements of `list` separated by `sep`.
pub open spec fn join_spec(list: Seq<Seq<char>>, sep: Seq<char>) -> Seq<char>
    decreases list.len(),
{
    if list.len() == 0 {
        Seq::empty()
    } else if list.len() == 1 {
        list[0]
    } else {
        join_spec(list.drop_last(), sep) + sep + list.last()
    }
}

/// `s` seen as a sequence of character sequences.
pub open spec fn str_views(s: Seq<&str>) -> Seq<Seq<char>> {
    s.map_values(|x: &str| x@)
}

/// Joins string slices with a separator.
pub fn join_strs(list: &Vec<&str>, sep: &str) -> (res: String)
    ensures
        res@ == join_spec(str_views(list@), sep@),
{
    let mut res = String::new();
    let ghost all = str_views(list@);
    let mut i: usize = 0;
    while i < list.len()
        invariant
            all == str_views(list@),
            i <= list.len(),
            res@ == join_spec(all.take(i as int), sep@),
        decreases list.len() - i,
    {
        assert(all.take(i + 1).drop_last() =~= all.take(i as int));
        if i != 0 {
            res.append(sep);
        }
        res.append(list[i]);
        i = i + 1;
    }
    assert(all.take(list.len() as int) =~= all);
    res
}

/// Joins owned strings with a separator.
pub fn join_strings(list: &Vec<String>, sep: &str) -> (res: String)
    ensures
        res@ == join_spec(views(list@), sep@),
{
    let mut res = String::new();
    let ghost all = views(list@);
    let mut i: usize = 0;
    while i < list.len()
        invariant
            all == views(list@),
            i <= list.len(),
            res@ == join_spec(all.take(i as int), sep@),
        decreases list.len() - i,
    {
        assert(all.take(i + 1).drop_last() =~= all.take(i as int));
        if i != 0 {
            res.append(sep);
        }
        res.append(list[i].as_str());
        i = i + 1;
    }
    assert(all.take(list.len() as int) =~= all);
    res
}

} // verus!

verus! {

/// Whether a string is empty once trimmed.
pub open spec fn blank(s: Seq<char>) -> bool {
    spec_trim(s).len() == 0
}

/// Whether `s` is empty once trimmed.
pub fn is_blank(s: &str) -> (res: bool)
    ensures
        res == blank(s@),
{
    let t = trim_owned(s);
    t.as_str().unicode_len() == 0
}

/// The part of `s` after `prefix`, when `s` begins with `prefix`.
pub fn strip_prefix<'a>(s: &'a str, prefix: &str) -> (res: Option<&'a str>)
    ensures
        res is Some <==> (prefix@.len() <= s@.len() && s@.subrange(0, prefix@.len() as int) == prefix@),
        res matches Some(r) ==> r@ == s@.skip(prefix@.len() as int),
{
    if starts_with(s, prefix) {
        let n = s.unicode_len();
        let m = prefix.unicode_len();
        let r = s.substring_char(m, n);
        proof {
            assert(r@ =~= s@.skip(m as int));
        }
        Some(r)
    } else {
        None
    }
}

/// Name for what `str::parse::<i64>` returns (`None` on a parse error).
pub uninterp spec fn spec_parse_i64(s: Seq<char>) -> Option<i64>;

/// Calls `str::parse::<i64>` and keeps the value when parsing succeeds.
/// Claimed of it: the result is the named parse of the input.
#[verifier::external_body]
pub(crate) fn parse_i64(s: &str) -> (res: Option<i64>)
    ensures
        res == spec_parse_i64(s@),
{
    s.parse::<i64>().ok()
}

/// Name for the decimal text that `i64::to_string` writes.
pub uninterp spec fn spec_i64_text(n: i64) -> Seq<char>;

/// Calls `i64::to_string`. Claimed of it: the result is the named text.
#[verifier::external_body]
pub(crate) fn i64_text(n: i64) -> (res: String)
    ensures
        res@ == spec_i64_text(n),
{
    n.to_string()
}

/// Name for the decimal text that `u64::to_string` writes.
pub uninterp spec fn spec_u64_text(n: u64) -> Seq<char>;

/// Calls `u64::to_string`. Claimed of it: the result is the named text.
#[verifier::external_body]
pub(crate) fn u64_text(n: u64) -> (res: String)
    ensures
        res@ == spec_u64_text(n),
{
    n.to_string()
}

/// Whether `id` occurs among the first `upto` strings of `list`.
pub fn contains_before(list: &Vec<String>, upto: usize, id: &str) -> (res: bool)
    requires
        upto <= list@.len(),
    ensures
        res == views(list@).take(upto as int).contains(id@),
{
    let mut i: usize = 0;
    while i < upto
        invariant
            upto <= list@.len(),
            i <= upto,
            forall|k: int| 0 <= k < i ==> views(list@)[k] != id@,
        decreases upto - i,
    {
        if str_eq(list[i].as_str(), id) {
            assert(views(list@).take(upto as int)[i as int] == id@);
            return true;
        }
        i = i + 1;
    }
    proof {
        if views(list@).take(upto as int).contains(id@) {
            let k = choose|k: int| 0 <= k < upto && views(list@).take(upto as int)[k] == id@;
            assert(views(list@)[k] == id@);
        }
    }
    false
}

/// Completed pieces and the start of the current piece after reading the
/// first `n` characters of `s`, cutting at every `sep`.
pub open spec fn split_state(s: Seq<char>, sep: char, n: int) -> (Seq<Seq<char>>, int)
    decreases n,
{
    if n <= 0 {
        (Seq::empty(), 0)
    } else {
        let prev = split_state(s, sep, n - 1);
        if s[n - 1] == sep {
            (prev.0.push(s.subrange(prev.1, n - 1)), n)
        } else {
            prev
        }
    }
}

/// `s` cut at every `sep`; the pieces do not hold the separator.
pub open spec fn split_on(s: Seq<char>, sep: char) -> Seq<Seq<char>> {
    let st = split_state(s, sep, s.len() as int);
    st.0.push(s.subrange(st.1, s.len() as int))
}

/// The lines of a text, each trimmed. Cutting at `\n` and trimming gives
/// the same non-empty lines as `str::lines` followed by `str::trim`; a
/// trailing empty line may be added.
pub open spec fn trimmed_lines(content: Seq<char>) -> Seq<Seq<char>> {
    split_on(content, '\n').map_values(|l: Seq<char>| spec_trim(l))
}

/// The pieces of `s` cut at `\n`, each trimmed.
pub fn split_trimmed_lines(s: &str) -> (res: Vec<String>)
    ensures
        views(res@) == trimmed_lines(s@),
{
    let n = s.unicode_len();
    let mut res: Vec<String> = Vec::new();
    let mut start: usize = 0;
    let mut i: usize = 0;
    while i < n
        invariant
            n == s@.len(),
            i <= n,
            start <= i,
            split_state(s@, '\n', i as int).1 == start,
            views(res@) == split_state(s@, '\n', i as int).0.map_values(|l: Seq<char>| spec_trim(l)),
        decreases n - i,
    {
        if s.get_char(i) == '\n' {
            let piece = s.substring_char(start, i);
            let t = trim_owned(piece);
            let ghost before = res@;
            res.push(t);
            proof {
                assert(views(res@) =~= views(before).push(spec_trim(s@.subrange(start as int, i as int))));
                assert(split_state(s@, '\n', i + 1).0 == split_state(s@, '\n', i as int).0.push(
                    s@.subrange(start as int, i as int)));
                assert(split_state(s@, '\n', i + 1).0.map_values(|l: Seq<char>| spec_trim(l)) =~= split_state(
                    s@,
                    '\n',
                    i as int,
                ).0.map_values(|l: Seq<char>| spec_trim(l)).push(spec_trim(s@.subrange(start as int, i as int))));
            }
            start = i + 1;
        }
        i = i + 1;
    }
    let piece = s.substring_char(start, n);
    let t = trim_owned(piece);
    let ghost before = res@;
    res.push(t);
    proof {
        assert(views(res@) =~= views(before).push(spec_trim(s@.subrange(start as int, n as int))));
        assert(trimmed_lines(s@) =~= split_state(s@, '\n', n as int).0.map_values(
            |l: Seq<char>| spec_trim(l),
        ).push(spec_trim(s@.subrange(start as int, n as int))));
    }
    res
}

/// The pairs seen as character sequences.
pub open spec fn pair_views(p: Seq<(String, String)>) -> Seq<(Seq<char>, Seq<char>)> {
    p.map_values(|x: (String, String)| (x.0@, x.1@))
}

/// Index of the first pair named `k`, from `j` on.
pub open spec fn find_key(m: Seq<(Seq<char>, Seq<char>)>, k: Seq<char>, j: int) -> Option<int>
    decreases m.len() - j,
{
    if j < 0 || j >= m.len() {
        None
    } else if m[j].0 == k {
        Some(j)
    } else {
        find_key(m, k, j + 1)
    }
}

/// `m` with `k` set to `v`: in place when named already, else appended.
pub open spec fn upsert(m: Seq<(Seq<char>, Seq<char>)>, k: Seq<char>, v: Seq<char>) -> Seq<(Seq<char>, Seq<char>)> {
    match find_key(m, k, 0) {
        Some(i) => m.update(i, (k, v)),
        None => m.push((k, v)),
    }
}

/// Sets `k` to `v` in the ordered pairs.
pub fn upsert_pair(m: &mut Vec<(String, String)>, k: &str, v: &str)
    ensures
        pair_views(final(m)@) == upsert(pair_views(old(m)@), k@, v@),
{
    let ghost mv = pair_views(m@);
    let mut j: usize = 0;
    while j < m.len() && !str_eq(m[j].0.as_str(), k)
        invariant
            mv == pair_views(m@),
            j <= m@.len(),
            find_key(mv, k@, 0) == find_key(mv, k@, j as int),
        decreases m@.len() - j,
    {
        proof {
            assert(mv[j as int] == (m@[j as int].0@, m@[j as int].1@));
        }
        j = j + 1;
    }
    if j < m.len() {
        proof {
            assert(mv[j as int] == (m@[j as int].0@, m@[j as int].1@));
            assert(find_key(mv, k@, j as int) == Some(j as int));
        }
        m.set(j, (to_owned_string(k), to_owned_string(v)));
        proof {
            assert(pair_views(m@) =~= mv.update(j as int, (k@, v@)));
        }
    } else {
        m.push((to_owned_string(k), to_owned_string(v)));
        proof {
            assert(pair_views(m@) =~= mv.push((k@, v@)));
        }
    }
}

} // verus!

verus! {

/// Whether no two pairs share a name.
pub open spec fn names_distinct(m: Seq<(Seq<char>, Seq<char>)>) -> bool {
    forall|i: int, j: int| 0 <= i < j < m.len() ==> m[i].0 != m[j].0
}

/// What looking a name up from `j` on finds: the first pair with that name,
/// with none before it.
pub proof fn lemma_find_key(m: Seq<(Seq<char>, Seq<char>)>, k: Seq<char>, j: int)
    requires
        0 <= j,
    ensures
        find_key(m, k, j) matches Some(i) ==> j <= i < m.len() && m[i].0 == k && forall|x: int|
            j <= x < i ==> m[x].0 != k,
        find_key(m, k, j) is None ==> forall|x: int| j <= x < m.len() ==> m[x].0 != k,
    decreases m.len() - j,
{
    if j < m.len() && m[j].0 != k {
        lemma_find_key(m, k, j + 1);
    }
}

/// Setting a name keeps names distinct, and the name then holds the value
/// just set.
pub proof fn lemma_upsert(m: Seq<(Seq<char>, Seq<char>)>, k: Seq<char>, v: Seq<char>)
    requires
        names_distinct(m),
    ensures
        names_distinct(upsert(m, k, v)),
        find_key(upsert(m, k, v), k, 0) matches Some(i) && upsert(m, k, v)[i].1 == v,
{
    lemma_find_key(m, k, 0);
    let r = upsert(m, k, v);
    match find_key(m, k, 0) {
        Some(i) => {
            assert forall|a: int, b: int| 0 <= a < b < r.len() implies r[a].0 != r[b].0 by {
                assert(r[a].0 == m[a].0);
                assert(r[b].0 == m[b].0);
            }
            lemma_find_key(r, k, 0);
            if find_key(r, k, 0) != Some(i) {
                assert(r[i].0 == k);
            }
        },
        None => {
            assert forall|a: int, b: int| 0 <= a < b < r.len() implies r[a].0 != r[b].0 by {
                if b == m.len() {
                    assert(m[a].0 != k);
                }
            }
            lemma_find_key(r, k, 0);
            if find_key(r, k, 0) != Some(m.len() as int) {
                assert(r[m.len() as int].0 == k);
            }
        },
    }
}

/// Whether `d` occurs in `s`.
pub open spec fn occurs_in(s: Seq<char>, d: Seq<char>) -> bool {
    exists|i: int| 0 <= i && i + d.len() <= s.len() && #[trigger] s.subrange(i, i + d.len()) == d
}

/// Whether `d` occurs in `s`.
pub fn occurs(s: &str, d: &str) -> (res: bool)
    ensures
        res == occurs_in(s@, d@),
{
    let n = s.unicode_len();
    let m = d.unicode_len();
    if m > n {
        return false;
    }
    if m == 0 {
        assert(s@.subrange(0, 0 + d@.len() as int) =~= d@);
        return true;
    }
    let mut i: usize = 0;
    while i <= n - m
        invariant
            n == s@.len(),
            m == d@.len(),
            1 <= m <= n,
            i <= n - m + 1,
            forall|k: int| 0 <= k < i ==> #[trigger] s@.subrange(k, k + m) != d@,
        decreases n - m + 1 - i,
    {
        let piece = s.substring_char(i, i + m);
        if str_eq(piece, d) {
            return true;
        }
        i = i + 1;
    }
    false
}

} // verus!
