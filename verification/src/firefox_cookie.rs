//! Firefox profiles and cookies: reading `profiles.ini`, picking the default
//! profile, choosing the profile to read cookies from, and turning the rows
//! of its cookie database into the cookies of a domain. Locating and
//! reading the files happens outside this module.

use vstd::prelude::*;
use crate::text::{
    occurs, occurs_in, find_key, pair_views, upsert, upsert_pair, ends_with, spec_trim, split_trimmed_lines, starts_with, str_eq, to_owned_string, trim_owned,
    trimmed_lines, views,
};
use crate::download::live::{path_join, spec_path_join};
use crate::download::hls::{has_prefix, first_pos};

verus! {

/// A Firefox profile.
#[derive(Debug, Clone)]
pub struct FirefoxProfile {
    pub name: String,
    pub path: String,
    pub is_default: bool,
    pub has_cookies: bool,
}

/// A row of the cookie database.
#[derive(Debug, Clone)]
pub struct Cookie {
    pub host: String,
    pub name: String,
    pub value: String,
    pub path: String,
    pub expiry: i64,
}

/// A profile as (name, path, is default, has cookies).
pub type ProfileView = (Seq<char>, Seq<char>, bool, bool);

/// The profiles seen as [`ProfileView`]s.
pub open spec fn profile_views(p: Seq<FirefoxProfile>) -> Seq<ProfileView> {
    p.map_values(|x: FirefoxProfile| (x.name@, x.path@, x.is_default, x.has_cookies))
}

/// Whether a trimmed line opens a section: `[` ... `]`.
pub open spec fn is_header(l: Seq<char>) -> bool {
    l.len() >= 2 && l[0] == '[' && l[l.len() - 1] == ']'
}

/// The key and value of a `key=value` line, cut at the first `=` and trimmed.
pub open spec fn key_value(l: Seq<char>) -> Option<(Seq<char>, Seq<char>)> {
    let i = first_pos(l, '=', 0);
    if i >= l.len() {
        None
    } else {
        Some((spec_trim(l.take(i)), spec_trim(l.skip(i + 1))))
    }
}

/// The value last given to `key` among `pairs[..n]`.
pub open spec fn lookup(pairs: Seq<(Seq<char>, Seq<char>)>, key: Seq<char>, n: int) -> Option<Seq<char>>
    decreases n,
{
    if n <= 0 || n > pairs.len() {
        None
    } else if pairs[n - 1].0 == key {
        Some(pairs[n - 1].1)
    } else {
        lookup(pairs, key, n - 1)
    }
}

/// The profile a section describes: it needs `Name` and `Path`; the path
/// is joined to the profiles directory unless `IsRelative` is given and is
/// not `1`.
pub open spec fn section_profile(dir: Seq<char>, pairs: Seq<(Seq<char>, Seq<char>)>) -> Option<ProfileView> {
    let n = pairs.len() as int;
    match (lookup(pairs, "Name"@, n), lookup(pairs, "Path"@, n)) {
        (Some(name), Some(path)) => {
            let relative = match lookup(pairs, "IsRelative"@, n) {
                Some(v) => v == "1"@,
                None => true,
            };
            Some((name, if relative { spec_path_join(dir, path) } else { path }, false, false))
        },
        _ => None,
    }
}

/// The profiles after closing a section with these pairs and this name:
/// only a non-empty section whose name begins with `Profile` counts.
pub open spec fn close_section(
    dir: Seq<char>,
    profiles: Seq<ProfileView>,
    pairs: Seq<(Seq<char>, Seq<char>)>,
    name: Seq<char>,
) -> Seq<ProfileView> {
    if pairs.len() > 0 && has_prefix(name, "Profile"@) {
        match section_profile(dir, pairs) {
            Some(p) => profiles.push(p),
            None => profiles,
        }
    } else {
        profiles
    }
}

/// Reads the lines from `i` on, given the profiles found, the pairs of the
/// open section and its name.
pub open spec fn ini_from(
    dir: Seq<char>,
    lines: Seq<Seq<char>>,
    i: int,
    profiles: Seq<ProfileView>,
    pairs: Seq<(Seq<char>, Seq<char>)>,
    name: Seq<char>,
) -> Seq<ProfileView>
    decreases lines.len() - i,
{
    if i < 0 || i >= lines.len() {
        close_section(dir, profiles, pairs, name)
    } else {
        let l = lines[i];
        if is_header(l) {
            ini_from(
                dir,
                lines,
                i + 1,
                close_section(dir, profiles, pairs, name),
                Seq::empty(),
                l.subrange(1, l.len() - 1),
            )
        } else {
            match key_value(l) {
                Some(kv) => ini_from(dir, lines, i + 1, profiles, pairs.push(kv), name),
                None => ini_from(dir, lines, i + 1, profiles, pairs, name),
            }
        }
    }
}

/// The `Default` of the first `[Install...]` section, from line `i` on.
pub open spec fn default_from(lines: Seq<Seq<char>>, i: int, in_install: bool) -> Option<Seq<char>>
    decreases lines.len() - i,
{
    if i < 0 || i >= lines.len() {
        None
    } else {
        let l = lines[i];
        if has_prefix(l, "[Install"@) {
            default_from(lines, i + 1, true)
        } else if has_prefix(l, "["@) {
            default_from(lines, i + 1, false)
        } else if in_install && key_value(l) is Some && key_value(l)->Some_0.0 == "Default"@ {
            Some(key_value(l)->Some_0.1)
        } else {
            default_from(lines, i + 1, in_install)
        }
    }
}

/// The profiles with the default marked: those whose path holds the
/// default path (ending with it is one way of holding it); when none is,
/// the first profile.
pub open spec fn mark_default(profiles: Seq<ProfileView>, default: Option<Seq<char>>) -> Seq<ProfileView> {
    let marked = profiles.map_values(
        |p: ProfileView|
            (p.0, p.1, default is Some && occurs_in(p.1, default->Some_0), p.3),
    );
    if exists|k: int| 0 <= k < marked.len() && #[trigger] marked[k].2 {
        marked
    } else if marked.len() > 0 {
        marked.update(0, (marked[0].0, marked[0].1, true, marked[0].3))
    } else {
        marked
    }
}

/// The profiles that `profiles.ini` lists, under a profiles directory.
pub open spec fn profiles_spec(dir: Seq<char>, content: Seq<char>) -> Seq<ProfileView> {
    let lines = trimmed_lines(content);
    mark_default(ini_from(dir, lines, 0, Seq::empty(), Seq::empty(), Seq::empty()), default_from(lines, 0, false))
}

/// The key and value of a line, when it has an `=`.
fn split_key_value(l: &str) -> (res: Option<(String, String)>)
    ensures
        match res {
            Some((k, v)) => key_value(l@) == Some((k@, v@)),
            None => key_value(l@) is None,
        },
{
    let n = l.unicode_len();
    let mut i: usize = 0;
    while i < n && l.get_char(i) != '='
        invariant
            n == l@.len(),
            i <= n,
            first_pos(l@, '=', 0) == first_pos(l@, '=', i as int),
        decreases n - i,
    {
        i = i + 1;
    }
    proof {
        assert(first_pos(l@, '=', i as int) == i);
    }
    if i >= n {
        return None;
    }
    let k = trim_owned(l.substring_char(0, i));
    let v = trim_owned(l.substring_char(i + 1, n));
    proof {
        assert(l@.subrange(0, i as int) =~= l@.take(i as int));
        assert(l@.subrange(i + 1, n as int) =~= l@.skip(i + 1));
    }
    Some((k, v))
}

/// The value last given to `key`.
fn find_value(pairs: &Vec<(String, String)>, key: &str) -> (res: Option<String>)
    ensures
        match res {
            Some(v) => lookup(pair_views(pairs@), key@, pairs@.len() as int) == Some(v@),
            None => lookup(pair_views(pairs@), key@, pairs@.len() as int) is None,
        },
{
    let ghost pv = pair_views(pairs@);
    let mut i: usize = pairs.len();
    while i > 0
        invariant
            pv == pair_views(pairs@),
            i <= pairs@.len(),
            lookup(pv, key@, pairs@.len() as int) == lookup(pv, key@, i as int),
        decreases i,
    {
        proof {
            assert(pv[i - 1] == (pairs@[i - 1].0@, pairs@[i - 1].1@));
        }
        if str_eq(pairs[i - 1].0.as_str(), key) {
            return Some(pairs[i - 1].1.clone());
        }
        i = i - 1;
    }
    None
}

/// The profile a section's pairs describe, if any, with its path under
/// `dir`; `has_cookies` is left false.
pub fn parse_profile_section(dir: &str, pairs: &Vec<(String, String)>) -> (res: Option<FirefoxProfile>)
    ensures
        match res {
            Some(p) => section_profile(dir@, pair_views(pairs@)) == Some(
                (p.name@, p.path@, p.is_default, p.has_cookies),
            ),
            None => section_profile(dir@, pair_views(pairs@)) is None,
        },
{
    proof {
        assert(pair_views(pairs@).len() == pairs@.len());
    }
    let name = match find_value(pairs, "Name") {
        Some(n) => n,
        None => {
            return None;
        },
    };
    let path = match find_value(pairs, "Path") {
        Some(p) => p,
        None => {
            return None;
        },
    };
    let relative = match find_value(pairs, "IsRelative") {
        Some(v) => str_eq(v.as_str(), "1"),
        None => true,
    };
    let full = if relative {
        path_join(dir, path.as_str())
    } else {
        path
    };
    Some(FirefoxProfile { name, path: full, is_default: false, has_cookies: false })
}

/// Closes a section: keeps its profile when it is a profile section.
fn close(dir: &str, profiles: &mut Vec<FirefoxProfile>, pairs: &Vec<(String, String)>, name: &str)
    ensures
        profile_views(final(profiles)@) == close_section(
            dir@,
            profile_views(old(profiles)@),
            pair_views(pairs@),
            name@,
        ),
{
    proof {
        assert(pair_views(pairs@).len() == pairs@.len());
    }
    if pairs.len() > 0 && starts_with(name, "Profile") {
        match parse_profile_section(dir, pairs) {
            Some(p) => {
                let ghost before = profile_views(profiles@);
                profiles.push(p);
                proof {
                    assert(profile_views(profiles@) =~= before.push(
                        (p.name@, p.path@, p.is_default, p.has_cookies),
                    ));
                }
            },
            None => {},
        }
    }
}

/// The default profile path named by `profiles.ini`, if any.
pub fn find_default_profile_path(lines: &Vec<String>) -> (res: Option<String>)
    ensures
        match res {
            Some(d) => default_from(views(lines@), 0, false) == Some(d@),
            None => default_from(views(lines@), 0, false) is None,
        },
{
    let ghost lv = views(lines@);
    let mut in_install = false;
    let mut i: usize = 0;
    while i < lines.len()
        invariant
            lv == views(lines@),
            i <= lines@.len(),
            default_from(lv, 0, false) == default_from(lv, i as int, in_install),
        decreases lines@.len() - i,
    {
        let l = lines[i].as_str();
        proof {
            assert(lv[i as int] == l@);
        }
        if starts_with(l, "[Install") {
            in_install = true;
        } else if starts_with(l, "[") {
            in_install = false;
        } else if in_install {
            match split_key_value(l) {
                Some((k, v)) => {
                    if str_eq(k.as_str(), "Default") {
                        return Some(v);
                    }
                },
                None => {},
            }
        }
        i = i + 1;
    }
    None
}

/// Reads `profiles.ini` (its text) found in `profiles_dir`: every profile
/// section, in order, with its path, the default profile marked, and
/// `has_cookies` left false for the caller to fill in.
pub fn get_firefox_profiles(profiles_dir: &str, content: &str) -> (res: Vec<FirefoxProfile>)
    ensures
        profile_views(res@) == profiles_spec(profiles_dir@, content@),
{
    let lines = split_trimmed_lines(content);
    let ghost lv = views(lines@);
    let mut profiles: Vec<FirefoxProfile> = Vec::new();
    let mut pairs: Vec<(String, String)> = Vec::new();
    let mut name = String::new();
    let mut i: usize = 0;
    proof {
        assert(profile_views(profiles@) =~= Seq::<ProfileView>::empty());
        assert(pair_views(pairs@) =~= Seq::<(Seq<char>, Seq<char>)>::empty());
    }
    while i < lines.len()
        invariant
            lv == views(lines@),
            lv == trimmed_lines(content@),
            i <= lines@.len(),
            ini_from(profiles_dir@, lv, 0, Seq::empty(), Seq::empty(), Seq::empty()) == ini_from(
                profiles_dir@,
                lv,
                i as int,
                profile_views(profiles@),
                pair_views(pairs@),
                name@,
            ),
        decreases lines@.len() - i,
    {
        let l = lines[i].as_str();
        proof {
            assert(lv[i as int] == l@);
        }
        let n = l.unicode_len();
        if n >= 2 && l.get_char(0) == '[' && l.get_char(n - 1) == ']' {
            close(profiles_dir, &mut profiles, &pairs, name.as_str());
            pairs = Vec::new();
            name = to_owned_string(l.substring_char(1, n - 1));
            proof {
                assert(pair_views(pairs@) =~= Seq::<(Seq<char>, Seq<char>)>::empty());
            }
        } else {
            match split_key_value(l) {
                Some(kv) => {
                    let ghost before = pair_views(pairs@);
                    let ghost kvv = (kv.0@, kv.1@);
                    pairs.push(kv);
                    proof {
                        assert(pair_views(pairs@) =~= before.push(kvv));
                    }
                },
                None => {},
            }
        }
        i = i + 1;
    }
    close(profiles_dir, &mut profiles, &pairs, name.as_str());
    let default = find_default_profile_path(&lines);
    let ghost found = profile_views(profiles@);
    let ghost dv = match &default {
        Some(d) => Some(d@),
        None => None::<Seq<char>>,
    };
    let ghost marked = found.map_values(
        |p: ProfileView| (p.0, p.1, dv is Some && occurs_in(p.1, dv->Some_0), p.3),
    );
    let mut any = false;
    let mut k: usize = 0;
    while k < profiles.len()
        invariant
            k <= profiles@.len(),
            found.len() == profiles@.len(),
            marked == found.map_values(
                |p: ProfileView| (p.0, p.1, dv is Some && occurs_in(p.1, dv->Some_0), p.3),
            ),
            forall|j: int| 0 <= j < k ==> #[trigger] profile_views(profiles@)[j] == marked[j],
            forall|j: int| k <= j < profiles@.len() ==> #[trigger] profile_views(profiles@)[j] == found[j],
            any <==> exists|j: int| 0 <= j < k && #[trigger] marked[j].2,
            dv == match &default {
                Some(d) => Some(d@),
                None => None::<Seq<char>>,
            },
        decreases profiles@.len() - k,
    {
        let hit = match &default {
            Some(d) => occurs(profiles[k].path.as_str(), d.as_str()),
            None => false,
        };
        let ghost before = profile_views(profiles@);
        proof {
            assert(before[k as int] == found[k as int]);
        }
        let p = FirefoxProfile {
            name: profiles[k].name.clone(),
            path: profiles[k].path.clone(),
            is_default: hit,
            has_cookies: profiles[k].has_cookies,
        };
        profiles.set(k, p);
        proof {
            assert(profile_views(profiles@) =~= before.update(k as int, marked[k as int]));
            if hit {
                assert(marked[k as int].2);
            }
        }
        any = any || hit;
        k = k + 1;
    }
    proof {
        assert(profile_views(profiles@) =~= marked);
    }
    if !any && profiles.len() > 0 {
        let ghost pre = profile_views(profiles@);
        let p = FirefoxProfile {
            name: profiles[0].name.clone(),
            path: profiles[0].path.clone(),
            is_default: true,
            has_cookies: profiles[0].has_cookies,
        };
        profiles.set(0, p);
        proof {
            assert(profile_views(profiles@) =~= pre.update(0, (pre[0].0, pre[0].1, true, pre[0].3)));
        }
    }
    proof {
        assert(ini_from(profiles_dir@, lv, 0, Seq::empty(), Seq::empty(), Seq::empty()) == found);
        if !any && found.len() > 0 {
            assert(profile_views(profiles@) =~= marked.update(0, (marked[0].0, marked[0].1, true, marked[0].3)));
        } else {
            assert(profile_views(profiles@) =~= marked);
        }
    }
    profiles
}

/// Whether a cookie's host belongs to `domain`: a domain written with a
/// leading dot takes itself and every host ending with it; any other takes
/// itself and itself with a leading dot.
pub open spec fn host_matches(host: Seq<char>, domain: Seq<char>) -> bool {
    if domain.len() > 0 && domain[0] == '.' {
        host == domain || (domain.len() <= host.len() && host.subrange(host.len() - domain.len(), host.len() as int)
            == domain)
    } else {
        host == domain || host == seq!['.'] + domain
    }
}

/// `acc` with the first `n` pairs of `pairs` set in order.
pub open spec fn merge_pairs(acc: Seq<(Seq<char>, Seq<char>)>, pairs: Seq<(Seq<char>, Seq<char>)>, n: int) -> Seq<
    (Seq<char>, Seq<char>),
>
    decreases n,
{
    if n <= 0 || n > pairs.len() {
        acc
    } else {
        upsert(merge_pairs(acc, pairs, n - 1), pairs[n - 1].0, pairs[n - 1].1)
    }
}

/// The cookies of `domain` among the first `n` rows, each name with the
/// value of its last row.
pub open spec fn domain_pairs(cookies: Seq<Cookie>, domain: Seq<char>, n: int) -> Seq<(Seq<char>, Seq<char>)>
    decreases n,
{
    if n <= 0 || n > cookies.len() {
        Seq::empty()
    } else {
        let prev = domain_pairs(cookies, domain, n - 1);
        let c = cookies[n - 1];
        if host_matches(c.host@, domain) {
            upsert(prev, c.name@, c.value@)
        } else {
            prev
        }
    }
}

/// The domains whose cookies make up the Douyin cookie, in order.
pub open spec fn douyin_domains() -> Seq<Seq<char>> {
    seq![".douyin.com"@, "www.douyin.com"@, ".iesdouyin.com"@, "login.douyin.com"@]
}

/// The cookies of the first `n` Douyin domains merged in order.
pub open spec fn douyin_pairs(cookies: Seq<Cookie>, n: int) -> Seq<(Seq<char>, Seq<char>)>
    decreases n,
{
    if n <= 0 {
        Seq::empty()
    } else {
        let d = domain_pairs(cookies, douyin_domains()[n - 1], cookies.len() as int);
        merge_pairs(douyin_pairs(cookies, n - 1), d, d.len() as int)
    }
}

/// The pairs written `name=value`.
pub open spec fn cookie_texts(pairs: Seq<(Seq<char>, Seq<char>)>) -> Seq<Seq<char>> {
    pairs.map_values(|p: (Seq<char>, Seq<char>)| p.0 + "="@ + p.1)
}

/// Whether a cookie host belongs to a domain.
fn host_in(host: &str, domain: &str) -> (res: bool)
    ensures
        res == host_matches(host@, domain@),
{
    let n = domain.unicode_len();
    if n > 0 && domain.get_char(0) == '.' {
        str_eq(host, domain) || ends_with(host, domain)
    } else {
        let mut dotted = to_owned_string(".");
        dotted.append(domain);
        proof {
            reveal_strlit(".");
            assert(dotted@ =~= seq!['.'] + domain@);
        }
        str_eq(host, domain) || str_eq(host, dotted.as_str())
    }
}

/// Sets every pair of `pairs`, in order.
fn merge_into(acc: &mut Vec<(String, String)>, pairs: &Vec<(String, String)>)
    ensures
        pair_views(final(acc)@) == merge_pairs(pair_views(old(acc)@), pair_views(pairs@), pairs@.len() as int),
{
    let ghost start = pair_views(acc@);
    let ghost pv = pair_views(pairs@);
    let mut i: usize = 0;
    while i < pairs.len()
        invariant
            pv == pair_views(pairs@),
            i <= pairs@.len(),
            pair_views(acc@) == merge_pairs(start, pv, i as int),
            start == pair_views(old(acc)@),
        decreases pairs@.len() - i,
    {
        proof {
            assert(pv[i as int] == (pairs@[i as int].0@, pairs@[i as int].1@));
        }
        upsert_pair(acc, pairs[i].0.as_str(), pairs[i].1.as_str());
        i = i + 1;
    }
}

/// The cookies, from the rows of a profile's cookie database, that belong
/// to `domain`: each name once, with the value of its last row, in the order
/// names first appear.
pub fn get_cookies_by_domain(cookies: &Vec<Cookie>, domain: &str) -> (res: Vec<(String, String)>)
    ensures
        pair_views(res@) == domain_pairs(cookies@, domain@, cookies@.len() as int),
{
    let mut res: Vec<(String, String)> = Vec::new();
    let mut i: usize = 0;
    proof {
        assert(pair_views(res@) =~= Seq::<(Seq<char>, Seq<char>)>::empty());
    }
    while i < cookies.len()
        invariant
            i <= cookies@.len(),
            pair_views(res@) == domain_pairs(cookies@, domain@, i as int),
        decreases cookies@.len() - i,
    {
        let c = &cookies[i];
        if host_in(c.host.as_str(), domain) {
            upsert_pair(&mut res, c.name.as_str(), c.value.as_str());
        }
        i = i + 1;
    }
    res
}

/// The Douyin cookies of the four Douyin domains, merged in order.
fn douyin_cookies(cookies: &Vec<Cookie>) -> (res: Vec<(String, String)>)
    ensures
        pair_views(res@) == douyin_pairs(cookies@, 4),
{
    let domains: [&str; 4] = [".douyin.com", "www.douyin.com", ".iesdouyin.com", "login.douyin.com"];
    proof {
        assert(domains@[0]@ == douyin_domains()[0]);
        assert(domains@[1]@ == douyin_domains()[1]);
        assert(domains@[2]@ == douyin_domains()[2]);
        assert(domains@[3]@ == douyin_domains()[3]);
    }
    let mut all: Vec<(String, String)> = Vec::new();
    proof {
        assert(pair_views(all@) =~= Seq::<(Seq<char>, Seq<char>)>::empty());
    }
    let mut i: usize = 0;
    while i < 4
        invariant
            i <= 4,
            forall|k: int| 0 <= k < 4 ==> (#[trigger] domains@[k])@ == douyin_domains()[k],
            pair_views(all@) == douyin_pairs(cookies@, i as int),
        decreases 4 - i,
    {
        let d = get_cookies_by_domain(cookies, domains[i]);
        proof {
            assert(domains@[i as int]@ == douyin_domains()[i as int]);
            assert(pair_views(d@).len() == d@.len());
        }
        merge_into(&mut all, &d);
        i = i + 1;
    }
    all
}

/// The pairs written as a cookie header: `name=value` joined with `; `.
fn cookie_string(pairs: &Vec<(String, String)>) -> (res: String)
    ensures
        res@ == crate::text::join_spec(cookie_texts(pair_views(pairs@)), "; "@),
{
    let mut texts: Vec<String> = Vec::new();
    let mut i: usize = 0;
    while i < pairs.len()
        invariant
            i <= pairs@.len(),
            views(texts@) == cookie_texts(pair_views(pairs@)).take(i as int),
        decreases pairs@.len() - i,
    {
        let mut t = pairs[i].0.clone();
        t.append("=");
        t.append(pairs[i].1.as_str());
        let ghost before = views(texts@);
        texts.push(t);
        proof {
            assert(views(texts@) =~= before.push(pairs@[i as int].0@ + "="@ + pairs@[i as int].1@));
            assert(cookie_texts(pair_views(pairs@)).take(i + 1) =~= cookie_texts(pair_views(pairs@)).take(
                i as int,
            ).push(pairs@[i as int].0@ + "="@ + pairs@[i as int].1@));
        }
        i = i + 1;
    }
    proof {
        assert(cookie_texts(pair_views(pairs@)).take(pairs@.len() as int) =~= cookie_texts(pair_views(pairs@)));
    }
    crate::text::join_strings(&texts, "; ")
}

/// The Douyin cookie header from a profile's cookie rows, or an error when
/// no Douyin cookie is there.
pub fn get_douyin_cookie_string(cookies: &Vec<Cookie>) -> (res: Result<String, String>)
    ensures
        douyin_pairs(cookies@, 4).len() == 0 ==> (res matches Err(e) && e@ == "未找到抖音的 cookies"@),
        douyin_pairs(cookies@, 4).len() > 0 ==> (res matches Ok(s) && s@ == crate::text::join_spec(
            cookie_texts(douyin_pairs(cookies@, 4)),
            "; "@,
        )),
{
    let all = douyin_cookies(cookies);
    if all.len() == 0 {
        return Err(to_owned_string("未找到抖音的 cookies"));
    }
    Ok(cookie_string(&all))
}

/// The Douyin cookie header and the cookies behind it, from the cookie rows
/// of the chosen profile.
pub fn get_douyin_cookie(cookies: &Vec<Cookie>) -> (res: (String, Vec<(String, String)>))
    ensures
        pair_views(res.1@) == douyin_pairs(cookies@, 4),
        res.0@ == crate::text::join_spec(cookie_texts(douyin_pairs(cookies@, 4)), "; "@),
{
    let all = douyin_cookies(cookies);
    let s = cookie_string(&all);
    (s, all)
}

/// Index of the first profile satisfying the test, from `j` on.
pub open spec fn first_profile(p: Seq<FirefoxProfile>, need_default: bool, j: int) -> Option<int>
    decreases p.len() - j,
{
    if j < 0 || j >= p.len() {
        None
    } else if p[j].has_cookies && (!need_default || p[j].is_default) {
        Some(j)
    } else {
        first_profile(p, need_default, j + 1)
    }
}

/// The profile to read cookies from: the first default one with cookies,
/// else the first with cookies.
pub fn cookie_profile(profiles: &Vec<FirefoxProfile>) -> (res: Result<usize, String>)
    ensures
        match first_profile(profiles@, true, 0) {
            Some(i) => res == Ok::<usize, String>(i as usize),
            None => match first_profile(profiles@, false, 0) {
                Some(i) => res == Ok::<usize, String>(i as usize),
                None => res matches Err(e) && e@ == "未找到有 cookies 的 Firefox 配置文件"@,
            },
        },
{
    let mut j: usize = 0;
    while j < profiles.len()
        invariant
            j <= profiles@.len(),
            first_profile(profiles@, true, 0) == first_profile(profiles@, true, j as int),
        decreases profiles@.len() - j,
    {
        if profiles[j].has_cookies && profiles[j].is_default {
            return Ok(j);
        }
        j = j + 1;
    }
    let mut k: usize = 0;
    while k < profiles.len()
        invariant
            k <= profiles@.len(),
            first_profile(profiles@, true, 0) is None,
            first_profile(profiles@, false, 0) == first_profile(profiles@, false, k as int),
        decreases profiles@.len() - k,
    {
        if profiles[k].has_cookies {
            return Ok(k);
        }
        k = k + 1;
    }
    Err(to_owned_string("未找到有 cookies 的 Firefox 配置文件"))
}

} // verus!

verus! {

/// The cookies of a domain name each name once, and a name holds the value
/// of the last row of the domain with that name.
pub proof fn lemma_domain_pairs(cookies: Seq<Cookie>, domain: Seq<char>, n: int)
    requires
        0 <= n <= cookies.len(),
    ensures
        crate::text::names_distinct(domain_pairs(cookies, domain, n)),
        n > 0 && host_matches(cookies[n - 1].host@, domain) ==> (find_key(
            domain_pairs(cookies, domain, n),
            cookies[n - 1].name@,
            0,
        ) matches Some(i) && domain_pairs(cookies, domain, n)[i].1 == cookies[n - 1].value@),
    decreases n,
{
    if n > 0 {
        lemma_domain_pairs(cookies, domain, n - 1);
        let prev = domain_pairs(cookies, domain, n - 1);
        if host_matches(cookies[n - 1].host@, domain) {
            crate::text::lemma_upsert(prev, cookies[n - 1].name@, cookies[n - 1].value@);
        }
    }
}

/// A host always belongs to its own domain, written with or without the
/// leading dot.
pub proof fn lemma_host_matches_itself(d: Seq<char>)
    ensures
        host_matches(d, d),
        !(d.len() > 0 && d[0] == '.') ==> host_matches(seq!['.'] + d, d),
{
}

} // verus!
