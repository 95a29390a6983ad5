//! Which files go when a user's downloads are deleted: every download sits
//! under `{download_path}/{app_name}/{mode}/{nickname}/...`, so the folder
//! right below a known mode folder is the user's folder.

use vstd::prelude::*;
use crate::text::{str_eq, views};

verus! {

/// Name for what `std::path::Path::parent` gives (as text) for a path.
pub uninterp spec fn spec_parent(p: Seq<char>) -> Option<Seq<char>>;

/// Calls `std::path::Path::parent`. Claimed of it: the result is the named
/// parent of the input, and, being the path without its final component,
/// is shorter than it.
#[verifier::external_body]
pub(crate) fn path_parent(p: &str) -> (res: Option<String>)
    ensures
        match res {
            Some(q) => spec_parent(p@) == Some(q@) && q@.len() < p@.len(),
            None => spec_parent(p@) is None,
        },
{
    std::path::Path::new(p).parent().map(|q| q.to_string_lossy().to_string())
}

/// Name for what `std::path::Path::file_name` gives (as text) for a path.
pub uninterp spec fn spec_file_name(p: Seq<char>) -> Option<Seq<char>>;

/// Calls `std::path::Path::file_name`. Claimed of it: the result is the
/// named final component of the input.
#[verifier::external_body]
pub(crate) fn path_file_name(p: &str) -> (res: Option<String>)
    ensures
        match res {
            Some(q) => spec_file_name(p@) == Some(q@),
            None => spec_file_name(p@) is None,
        },
{
    std::path::Path::new(p).file_name().map(|q| q.to_string_lossy().to_string())
}

/// Name for what `str::to_lowercase` gives.
pub uninterp spec fn spec_lowercase(s: Seq<char>) -> Seq<char>;

/// Calls `str::to_lowercase`. Claimed of it: the result is the named
/// lower-case form of the input.
#[verifier::external_body]
pub(crate) fn lowercase(s: &str) -> (res: String)
    ensures
        res@ == spec_lowercase(s@),
{
    s.to_lowercase()
}

/// Whether a folder name is one of the download modes.
pub open spec fn is_mode_folder(n: Seq<char>) -> bool {
    n == "post"@ || n == "like"@ || n == "mix"@ || n == "collects"@ || n == "live"@ || n == "music"@
        || n == "one"@
}

/// Walking up from `cur`: the first path whose parent's name is a mode
/// folder (compared in lower case).
pub open spec fn user_dir_from(cur: Seq<char>) -> Option<Seq<char>>
    decreases cur.len(),
{
    match spec_parent(cur) {
        None => None,
        Some(p) => if p.len() >= cur.len() {
            None
        } else if spec_file_name(p) is Some && is_mode_folder(spec_lowercase(spec_file_name(p)->Some_0)) {
            Some(cur)
        } else {
            user_dir_from(p)
        },
    }
}

fn mode_folder(n: &str) -> (res: bool)
    ensures
        res == is_mode_folder(n@),
{
    str_eq(n, "post") || str_eq(n, "like") || str_eq(n, "mix") || str_eq(n, "collects") || str_eq(n, "live")
        || str_eq(n, "music") || str_eq(n, "one")
}

/// The user folder of a downloaded file, or `None` when the path does not
/// follow the download layout.
pub fn extract_user_download_dir(file_path: &str) -> (res: Option<String>)
    ensures
        match res {
            Some(d) => user_dir_from(file_path@) == Some(d@),
            None => user_dir_from(file_path@) is None,
        },
{
    let mut current = crate::text::to_owned_string(file_path);
    loop
        invariant
            user_dir_from(file_path@) == user_dir_from(current@),
        decreases current@.len(),
    {
        let parent = match path_parent(current.as_str()) {
            Some(p) => p,
            None => {
                return None;
            },
        };
        let hit = match path_file_name(parent.as_str()) {
            Some(name) => {
                let lower = lowercase(name.as_str());
                mode_folder(lower.as_str())
            },
            None => false,
        };
        if hit {
            return Some(current);
        }
        current = parent;
    }
}

/// The distinct user folders of the first `n` files, in order of first
/// appearance.
pub open spec fn user_dirs_spec(paths: Seq<Seq<char>>, n: int) -> Seq<Seq<char>>
    decreases n,
{
    if n <= 0 || n > paths.len() {
        Seq::empty()
    } else {
        let prev = user_dirs_spec(paths, n - 1);
        match user_dir_from(paths[n - 1]) {
            Some(d) => if prev.contains(d) {
                prev
            } else {
                prev.push(d)
            },
            None => prev,
        }
    }
}

/// What to delete for a user's downloads: their user folders, or, when no
/// path follows the layout, the files one by one.
pub open spec fn deletion_targets_spec(paths: Seq<Seq<char>>) -> Seq<Seq<char>> {
    let dirs = user_dirs_spec(paths, paths.len() as int);
    if dirs.len() == 0 {
        paths
    } else {
        dirs
    }
}

/// The paths to delete for a user's downloaded files.
pub fn download_deletion_targets(paths: &Vec<String>) -> (res: Vec<String>)
    ensures
        views(res@) == deletion_targets_spec(views(paths@)),
{
    let ghost pv = views(paths@);
    let mut dirs: Vec<String> = Vec::new();
    let mut i: usize = 0;
    proof {
        assert(views(dirs@) =~= Seq::<Seq<char>>::empty());
    }
    while i < paths.len()
        invariant
            pv == views(paths@),
            i <= paths@.len(),
            views(dirs@) == user_dirs_spec(pv, i as int),
        decreases paths@.len() - i,
    {
        proof {
            assert(pv[i as int] == paths@[i as int]@);
        }
        match extract_user_download_dir(paths[i].as_str()) {
            Some(d) => {
                let seen = crate::text::contains_before(&dirs, dirs.len(), d.as_str());
                proof {
                    assert(views(dirs@).take(dirs@.len() as int) =~= views(dirs@));
                }
                if !seen {
                    let ghost before = views(dirs@);
                    dirs.push(d);
                    proof {
                        assert(views(dirs@) =~= before.push(d@));
                    }
                }
            },
            None => {},
        }
        i = i + 1;
    }
    if dirs.len() == 0 {
        crate::download::tasks::copy_strings(paths)
    } else {
        dirs
    }
}

} // verus!

verus! {

/// Each user folder is deleted once: the folders found are distinct.
pub proof fn lemma_user_dirs_distinct(paths: Seq<Seq<char>>, n: int)
    requires
        0 <= n <= paths.len(),
    ensures
        user_dirs_spec(paths, n).no_duplicates(),
    decreases n,
{
    if n > 0 {
        lemma_user_dirs_distinct(paths, n - 1);
        let prev = user_dirs_spec(paths, n - 1);
        match user_dir_from(paths[n - 1]) {
            Some(d) => {
                if !prev.contains(d) {
                    let r = prev.push(d);
                    assert forall|a: int, b: int| 0 <= a < b < r.len() implies r[a] != r[b] by {
                        if b == prev.len() {
                            assert(prev.contains(prev[a]));
                        }
                    }
                }
            },
            None => {},
        }
    }
}

} // verus!
