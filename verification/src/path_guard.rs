//! Path safety: every file the application deletes or writes on request
//! must lie inside the project directory. The caller resolves the path
//! (absolute form, nearest existing ancestor and its canonical form, the
//! project root); the decision is made here.

use vstd::prelude::*;
use crate::text::is_blank;
use crate::download::live::{component_kinds, spec_component_kinds, ComponentKind};

verus! {

/// Name for what `std::path::Path::starts_with` tells of a path and a base:
/// whether the base's components are a prefix of the path's.
pub uninterp spec fn spec_path_starts_with(path: Seq<char>, base: Seq<char>) -> bool;

/// Calls `std::path::Path::starts_with`. Claimed of it: the result is the
/// named test of the two arguments.
#[verifier::external_body]
pub(crate) fn path_starts_with(path: &str, base: &str) -> (res: bool)
    ensures
        res == spec_path_starts_with(path@, base@),
{
    std::path::Path::new(path).starts_with(base)
}

/// Name for what `std::path::Path::strip_prefix` gives (as text): the path
/// without the base, or `None` when the base is not a prefix of it.
pub uninterp spec fn spec_path_strip_prefix(path: Seq<char>, base: Seq<char>) -> Option<Seq<char>>;

/// Calls `std::path::Path::strip_prefix`. Claimed of it: the result is the
/// named remainder of the path, or `None` where the call fails.
#[verifier::external_body]
pub(crate) fn path_strip_prefix(path: &str, base: &str) -> (res: Option<String>)
    ensures
        match res {
            Some(r) => spec_path_strip_prefix(path@, base@) == Some(r@),
            None => spec_path_strip_prefix(path@, base@) is None,
        },
{
    match std::path::Path::new(path).strip_prefix(base) {
        Ok(r) => Some(r.to_string_lossy().to_string()),
        Err(_) => None,
    }
}

/// Why a path is refused.
#[derive(Debug, Clone, Copy, PartialEq, Eq, Structural)]
pub enum PathRefusal {
    /// Its nearest existing ancestor, once made canonical, is not under the
    /// project root.
    OutsideRoot,
    /// Below that ancestor it climbs with a `..` component.
    ParentComponent,
}

/// Whether a sequence of component kinds holds a `..`.
pub open spec fn has_parent(k: Seq<ComponentKind>) -> bool {
    exists|i: int| 0 <= i < k.len() && k[i] == ComponentKind::ParentDir
}

/// The verdict on a path: `abs` is its absolute form, `ancestor` its nearest
/// existing ancestor and `canonical_ancestor` that ancestor made canonical,
/// `root` the project root. Refused when the canonical ancestor is not under
/// the root, or when the part of `abs` below the ancestor holds `..`.
pub open spec fn path_check_spec(abs: Seq<char>, ancestor: Seq<char>, canonical_ancestor: Seq<char>, root: Seq<char>) -> Option<
    PathRefusal,
> {
    if !spec_path_starts_with(canonical_ancestor, root) {
        Some(PathRefusal::OutsideRoot)
    } else {
        match spec_path_strip_prefix(abs, ancestor) {
            Some(rest) => if has_parent(spec_component_kinds(rest)) {
                Some(PathRefusal::ParentComponent)
            } else {
                None
            },
            None => None,
        }
    }
}

/// Decides whether a resolved path may be used (see [`path_check_spec`]);
/// `None` accepts it.
pub fn check_path_in_project(abs: &str, ancestor: &str, canonical_ancestor: &str, root: &str) -> (res: Option<
    PathRefusal,
>)
    ensures
        res == path_check_spec(abs@, ancestor@, canonical_ancestor@, root@),
{
    if !path_starts_with(canonical_ancestor, root) {
        return Some(PathRefusal::OutsideRoot);
    }
    let rest = match path_strip_prefix(abs, ancestor) {
        Some(r) => r,
        None => {
            return None;
        },
    };
    let kinds = component_kinds(rest.as_str());
    let mut i: usize = 0;
    while i < kinds.len()
        invariant
            spec_path_starts_with(canonical_ancestor@, root@),
            spec_path_strip_prefix(abs@, ancestor@) == Some(rest@),
            kinds@ == spec_component_kinds(rest@),
            i <= kinds@.len(),
            forall|j: int| 0 <= j < i ==> kinds@[j] != ComponentKind::ParentDir,
        decreases kinds@.len() - i,
    {
        match kinds[i] {
            ComponentKind::ParentDir => {
                proof {
                    assert(kinds@[i as int] == ComponentKind::ParentDir);
                }
                return Some(PathRefusal::ParentComponent);
            },
            _ => {},
        }
        i = i + 1;
    }
    None
}

/// The path a delete request names, when it names one: a path that is
/// missing or blank deletes nothing.
pub fn deletion_target(path: &Option<String>) -> (res: Option<&str>)
    ensures
        match path {
            Some(p) => if crate::text::blank(p@) {
                res is None
            } else {
                res matches Some(q) && q@ == p@
            },
            None => res is None,
        },
{
    match path {
        Some(p) => if is_blank(p.as_str()) {
            None
        } else {
            Some(p.as_str())
        },
        None => None,
    }
}

/// A path that climbs with `..` below its existing ancestor is refused,
/// whatever the root: a path inside the project cannot leave it that way.
pub proof fn lemma_parent_component_refused(abs: Seq<char>, ancestor: Seq<char>, canonical_ancestor: Seq<char>, root: Seq<char>)
    requires
        spec_path_strip_prefix(abs, ancestor) matches Some(rest) && has_parent(spec_component_kinds(rest)),
    ensures
        path_check_spec(abs, ancestor, canonical_ancestor, root) is Some,
{
}

/// A path accepted by the check has its canonical ancestor under the root.
pub proof fn lemma_accepted_is_under_root(abs: Seq<char>, ancestor: Seq<char>, canonical_ancestor: Seq<char>, root: Seq<char>)
    requires
        path_check_spec(abs, ancestor, canonical_ancestor, root) is None,
    ensures
        spec_path_starts_with(canonical_ancestor, root),
{
}

} // verus!
