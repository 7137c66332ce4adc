//! The decision, per directory entry, whether it takes part in a transfer.
use vstd::prelude::*;
use crate::path::{same_path, same_path_exec};

verus! {

/// What a directory entry is on the local side.
#[derive(Clone, Copy, Debug, PartialEq, Eq, Structural)]
pub enum EntryKind {
    Directory,
    File,
    /// A symbolic link, a device, a socket: neither uploaded nor descended into.
    Other,
}

/// Whether an entry takes part, and if not, why.
#[derive(Clone, Copy, Debug, PartialEq, Eq, Structural)]
pub enum Filter {
    Include,
    /// The entry's path is, component by component, one of the paths to skip.
    SkipExplicit,
    /// The entry is a directory whose name starts with `.`, and such
    /// directories are suppressed.
    SkipDotfile,
}

/// A name that starts with a dot.
pub open spec fn is_dotted(name: Seq<char>) -> bool {
    name.len() > 0 && name[0] == '.'
}

/// Whether `path` names the same path as one of `skip`.
pub open spec fn in_skip(skip: Seq<Seq<char>>, path: Seq<char>) -> bool {
    exists|i: int| 0 <= i < skip.len() && same_path(#[trigger] skip[i], path)
}

/// The filter's decision for the entry at `path`, whose base name is `name`.
/// Matching against the skip set is path equality by components, not a prefix
/// match; the dot rule applies to directories only.
pub open spec fn filter_of(
    path: Seq<char>,
    name: Seq<char>,
    kind: EntryKind,
    skip: Seq<Seq<char>>,
    ignore_dotfiles: bool,
) -> Filter {
    if in_skip(skip, path) {
        Filter::SkipExplicit
    } else if ignore_dotfiles && kind == EntryKind::Directory && is_dotted(name) {
        Filter::SkipDotfile
    } else {
        Filter::Include
    }
}

/// The paths of a list of strings.
pub open spec fn views_of(v: Seq<String>) -> Seq<Seq<char>> {
    v.map_values(|p: String| p@)
}

/// Whether `path` names the same path as one of `skip`.
pub fn is_skipped(path: &String, skip: &Vec<String>) -> (r: bool)
    ensures
        r == in_skip(views_of(skip@), path@),
{
    let mut i: usize = 0;
    while i < skip.len()
        invariant
            i <= skip@.len(),
            forall|j: int| 0 <= j < i ==> !same_path(#[trigger] views_of(skip@)[j], path@),
        decreases skip.len() - i,
    {
        if same_path_exec(skip[i].as_str(), path.as_str()) {
            assert(same_path(views_of(skip@)[i as int], path@));
            return true;
        }
        i = i + 1;
    }
    false
}

/// Whether the base name `name` starts with a dot.
pub fn starts_with_dot(name: &String) -> (r: bool)
    ensures
        r == is_dotted(name@),
{
    name.unicode_len() > 0 && name.as_str().get_char(0) == '.'
}

/// Decides whether the entry at `path`, with base name `name`, takes part.
pub fn classify(
    path: &String,
    name: &String,
    kind: EntryKind,
    skip: &Vec<String>,
    ignore_dotfiles: bool,
) -> (r: Filter)
    ensures
        r == filter_of(path@, name@, kind, views_of(skip@), ignore_dotfiles),
{
    if is_skipped(path, skip) {
        Filter::SkipExplicit
    } else if ignore_dotfiles && kind == EntryKind::Directory && starts_with_dot(name) {
        Filter::SkipDotfile
    } else {
        Filter::Include
    }
}

} // verus!
