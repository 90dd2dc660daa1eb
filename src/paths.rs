use std::path::Path;
use vstd::prelude::*;
use vstd::string::*;

use crate::model::{opt_string_view, ChildEntry};

verus! {

/// The final component of a path, as `Path::file_name` reads it.
pub uninterp spec fn final_component(p: Seq<char>) -> Option<Seq<char>>;

/// Relies on `Path::file_name`: the final component of the path, if any.
#[verifier::external_body]
pub(crate) fn file_name_of(p: &str) -> (r: Option<String>)
    ensures
        opt_string_view(r) == final_component(p@),
{
    Path::new(p).file_name().map(|n| n.to_string_lossy().into_owned())
}

/// The path of `p` relative to `base`, as `pathdiff::diff_paths` computes it.
pub uninterp spec fn relative_path(p: Seq<char>, base: Seq<char>) -> Option<Seq<char>>;

/// Relies on `pathdiff::diff_paths`: the relative path from `base` to `p`,
/// from the two paths' components alone.
#[verifier::external_body]
pub(crate) fn diff_paths_of(p: &str, base: &str) -> (r: Option<String>)
    ensures
        opt_string_view(r) == relative_path(p@, base@),
{
    pathdiff::diff_paths(p, base).map(|q| q.to_string_lossy().into_owned())
}

/// Whether a name starts with the hidden-entry marker `.`.
pub open spec fn hidden_name(n: Seq<char>) -> bool {
    n.len() > 0 && n[0] == '.'
}

/// Whether the final component of a path is hidden; a path without one is not.
pub open spec fn hidden_path(p: Seq<char>) -> bool {
    match final_component(p) {
        Some(n) => hidden_name(n),
        None => false,
    }
}

/// Tells whether the final component of `path` starts with `.`.
pub fn is_hidden(path: &str) -> (r: bool)
    ensures
        r == hidden_path(path@),
{
    match file_name_of(path) {
        Some(name) => {
            let s = name.as_str();
            s.unicode_len() > 0 && s.get_char(0) == '.'
        },
        None => false,
    }
}

/// Whether a child of a scanned directory becomes a folder entry.
pub open spec fn kept_entry(e: ChildEntry) -> bool {
    e.is_dir && !hidden_path(e.path@)
}

/// The paths of the children that are visible directories, in their order.
pub open spec fn visible_directories(s: Seq<ChildEntry>) -> Seq<Seq<char>>
    decreases s.len(),
{
    if s.len() == 0 {
        Seq::empty()
    } else {
        let prev = visible_directories(s.drop_last());
        if kept_entry(s.last()) {
            prev.push(s.last().path@)
        } else {
            prev
        }
    }
}

/// Keeps, in order, the paths of the children that are directories and are
/// not hidden.
pub fn select_directories(entries: &Vec<ChildEntry>) -> (r: Vec<String>)
    ensures
        r@.map_values(|s: String| s@) == visible_directories(entries@),
{
    let mut out: Vec<String> = Vec::new();
    let mut i: usize = 0;
    while i < entries.len()
        invariant
            i <= entries@.len(),
            out@.map_values(|s: String| s@) == visible_directories(entries@.take(i as int)),
        decreases entries@.len() - i,
    {
        let e = &entries[i];
        let ghost prefix = entries@.take(i as int + 1);
        assert(prefix.drop_last() =~= entries@.take(i as int));
        if e.is_dir && !is_hidden(e.path.as_str()) {
            out.push(e.path.clone());
        }
        assert(out@.map_values(|s: String| s@) =~= visible_directories(prefix));
        i = i + 1;
    }
    assert(entries@.take(entries@.len() as int) =~= entries@);
    out
}

} // verus!
