//! Directory resolution policy.
//!
//! The locale folder inside the asset directory varies by client language
//! and is not known in advance, so resolution is structural: the asset
//! directory is found by its fixed name, the locale folder is the first
//! directory entry inside it, and the server-list file is the first entry
//! whose name holds a fixed substring. First-match is a deliberate,
//! explicit policy here, not an accident of iteration order.

use vstd::prelude::*;

verus! {

use crate::text::{contains_seq, str_contains};

/// One entry of a directory listing, as plain values.
#[derive(Debug)]
pub struct DirEntryInfo {
    /// File or directory name (not a full path).
    pub name: String,
    /// Whether the entry is itself a directory.
    pub is_dir: bool,
}

/// `e` is a directory named exactly `name`.
pub open spec fn is_named_dir(e: DirEntryInfo, name: Seq<char>) -> bool {
    e.is_dir && e.name@ == name
}

/// `e` is a file whose name holds `pat`.
pub open spec fn is_match_file(e: DirEntryInfo, pat: Seq<char>) -> bool {
    contains_seq(e.name@, pat)
}

/// Index of the first directory entry named `name`, if one exists.
pub fn find_named_dir(entries: &Vec<DirEntryInfo>, name: &str) -> (r: Option<usize>)
    ensures
        r matches Some(i) ==> i < entries@.len() && is_named_dir(entries@[i as int], name@)
            && (forall|j: int| 0 <= j < i ==> !is_named_dir(#[trigger] entries@[j], name@)),
        r is None ==> forall|j: int|
            0 <= j < entries@.len() ==> !is_named_dir(#[trigger] entries@[j], name@),
{
    let want: String = name.to_owned();
    let mut i: usize = 0;
    while i < entries.len()
        invariant
            i <= entries@.len(),
            want@ == name@,
            forall|j: int| 0 <= j < i ==> !is_named_dir(#[trigger] entries@[j], name@),
        decreases entries@.len() - i,
    {
        if entries[i].is_dir && entries[i].name == want {
            return Some(i);
        }
        i = i + 1;
    }
    None
}

/// Index of the first entry that is a directory, if any.
pub fn find_first_dir(entries: &Vec<DirEntryInfo>) -> (r: Option<usize>)
    ensures
        r matches Some(i) ==> i < entries@.len() && entries@[i as int].is_dir && (forall|j: int|
            0 <= j < i ==> !(#[trigger] entries@[j]).is_dir),
        r is None ==> forall|j: int| 0 <= j < entries@.len() ==> !(#[trigger] entries@[j]).is_dir,
{
    let mut i: usize = 0;
    while i < entries.len()
        invariant
            i <= entries@.len(),
            forall|j: int| 0 <= j < i ==> !(#[trigger] entries@[j]).is_dir,
        decreases entries@.len() - i,
    {
        if entries[i].is_dir {
            return Some(i);
        }
        i = i + 1;
    }
    None
}

/// Index of the first entry whose name holds `pat`, if any.
pub fn find_matching_file(entries: &Vec<DirEntryInfo>, pat: &str) -> (r: Option<usize>)
    ensures
        r matches Some(i) ==> i < entries@.len() && is_match_file(entries@[i as int], pat@)
            && (forall|j: int| 0 <= j < i ==> !is_match_file(#[trigger] entries@[j], pat@)),
        r is None ==> forall|j: int|
            0 <= j < entries@.len() ==> !is_match_file(#[trigger] entries@[j], pat@),
{
    let mut i: usize = 0;
    while i < entries.len()
        invariant
            i <= entries@.len(),
            forall|j: int| 0 <= j < i ==> !is_match_file(#[trigger] entries@[j], pat@),
        decreases entries@.len() - i,
    {
        if str_contains(entries[i].name.as_str(), pat) {
            return Some(i);
        }
        i = i + 1;
    }
    None
}

} // verus!
