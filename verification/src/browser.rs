//! The folder browser's data level: directory entries, the hidden-file
//! marker, and the filtering of a listing.
//!
//! Reading a directory is I/O and happens outside the library; the caller
//! hands the raw entries (or the failure) to
//! [`crate::notepad_app::NotepadApp`], which applies the filter below.

use vstd::prelude::*;

verus! {

/// One entry of a directory listing: the entry's file name, its full path,
/// and whether it is a directory.
pub struct DirEntry {
    pub name: String,
    pub path: String,
    pub is_dir: bool,
}

impl Clone for DirEntry {
    fn clone(&self) -> (r: Self)
        ensures
            r == *self,
    {
        DirEntry { name: self.name.clone(), path: self.path.clone(), is_dir: self.is_dir }
    }
}

/// The library's one error class: a read, write or listing that failed.
pub struct IoError {
    pub message: String,
}

impl Clone for IoError {
    fn clone(&self) -> (r: Self)
        ensures
            r == *self,
    {
        IoError { message: self.message.clone() }
    }
}

/// Whether a file name denotes a hidden entry: it begins with the host
/// filesystem's hidden marker, the leading dot.
pub open spec fn spec_hidden(name: Seq<char>) -> bool {
    name.len() > 0 && name[0] == '.'
}

/// Whether a listing keeps this entry: always when hidden files are shown,
/// and otherwise exactly when its name is not hidden.
pub open spec fn spec_visible(e: DirEntry, show_hidden: bool) -> bool {
    show_hidden || !spec_hidden(e.name@)
}

/// The predicate a listing filters with, as a value, so that every contract
/// speaks of the same filter.
pub open spec fn visible_pred(show_hidden: bool) -> spec_fn(DirEntry) -> bool {
    |e: DirEntry| spec_visible(e, show_hidden)
}

/// Whether this file name begins with the hidden marker.
pub fn is_hidden_name(name: &str) -> (r: bool)
    ensures
        r == spec_hidden(name@),
{
    if name.is_empty() {
        false
    } else {
        name.get_char(0) == '.'
    }
}

/// The data level of `list(directory, show_hidden)`: keep, in order, exactly
/// the entries the listing shows. With `show_hidden` set every entry is kept;
/// without it an entry is kept exactly when its name does not begin with the
/// hidden marker.
pub fn filter_visible(entries: &Vec<DirEntry>, show_hidden: bool) -> (r: Vec<DirEntry>)
    ensures
        r@ == entries@.filter(visible_pred(show_hidden)),
{
    let mut r: Vec<DirEntry> = Vec::new();
    let mut i: usize = 0;
    while i < entries.len()
        invariant
            i <= entries.len(),
            r@ == entries@.take(i as int).filter(visible_pred(show_hidden)),
        decreases entries.len() - i,
    {
        let e = &entries[i];
        if show_hidden || !is_hidden_name(e.name.as_str()) {
            r.push(e.clone());
        }
        proof {
            entries@.take(i as int).lemma_filter_push(entries@[i as int], visible_pred(show_hidden));
            assert(entries@.take(i + 1) =~= entries@.take(i as int).push(entries@[i as int]));
        }
        i = i + 1;
    }
    proof {
        assert(entries@.take(entries@.len() as int) =~= entries@);
    }
    r
}

} // verus!
