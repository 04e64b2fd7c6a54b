//! The catalog of discovered files: an ordered list keyed by path, with
//! point lookup by index or path and a consistent snapshot for display.

use vstd::prelude::*;
use crate::filelistitem::{FileListItem, FileListItemStatus};
use crate::text::str_eq;

verus! {

/// The index of the first entry in `s` whose path is `p`, or `s.len()` if
/// no entry has that path.
pub open spec fn find_path(s: Seq<FileListItem>, p: Seq<char>) -> int
    decreases s.len(),
{
    if s.len() == 0 {
        0
    } else if s[0].path@ == p {
        0
    } else {
        1 + find_path(s.drop_first(), p)
    }
}

/// Whether no two entries share a path: the catalog's invariant of exactly
/// one entry per distinct path.
pub open spec fn unique_paths(s: Seq<FileListItem>) -> bool {
    forall|i: int, j: int| 0 <= i < j < s.len() ==> s[i].path@ != s[j].path@
}

pub proof fn lemma_find_path_props(s: Seq<FileListItem>, p: Seq<char>)
    ensures
        0 <= find_path(s, p) <= s.len(),
        find_path(s, p) < s.len() ==> s[find_path(s, p)].path@ == p,
        forall|i: int| 0 <= i < find_path(s, p) ==> (#[trigger] s[i]).path@ != p,
        find_path(s, p) == s.len() ==> forall|i: int|
            0 <= i < s.len() ==> (#[trigger] s[i]).path@ != p,
    decreases s.len(),
{
    if s.len() > 0 && s[0].path@ != p {
        let s2 = s.drop_first();
        lemma_find_path_props(s2, p);
        assert(forall|i: int| 0 <= i < s2.len() ==> #[trigger] s2[i] == s[i + 1]);
        let f = find_path(s, p);
        if f < s.len() {
            assert(s[f] == s2[f - 1]);
        }
        assert forall|i: int| 0 <= i < f implies (#[trigger] s[i]).path@ != p by {
            if i > 0 {
                assert(s[i] == s2[i - 1]);
            }
        }
        if f == s.len() {
            assert forall|i: int| 0 <= i < s.len() implies (#[trigger] s[i]).path@ != p by {
                if i > 0 {
                    assert(s[i] == s2[i - 1]);
                }
            }
        }
    }
}

pub proof fn lemma_find_path_at(s: Seq<FileListItem>, p: Seq<char>, i: int)
    requires
        0 <= i <= s.len(),
        forall|j: int| 0 <= j < i ==> s[j].path@ != p,
        i == s.len() || s[i].path@ == p,
    ensures
        find_path(s, p) == i,
    decreases i,
{
    if s.len() == 0 || i == 0 {
    } else {
        assert(s[0].path@ != p);
        assert(forall|j: int|
            0 <= j < s.drop_first().len() ==> #[trigger] s.drop_first()[j] == s[j + 1]);
        lemma_find_path_at(s.drop_first(), p, i - 1);
    }
}

/// Inserting a fresh path keeps the catalog's paths unique.
pub proof fn lemma_insert_keeps_unique(s: Seq<FileListItem>, item: FileListItem)
    requires
        unique_paths(s),
        find_path(s, item.path@) == s.len(),
    ensures
        unique_paths(s.push(item)),
{
    lemma_find_path_props(s, item.path@);
}

/// The catalog after setting the status of the entry with path `p`:
/// unchanged when no entry has that path.
pub open spec fn set_status_seq(
    s: Seq<FileListItem>,
    p: Seq<char>,
    status: FileListItemStatus,
) -> Seq<FileListItem> {
    let f = find_path(s, p);
    if f < s.len() {
        s.update(f, FileListItem { status, ..s[f] })
    } else {
        s
    }
}

/// Updating one entry's status keeps the catalog's paths unique.
pub proof fn lemma_update_keeps_unique(s: Seq<FileListItem>, k: int, status: FileListItemStatus)
    requires
        unique_paths(s),
        0 <= k < s.len(),
    ensures
        unique_paths(s.update(k, FileListItem { status, ..s[k] })),
{
}

/// The catalog: every discovered file in discovery order.
pub struct FileList {
    items: Vec<FileListItem>,
}

impl View for FileList {
    type V = Seq<FileListItem>;

    closed spec fn view(&self) -> Seq<FileListItem> {
        self.items@
    }
}

impl FileList {
    /// An empty catalog.
    pub fn new() -> (r: Self)
        ensures
            r@ == Seq::<FileListItem>::empty(),
    {
        FileList { items: Vec::new() }
    }

    /// How many files have been discovered.
    pub fn len(&self) -> (n: usize)
        ensures
            n == self@.len(),
    {
        self.items.len()
    }

    /// Adds a newly discovered file at the end of the catalog. A path that
    /// is already present is left as it is: there is exactly one entry per
    /// distinct path, and entries are never replaced during a session.
    pub fn insert(&mut self, item: FileListItem)
        ensures
            find_path(old(self)@, item.path@) == old(self)@.len() ==> final(self)@ == old(
                self,
            )@.push(item),
            find_path(old(self)@, item.path@) < old(self)@.len() ==> final(self)@ == old(self)@,
            unique_paths(old(self)@) ==> unique_paths(final(self)@),
    {
        proof {
            lemma_find_path_props(old(self)@, item.path@);
            if unique_paths(old(self)@) && find_path(old(self)@, item.path@) == old(self)@.len() {
                lemma_insert_keeps_unique(old(self)@, item);
            }
        }
        let len = self.items.len();
        let mut i: usize = 0;
        while i < len
            invariant_except_break
                i <= len,
                len == self@.len(),
                *self == *old(self),
                forall|j: int| 0 <= j < i ==> self@[j].path@ != item.path@,
            ensures
                i <= len,
                len == self@.len(),
                *self == *old(self),
                forall|j: int| 0 <= j < i ==> self@[j].path@ != item.path@,
                i == len || self@[i as int].path@ == item.path@,
            decreases len - i,
        {
            if str_eq(self.items[i].path.as_str(), item.path.as_str()) {
                break;
            }
            i = i + 1;
        }
        proof {
            lemma_find_path_at(self@, item.path@, i as int);
        }
        if i == len {
            self.items.push(item);
        }
    }

    /// A copy of every entry, in order: the consistent snapshot readers
    /// render from.
    pub fn snapshot(&self) -> (r: Vec<FileListItem>)
        ensures
            r@ == self@,
    {
        let len = self.items.len();
        let mut r: Vec<FileListItem> = Vec::new();
        let mut i: usize = 0;
        while i < len
            invariant
                i <= len,
                len == self@.len(),
                r@ =~= self@.take(i as int),
            decreases len - i,
        {
            r.push(self.items[i].clone());
            assert(r@ =~= self@.take(i + 1));
            i = i + 1;
        }
        assert(self@.take(len as int) =~= self@);
        r
    }

    /// The path of the entry at `index`, if there is one.
    pub fn get_path(&self, index: usize) -> (r: Option<String>)
        ensures
            index < self@.len() ==> (r matches Some(p) && p@ == self@[index as int].path@),
            index >= self@.len() ==> r is None,
    {
        if index < self.items.len() {
            Some(self.items[index].path.clone())
        } else {
            None
        }
    }

    /// A copy of the entry at `index`, if there is one.
    pub fn get(&self, index: usize) -> (r: Option<FileListItem>)
        ensures
            index < self@.len() ==> r == Some(self@[index as int]),
            index >= self@.len() ==> r is None,
    {
        if index < self.items.len() {
            Some(self.items[index].clone())
        } else {
            None
        }
    }

    /// Sets the status of the entry at `index`; an index past the end is
    /// silently skipped.
    pub fn set_status_at(&mut self, index: usize, status: FileListItemStatus)
        ensures
            index < old(self)@.len() ==> final(self)@ == old(self)@.update(
                index as int,
                FileListItem { status, ..old(self)@[index as int] },
            ),
            index >= old(self)@.len() ==> final(self)@ == old(self)@,
    {
        if index < self.items.len() {
            let mut item = self.items[index].clone();
            item.status = status;
            self.items[index] = item;
        }
    }

    /// Sets the status of the entry with the given path; a path with no
    /// entry is silently skipped, as an event may outlive a catalog view.
    pub fn set_status(&mut self, path: &str, status: FileListItemStatus)
        ensures
            final(self)@ == set_status_seq(old(self)@, path@, status),
            unique_paths(old(self)@) ==> unique_paths(final(self)@),
    {
        proof {
            lemma_find_path_props(old(self)@, path@);
        }
        let len = self.items.len();
        let mut i: usize = 0;
        while i < len
            invariant_except_break
                i <= len,
                len == self@.len(),
                *self == *old(self),
                forall|j: int| 0 <= j < i ==> self@[j].path@ != path@,
            ensures
                i <= len,
                len == self@.len(),
                *self == *old(self),
                forall|j: int| 0 <= j < i ==> self@[j].path@ != path@,
                i == len || self@[i as int].path@ == path@,
            decreases len - i,
        {
            if str_eq(self.items[i].path.as_str(), path) {
                break;
            }
            i = i + 1;
        }
        proof {
            lemma_find_path_at(self@, path@, i as int);
            if unique_paths(self@) && i < len {
                lemma_update_keeps_unique(self@, i as int, status);
            }
        }
        if i < len {
            let mut item = self.items[i].clone();
            item.status = status;
            self.items[i] = item;
        }
    }
}

} // verus!
