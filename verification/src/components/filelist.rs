//! The file-list view's data: the snapshot of catalog entries it renders.

use vstd::prelude::*;
use crate::filelistitem::FileListItem;

verus! {

/// One rendering of the catalog: a snapshot of entries in display order.
/// Turning it into widget rows is the caller's side of the work.
#[derive(Debug)]
pub struct FileList {
    items: Vec<FileListItem>,
}

impl View for FileList {
    type V = Seq<FileListItem>;

    closed spec fn view(&self) -> Seq<FileListItem> {
        self.items@
    }
}

impl FileList {
    /// A view over the given snapshot.
    pub fn new(items: Vec<FileListItem>) -> (r: Self)
        ensures
            r@ == items@,
    {
        FileList { items }
    }

    /// The snapshot's entries.
    pub fn items(&self) -> (r: &Vec<FileListItem>)
        ensures
            r@ == self@,
    {
        &self.items
    }
}

} // verus!
