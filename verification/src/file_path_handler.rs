//! One path handed to the compression front, with the front it will use.

use vstd::prelude::*;
use crate::compressor::Compressor;

verus! {

/// A pending piece of path work: the path and the shared compression
/// front that regular files are handed to.
#[derive(Debug)]
pub struct FilePathHandler {
    path: String,
    compressor: Compressor,
}

impl FilePathHandler {
    /// The path to handle.
    pub closed spec fn spec_path(&self) -> Seq<char> {
        self.path@
    }

    /// The compression front used for regular files.
    pub closed spec fn spec_compressor(&self) -> Compressor {
        self.compressor
    }

    /// A handler for one path.
    pub fn for_pathbuf(path: String, compressor: &Compressor) -> (r: Self)
        ensures
            r.spec_path() == path@,
            r.spec_compressor() == *compressor,
    {
        FilePathHandler { path, compressor: compressor.clone() }
    }

    /// The path to handle.
    pub fn path(&self) -> (r: &String)
        ensures
            r@ == self.spec_path(),
    {
        &self.path
    }

    /// A copy of the compression front.
    pub fn compressor(&self) -> (r: Compressor)
        ensures
            r == self.spec_compressor(),
    {
        self.compressor.clone()
    }
}

} // verus!
