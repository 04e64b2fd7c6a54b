//! The scan feeder's configuration; walking directories is the caller's
//! side of the work.

use vstd::prelude::*;

verus! {

/// A directory scan: whether it descends into subdirectories.
#[derive(Clone, Copy, Debug, PartialEq, Eq, Structural)]
pub struct FileScanner {
    pub recursive: bool,
}

impl FileScanner {
    /// A scanner, recursive or flat.
    pub fn new(recursive: bool) -> (r: Self)
        ensures
            r.recursive == recursive,
    {
        FileScanner { recursive }
    }
}

} // verus!
