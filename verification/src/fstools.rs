//! How a directory entry is classified before it is handled.

use vstd::prelude::*;

verus! {

/// What a path turned out to be when its metadata was read.
#[derive(Clone, Copy, Debug, PartialEq, Eq, Structural)]
pub enum DirEntryCategory {
    DoesNotExist,
    RegularFile,
    SymbolicLink,
    Directory,
    Unknown,
}

} // verus!
