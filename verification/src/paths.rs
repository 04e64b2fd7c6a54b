//! Destination-path derivation. A path is handled as a plain string whose
//! final component follows the last '/'; replacing its extension follows
//! the usual rule that a leading dot does not start an extension.

use vstd::prelude::*;
use crate::text::{last_index_of, rfind_char, str_eq};

verus! {

/// Where the final path component begins: right after the last '/'.
pub open spec fn file_name_start(p: Seq<char>) -> int {
    last_index_of(p, '/') + 1
}

/// The final path component.
pub open spec fn file_name_of(p: Seq<char>) -> Seq<char> {
    p.skip(file_name_start(p))
}

/// Whether the final component can carry an extension at all: an empty
/// component or a relative marker cannot.
pub open spec fn has_file_name(p: Seq<char>) -> bool {
    file_name_of(p) != Seq::<char>::empty() && file_name_of(p) != "."@ && file_name_of(p) != ".."@
}

/// Where the extension (with its dot) starts, or the path's end if the
/// final component has no extension. A dot that begins the component does
/// not start an extension.
pub open spec fn extension_cut(p: Seq<char>) -> int {
    let d = last_index_of(p, '.');
    if d > file_name_start(p) {
        d
    } else {
        p.len() as int
    }
}

/// The path with its extension replaced by `e` (or `e` appended when the
/// final component has none); unchanged when there is no final component.
pub open spec fn spec_with_extension(p: Seq<char>, e: Seq<char>) -> Seq<char> {
    if has_file_name(p) {
        p.take(extension_cut(p)) + "."@ + e
    } else {
        p
    }
}

/// Replaces (or appends) the extension of the path's final component.
pub fn with_extension(path: &str, ext: &str) -> (r: String)
    ensures
        r@ == spec_with_extension(path@, ext@),
{
    let len = path.unicode_len();
    let fs: usize = match rfind_char(path, '/') {
        Some(i) => i + 1,
        None => 0,
    };
    assert(fs == file_name_start(path@));
    let fname = path.substring_char(fs, len);
    assert(fname@ == file_name_of(path@));
    if fname.is_empty() || str_eq(fname, ".") || str_eq(fname, "..") {
        assert(!has_file_name(path@)) by {
            if fname@.len() == 0 {
                assert(fname@ =~= Seq::<char>::empty());
            }
        }
        return path.to_owned();
    }
    let cut: usize = match rfind_char(path, '.') {
        Some(d) => if d > fs {
            d
        } else {
            len
        },
        None => len,
    };
    assert(cut == extension_cut(path@));
    let mut r = path.substring_char(0, cut).to_owned();
    r.append(".");
    r.append(ext);
    assert(r@ == spec_with_extension(path@, ext@)) by {
        assert(fname@ != Seq::<char>::empty());
    }
    r
}

} // verus!
