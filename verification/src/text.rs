//! Small verified text helpers: string equality and splitting a line at a
//! single separator, as the progress protocol and the prober output need.

use vstd::prelude::*;

verus! {

/// String equality by contents.
pub fn str_eq(a: &str, b: &str) -> (r: bool)
    ensures
        r == (a@ == b@),
{
    a.to_owned() == b.to_owned()
}

/// The index of the first occurrence of `sep` in `s`, or `s.len()` if there
/// is none.
pub open spec fn find_sep(s: Seq<char>, sep: char) -> int
    decreases s.len(),
{
    if s.len() == 0 {
        0
    } else if s[0] == sep {
        0
    } else {
        1 + find_sep(s.drop_first(), sep)
    }
}

/// Whether splitting `s` at `sep` yields exactly two parts, i.e. `sep`
/// occurs exactly once.
pub open spec fn splits_in_two(s: Seq<char>, sep: char) -> bool {
    let i = find_sep(s, sep);
    i < s.len() && !s.skip(i + 1).contains(sep)
}

/// What precedes the first `sep`.
pub open spec fn sep_head(s: Seq<char>, sep: char) -> Seq<char> {
    s.take(find_sep(s, sep))
}

/// What follows the first `sep`.
pub open spec fn sep_tail(s: Seq<char>, sep: char) -> Seq<char> {
    s.skip(find_sep(s, sep) + 1)
}

proof fn lemma_find_sep_is(s: Seq<char>, sep: char, i: int)
    requires
        0 <= i <= s.len(),
        forall|j: int| 0 <= j < i ==> s[j] != sep,
        i == s.len() || s[i] == sep,
    ensures
        find_sep(s, sep) == i,
    decreases i,
{
    if s.len() == 0 {
    } else if i == 0 {
    } else {
        assert(s[0] != sep);
        assert(forall|j: int| 0 <= j < i - 1 ==> s.drop_first()[j] == s[j + 1]);
        lemma_find_sep_is(s.drop_first(), sep, i - 1);
    }
}

/// The index of the last occurrence of `c` in `p`, or -1 if there is none.
pub open spec fn last_index_of(p: Seq<char>, c: char) -> int
    decreases p.len(),
{
    if p.len() == 0 {
        -1
    } else if p.last() == c {
        p.len() - 1
    } else {
        last_index_of(p.drop_last(), c)
    }
}

proof fn lemma_last_index_is(p: Seq<char>, c: char, i: int)
    requires
        0 <= i < p.len(),
        p[i] == c,
        forall|j: int| i < j < p.len() ==> p[j] != c,
    ensures
        last_index_of(p, c) == i,
    decreases p.len(),
{
    if i == p.len() - 1 {
    } else {
        assert(p.last() != c);
        assert(p.drop_last()[i] == p[i]);
        assert(forall|j: int| i < j < p.drop_last().len() ==> #[trigger] p.drop_last()[j] == p[j]);
        lemma_last_index_is(p.drop_last(), c, i);
    }
}

proof fn lemma_last_index_none(p: Seq<char>, c: char)
    requires
        forall|j: int| 0 <= j < p.len() ==> p[j] != c,
    ensures
        last_index_of(p, c) == -1,
    decreases p.len(),
{
    if p.len() > 0 {
        assert(forall|j: int| 0 <= j < p.drop_last().len() ==> #[trigger] p.drop_last()[j] == p[j]);
        lemma_last_index_none(p.drop_last(), c);
    }
}

/// Finds the last occurrence of `c` in `s`.
pub fn rfind_char(s: &str, c: char) -> (r: Option<usize>)
    ensures
        r matches Some(i) ==> last_index_of(s@, c) == i && i < s@.len(),
        r is None ==> last_index_of(s@, c) == -1,
{
    let len = s.unicode_len();
    let mut j: usize = len;
    while j > 0
        invariant
            j <= len,
            len == s@.len(),
            forall|k: int| j <= k < len ==> s@[k] != c,
        decreases j,
    {
        j = j - 1;
        if s.get_char(j) == c {
            proof {
                lemma_last_index_is(s@, c, j as int);
            }
            return Some(j);
        }
    }
    proof {
        lemma_last_index_none(s@, c);
    }
    None
}

/// Splits `s` at `sep` if `sep` occurs exactly once, as splitting into
/// exactly two parts does.
pub fn split_two(s: &str, sep: char) -> (r: Option<(String, String)>)
    ensures
        r is Some <==> splits_in_two(s@, sep),
        r matches Some(p) ==> p.0@ == sep_head(s@, sep) && p.1@ == sep_tail(s@, sep),
{
    let len = s.unicode_len();
    let mut i: usize = 0;
    while i < len
        invariant_except_break
            i <= len,
            len == s@.len(),
            forall|j: int| 0 <= j < i ==> s@[j] != sep,
        ensures
            i <= len,
            len == s@.len(),
            forall|j: int| 0 <= j < i ==> s@[j] != sep,
            i == len || s@[i as int] == sep,
        decreases len - i,
    {
        if s.get_char(i) == sep {
            break;
        }
        i = i + 1;
    }
    proof {
        lemma_find_sep_is(s@, sep, i as int);
    }
    if i == len {
        return None;
    }
    // Check that the separator does not occur again after position `i`.
    let mut j: usize = i + 1;
    while j < len
        invariant
            i + 1 <= j <= len,
            len == s@.len(),
            find_sep(s@, sep) == i,
            forall|k: int| i + 1 <= k < j ==> s@[k] != sep,
        decreases len - j,
    {
        if s.get_char(j) == sep {
            assert(s@.skip(i + 1).contains(sep)) by {
                assert(s@.skip(i + 1)[j - i - 1] == sep);
            }
            return None;
        }
        j = j + 1;
    }
    assert(!s@.skip(i + 1).contains(sep)) by {
        assert(forall|k: int|
            0 <= k < s@.skip(i + 1).len() ==> #[trigger] s@.skip(i + 1)[k] == s@[k + i + 1]);
    }
    let head = s.substring_char(0, i).to_owned();
    let tail = s.substring_char(i + 1, len).to_owned();
    assert(head@ =~= sep_head(s@, sep));
    assert(tail@ =~= sep_tail(s@, sep));
    Some((head, tail))
}

} // verus!
