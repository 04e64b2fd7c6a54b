//! Video codec identification: parsing codec names reported by the prober
//! and mapping codecs to their encoder parameter values.

use vstd::prelude::*;

use crate::text::str_eq;

verus! {

broadcast use vstd::string::group_string_axioms;

/// ASCII lowercase of one character: uppercase ASCII letters map to their
/// lowercase counterpart, every other character is unchanged.
pub open spec fn lower_char(c: char) -> char {
    if 'A' <= c && c <= 'Z' {
        ((c as u32) + 32) as char
    } else {
        c
    }
}

/// ASCII lowercase of a character sequence.
pub open spec fn lower_seq(s: Seq<char>) -> Seq<char> {
    s.map_values(|c: char| lower_char(c))
}

fn lower_char_str(c: char) -> (r: &'static str)
    requires
        'A' <= c && c <= 'Z',
    ensures
        r@ =~= seq![lower_char(c)],
{
    proof {
        reveal_strlit("a");
        reveal_strlit("b");
        reveal_strlit("c");
        reveal_strlit("d");
        reveal_strlit("e");
        reveal_strlit("f");
        reveal_strlit("g");
        reveal_strlit("h");
        reveal_strlit("i");
        reveal_strlit("j");
        reveal_strlit("k");
        reveal_strlit("l");
        reveal_strlit("m");
        reveal_strlit("n");
        reveal_strlit("o");
        reveal_strlit("p");
        reveal_strlit("q");
        reveal_strlit("r");
        reveal_strlit("s");
        reveal_strlit("t");
        reveal_strlit("u");
        reveal_strlit("v");
        reveal_strlit("w");
        reveal_strlit("x");
        reveal_strlit("y");
        reveal_strlit("z");
    }
    if c == 'A' {
        "a"
    } else if c == 'B' {
        "b"
    } else if c == 'C' {
        "c"
    } else if c == 'D' {
        "d"
    } else if c == 'E' {
        "e"
    } else if c == 'F' {
        "f"
    } else if c == 'G' {
        "g"
    } else if c == 'H' {
        "h"
    } else if c == 'I' {
        "i"
    } else if c == 'J' {
        "j"
    } else if c == 'K' {
        "k"
    } else if c == 'L' {
        "l"
    } else if c == 'M' {
        "m"
    } else if c == 'N' {
        "n"
    } else if c == 'O' {
        "o"
    } else if c == 'P' {
        "p"
    } else if c == 'Q' {
        "q"
    } else if c == 'R' {
        "r"
    } else if c == 'S' {
        "s"
    } else if c == 'T' {
        "t"
    } else if c == 'U' {
        "u"
    } else if c == 'V' {
        "v"
    } else if c == 'W' {
        "w"
    } else if c == 'X' {
        "x"
    } else if c == 'Y' {
        "y"
    } else {
        assert(c == 'Z');
        "z"
    }
}

/// ASCII-lowercases a string; characters outside 'A'..='Z' are copied
/// through unchanged.
pub fn ascii_lower(s: &str) -> (r: String)
    ensures
        r@ == lower_seq(s@),
{
    let len = s.unicode_len();
    let mut r = String::new();
    let mut i: usize = 0;
    while i < len
        invariant
            i <= len,
            len == s@.len(),
            r@ == lower_seq(s@.take(i as int)),
        decreases len - i,
    {
        let c = s.get_char(i);
        if 'A' <= c && c <= 'Z' {
            r.append(lower_char_str(c));
        } else {
            r.append(s.substring_char(i, i + 1));
            assert(s@.subrange(i as int, i + 1) =~= seq![s@[i as int]]);
        }
        assert(r@ =~= lower_seq(s@.take(i + 1))) by {
            assert(lower_seq(s@.take(i + 1)) =~= lower_seq(s@.take(i as int)).push(
                lower_char(s@[i as int]),
            ));
        }
        i = i + 1;
    }
    assert(s@.take(len as int) =~= s@);
    r
}

/// What `Codec::from_str` yields for a given name: the matching supported
/// codec, compared case-insensitively on ASCII letters, or the name kept
/// verbatim as `Unknown`.
pub open spec fn parses_to(s: Seq<char>, c: Codec) -> bool {
    if lower_seq(s) == "av1"@ {
        c == Codec::AV1
    } else if lower_seq(s) == "hevc"@ {
        c == Codec::HEVC
    } else if lower_seq(s) == "h264"@ {
        c == Codec::H264
    } else {
        c matches Codec::Unknown(u) && u@ == s
    }
}

/// A video codec as named by the prober's stream metadata.
#[derive(Debug, PartialEq)]
pub enum Codec {
    Unknown(String),
    AV1,
    HEVC,
    H264,
}

impl Clone for Codec {
    fn clone(&self) -> (r: Self)
        ensures
            r == *self,
    {
        match self {
            Codec::Unknown(s) => Codec::Unknown(s.clone()),
            Codec::AV1 => Codec::AV1,
            Codec::HEVC => Codec::HEVC,
            Codec::H264 => Codec::H264,
        }
    }
}

impl Codec {
    /// Parses a codec name, case-insensitively on ASCII letters; any name
    /// other than the three supported codecs is kept verbatim as `Unknown`.
    pub fn from_str(s: &str) -> (r: Self)
        ensures
            parses_to(s@, r),
    {
        proof {
            reveal_strlit("av1");
            reveal_strlit("hevc");
            reveal_strlit("h264");
            assert("av1"@.len() == 3);
            assert("hevc"@.len() == 4);
            assert("h264"@.len() == 4);
            assert("hevc"@[1] == 'e');
            assert("h264"@[1] == '2');
            assert("av1"@ != "hevc"@);
            assert("av1"@ != "h264"@);
            assert("hevc"@ != "h264"@);
        }
        let lowered = ascii_lower(s);
        if str_eq(lowered.as_str(), "av1") {
            Codec::AV1
        } else if str_eq(lowered.as_str(), "hevc") {
            Codec::HEVC
        } else if str_eq(lowered.as_str(), "h264") {
            Codec::H264
        } else {
            Codec::Unknown(s.to_owned())
        }
    }

    /// The encoder library that produces this codec, if it is supported.
    pub fn cv_parameter(codec: Codec) -> (r: Option<String>)
        ensures
            codec is Unknown ==> r is None,
            codec is AV1 ==> (r matches Some(p) && p@ == "libsvtav1"@),
            codec is HEVC ==> (r matches Some(p) && p@ == "libx265"@),
            codec is H264 ==> (r matches Some(p) && p@ == "libx264"@),
    {
        match codec {
            Codec::Unknown(_) => None,
            Codec::AV1 => Some("libsvtav1".to_owned()),
            Codec::HEVC => Some("libx265".to_owned()),
            Codec::H264 => Some("libx264".to_owned()),
        }
    }

    /// The codec's display name: the lowercase variant name, or the held
    /// name ASCII-lowercased for `Unknown`.
    pub fn display(&self) -> (r: String)
        ensures
            *self is AV1 ==> r@ == "av1"@,
            *self is HEVC ==> r@ == "hevc"@,
            *self is H264 ==> r@ == "h264"@,
            *self matches Codec::Unknown(u) ==> r@ == lower_seq(u@),
    {
        match self {
            Codec::Unknown(s) => ascii_lower(s.as_str()),
            Codec::AV1 => "av1".to_owned(),
            Codec::HEVC => "hevc".to_owned(),
            Codec::H264 => "h264".to_owned(),
        }
    }
}

impl Default for Codec {
    /// The default codec is unknown with an empty name.
    fn default() -> (r: Self)
        ensures
            r matches Codec::Unknown(u) && u@ == Seq::<char>::empty(),
    {
        Codec::Unknown(String::new())
    }
}

} // verus!
