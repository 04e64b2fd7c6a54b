//! Decimal text conversions: rendering unsigned integers and parsing the
//! numeric fields of the encoder progress protocol.

use vstd::prelude::*;

verus! {

/// The decimal digit character for a value below ten.
pub open spec fn digit_char(d: nat) -> char
    recommends
        d < 10,
{
    if d == 0 {
        '0'
    } else if d == 1 {
        '1'
    } else if d == 2 {
        '2'
    } else if d == 3 {
        '3'
    } else if d == 4 {
        '4'
    } else if d == 5 {
        '5'
    } else if d == 6 {
        '6'
    } else if d == 7 {
        '7'
    } else if d == 8 {
        '8'
    } else {
        '9'
    }
}

/// The decimal rendering of `n`, most significant digit first, no sign and
/// no leading zeros (except for `n == 0`, which renders as "0").
pub open spec fn dec_seq(n: nat) -> Seq<char>
    decreases n,
{
    if n < 10 {
        seq![digit_char(n)]
    } else {
        dec_seq(n / 10).push(digit_char(n % 10))
    }
}

fn digit_str(d: u64) -> (r: &'static str)
    requires
        d < 10,
    ensures
        r@ =~= seq![digit_char(d as nat)],
{
    proof {
        reveal_strlit("0");
        reveal_strlit("1");
        reveal_strlit("2");
        reveal_strlit("3");
        reveal_strlit("4");
        reveal_strlit("5");
        reveal_strlit("6");
        reveal_strlit("7");
        reveal_strlit("8");
        reveal_strlit("9");
    }
    if d == 0 {
        "0"
    } else if d == 1 {
        "1"
    } else if d == 2 {
        "2"
    } else if d == 3 {
        "3"
    } else if d == 4 {
        "4"
    } else if d == 5 {
        "5"
    } else if d == 6 {
        "6"
    } else if d == 7 {
        "7"
    } else if d == 8 {
        "8"
    } else {
        "9"
    }
}

/// Renders `n` in decimal.
pub fn u64_to_string(n: u64) -> (r: String)
    ensures
        r@ == dec_seq(n as nat),
    decreases n,
{
    if n < 10 {
        let r = digit_str(n).to_owned();
        assert(r@ =~= dec_seq(n as nat));
        r
    } else {
        let mut r = u64_to_string(n / 10);
        r.append(digit_str(n % 10));
        assert(r@ =~= dec_seq(n as nat));
        r
    }
}

/// Renders a `usize` in decimal.
pub fn usize_to_string(n: usize) -> (r: String)
    ensures
        r@ == dec_seq(n as nat),
{
    u64_to_string(n as u64)
}

pub open spec fn is_digit(c: char) -> bool {
    '0' <= c && c <= '9'
}

/// The numeric value of a decimal digit character.
pub open spec fn digit_val(c: char) -> nat
    recommends
        is_digit(c),
{
    (c as u32 - '0' as u32) as nat
}

pub open spec fn all_digits(s: Seq<char>) -> bool {
    forall|i: int| 0 <= i < s.len() ==> is_digit(#[trigger] s[i])
}

/// The value of a string of decimal digit characters, most significant first.
pub open spec fn digits_val(s: Seq<char>) -> nat
    decreases s.len(),
{
    if s.len() == 0 {
        0
    } else {
        digits_val(s.drop_last()) * 10 + digit_val(s.last())
    }
}

/// The digits of an integer literal as accepted by `usize` parsing:
/// everything after an optional leading '+'.
pub open spec fn unsigned_digits(s: Seq<char>) -> Seq<char> {
    if s.len() > 0 && s[0] == '+' {
        s.drop_first()
    } else {
        s
    }
}

/// Whether `s` is an unsigned decimal integer literal: an optional leading
/// '+' followed by one or more digits.
pub open spec fn is_unsigned_literal(s: Seq<char>) -> bool {
    unsigned_digits(s).len() > 0 && all_digits(unsigned_digits(s))
}

/// Whether `parse_usize` accepts `s`.
pub open spec fn parses_as_usize(s: Seq<char>) -> bool {
    is_unsigned_literal(s) && digits_val(unsigned_digits(s)) <= usize::MAX
}

/// The value `parse_usize` reads from `s`, when it accepts it.
pub open spec fn usize_value(s: Seq<char>) -> nat {
    digits_val(unsigned_digits(s))
}

proof fn lemma_digits_val_step(s: Seq<char>, i: int)
    requires
        0 <= i < s.len(),
    ensures
        digits_val(s.take(i + 1)) == digits_val(s.take(i)) * 10 + digit_val(s[i]),
{
    assert(s.take(i + 1).drop_last() =~= s.take(i));
    assert(s.take(i + 1).last() == s[i]);
}

proof fn lemma_digits_val_prefix(s: Seq<char>, i: int)
    requires
        0 <= i <= s.len(),
    ensures
        digits_val(s.take(i)) <= digits_val(s),
    decreases s.len() - i,
{
    if i == s.len() {
        assert(s.take(i) =~= s);
    } else {
        lemma_digits_val_step(s, i);
        lemma_digits_val_prefix(s, i + 1);
    }
}

/// Parses an unsigned decimal integer, accepting exactly the strings of the
/// form `['+'] digit+` whose value fits in `usize`, as `str::parse::<usize>`
/// does.
pub fn parse_usize(s: &str) -> (r: Option<usize>)
    ensures
        r is Some <==> is_unsigned_literal(s@) && digits_val(unsigned_digits(s@)) <= usize::MAX,
        r is Some ==> r->0 == digits_val(unsigned_digits(s@)),
{
    let len = s.unicode_len();
    let start: usize = if len > 0 && s.get_char(0) == '+' {
        1
    } else {
        0
    };
    let ghost d = unsigned_digits(s@);
    assert(d =~= s@.skip(start as int));
    if start >= len {
        return None;
    }
    let mut acc: usize = 0;
    let mut i: usize = start;
    while i < len
        invariant
            start <= i <= len,
            len == s@.len(),
            d == unsigned_digits(s@),
            d == s@.skip(start as int),
            all_digits(d.take(i - start)),
            acc == digits_val(d.take(i - start)),
        decreases len - i,
    {
        let c = s.get_char(i);
        assert(d[i - start] == s@[i as int]);
        if !(c >= '0' && c <= '9') {
            assert(!is_digit(d[i - start]));
            assert(!all_digits(d));
            return None;
        }
        let dv: usize = ((c as u32) - ('0' as u32)) as usize;
        if acc > (usize::MAX - dv) / 10 {
            proof {
                lemma_digits_val_step(d, i - start);
                assert(acc * 10 + dv > usize::MAX) by (nonlinear_arith)
                    requires
                        acc > (usize::MAX - dv) / 10,
                        dv <= 9,
                ;
                lemma_digits_val_prefix(d, i - start + 1);
                assert(digits_val(d) > usize::MAX);
            }
            return None;
        }
        proof {
            lemma_digits_val_step(d, i - start);
            assert(acc * 10 + dv <= usize::MAX) by (nonlinear_arith)
                requires
                    acc <= (usize::MAX - dv) / 10,
                    dv <= 9,
            ;
        }
        acc = acc * 10 + dv;
        i = i + 1;
    }
    assert(d.take(i - start) =~= d);
    Some(acc)
}

pub open spec fn pow10(k: nat) -> nat
    decreases k,
{
    if k == 0 {
        1
    } else {
        10 * pow10((k - 1) as nat)
    }
}

/// How many leading characters of `s` are decimal digits.
pub open spec fn leading_digits(s: Seq<char>) -> int
    decreases s.len(),
{
    if s.len() == 0 || !is_digit(s[0]) {
        0
    } else {
        1 + leading_digits(s.drop_first())
    }
}

/// The fractional digits of a decimal literal: what follows the dot, if any.
pub open spec fn frac_digits(d: Seq<char>) -> Seq<char> {
    let k = leading_digits(d);
    if k == d.len() {
        Seq::empty()
    } else {
        d.skip(k + 1)
    }
}

/// Whether `s` is a non-negative decimal number literal: an optional leading
/// '+', one or more integer digits, then optionally a dot and any number of
/// fractional digits.
pub open spec fn is_decimal_literal(s: Seq<char>) -> bool {
    let d = unsigned_digits(s);
    let k = leading_digits(d);
    k > 0 && (k == d.len() || (d[k] == '.' && all_digits(d.skip(k + 1))))
}

/// The value of the first three fractional digits, padded with zeros to
/// thousandths; fractional digits beyond the third are dropped.
pub open spec fn frac_milli(f: Seq<char>) -> nat {
    if f.len() >= 3 {
        digits_val(f.take(3))
    } else {
        digits_val(f) * pow10((3 - f.len()) as nat)
    }
}

/// Whether `parse_milli` accepts `s`.
pub open spec fn parses_as_milli(s: Seq<char>) -> bool {
    is_decimal_literal(s) && milli_val(s) <= u64::MAX
}

/// The value of a decimal literal in thousandths, truncated to three
/// fractional digits.
pub open spec fn milli_val(s: Seq<char>) -> nat {
    let d = unsigned_digits(s);
    let k = leading_digits(d);
    digits_val(d.take(k)) * 1000 + frac_milli(frac_digits(d))
}

proof fn lemma_leading_digits_is(d: Seq<char>, k: int)
    requires
        0 <= k <= d.len(),
        all_digits(d.take(k)),
        k == d.len() || !is_digit(d[k]),
    ensures
        leading_digits(d) == k,
    decreases k,
{
    if k == 0 {
    } else {
        assert(is_digit(d[0])) by {
            assert(d.take(k)[0] == d[0]);
        }
        assert(d.drop_first().take(k - 1) =~= d.take(k).drop_first());
        assert(all_digits(d.drop_first().take(k - 1))) by {
            assert(forall|i: int|
                0 <= i < k - 1 ==> #[trigger] d.take(k).drop_first()[i] == d.take(k)[i + 1]);
        }
        lemma_leading_digits_is(d.drop_first(), k - 1);
    }
}

/// Parses a non-negative decimal number as a count of thousandths, accepting
/// exactly the strings of the form `['+'] digit+ ['.' digit*]` whose value in
/// thousandths fits in `u64`. Fractional digits beyond the third are dropped.
pub fn parse_milli(s: &str) -> (r: Option<u64>)
    ensures
        r is Some <==> is_decimal_literal(s@) && milli_val(s@) <= u64::MAX,
        r is Some ==> r->0 == milli_val(s@),
{
    let len = s.unicode_len();
    let start: usize = if len > 0 && s.get_char(0) == '+' {
        1
    } else {
        0
    };
    let ghost d = unsigned_digits(s@);
    assert(d =~= s@.skip(start as int));
    let mut acc: u64 = 0;
    let mut i: usize = start;
    while i < len
        invariant_except_break
            start <= i <= len,
            len == s@.len(),
            d == unsigned_digits(s@),
            d == s@.skip(start as int),
            all_digits(d.take(i - start)),
            acc == digits_val(d.take(i - start)),
        ensures
            start <= i <= len,
            len == s@.len(),
            d == unsigned_digits(s@),
            d == s@.skip(start as int),
            all_digits(d.take(i - start)),
            acc == digits_val(d.take(i - start)),
            i == len || !is_digit(d[i - start]),
        decreases len - i,
    {
        let c = s.get_char(i);
        assert(d[i - start] == s@[i as int]);
        if !(c >= '0' && c <= '9') {
            break;
        }
        let dv: u64 = ((c as u32) - ('0' as u32)) as u64;
        if acc > (u64::MAX - dv) / 10 {
            proof {
                lemma_digits_val_step(d, i - start);
                assert(acc * 10 + dv > u64::MAX) by (nonlinear_arith)
                    requires
                        acc > (u64::MAX - dv) / 10,
                        dv <= 9,
                ;
                lemma_digits_val_prefix(d, i - start + 1);
                lemma_leading_digits_bounds(d, i - start + 1);
            }
            return None;
        }
        proof {
            lemma_digits_val_step(d, i - start);
            assert(acc * 10 + dv <= u64::MAX) by (nonlinear_arith)
                requires
                    acc <= (u64::MAX - dv) / 10,
                    dv <= 9,
            ;
        }
        acc = acc * 10 + dv;
        i = i + 1;
    }
    // `i - start` integer digits were read; the literal is valid only if
    // there was at least one and what follows is nothing or a dot.
    let ghost k = i - start;
    proof {
        if i < len {
            assert(d[k] == s@[i as int]);
        }
        lemma_leading_digits_is(d, k);
    }
    if i == start {
        return None;
    }
    let ghost int_part = d.take(k);
    let mut fm: u64 = 0;
    let mut fcount: usize = 0;
    if i < len {
        let c = s.get_char(i);
        if !(c == '.') {
            return None;
        }
        let ghost f = d.skip(k + 1);
        assert(f =~= frac_digits(d));
        assert(f =~= s@.skip(i as int + 1));
        let mut j: usize = i + 1;
        while j < len
            invariant
                i + 1 <= j <= len,
                len == s@.len(),
                d == unsigned_digits(s@),
                d == s@.skip(start as int),
                f == frac_digits(d),
                f == s@.skip(i as int + 1),
                i - start == leading_digits(d),
                f.len() == len - i - 1,
                fcount == j - i - 1,
                all_digits(f.take(fcount as int)),
                fm == digits_val(f.take(if fcount > 3 { 3int } else { fcount as int })),
                fcount >= 3 ==> fm <= 999,
                fcount == 2 ==> fm <= 99,
                fcount == 1 ==> fm <= 9,
                fcount == 0 ==> fm == 0,
            decreases len - j,
        {
            let c = s.get_char(j);
            assert(f[j - i - 1] == s@[j as int]);
            if !(c >= '0' && c <= '9') {
                assert(!all_digits(f));
                return None;
            }
            let dv: u64 = ((c as u32) - ('0' as u32)) as u64;
            if fcount < 3 {
                proof {
                    lemma_digits_val_step(f, fcount as int);
                }
                fm = fm * 10 + dv;
            } else {
                proof {
                    assert(f.take(fcount as int + 1).take(3int) =~= f.take(3int));
                }
            }
            fcount = fcount + 1;
            j = j + 1;
        }
        assert(f.take(fcount as int) =~= f);
        if fcount == 0 {
            proof {
                assert(f.take(0int) =~= Seq::<char>::empty());
            }
            fm = 0;
        } else if fcount == 1 {
            fm = fm * 100;
        } else if fcount == 2 {
            fm = fm * 10;
        }
        proof {
            reveal_with_fuel(pow10, 4);
            assert(pow10(0) == 1);
            assert(pow10(1) == 10);
            assert(pow10(2) == 100);
            assert(pow10(3) == 1000);
            if fcount >= 3 {
                assert(f.len() >= 3);
                assert(fm == digits_val(f.take(3int)));
            } else if fcount == 2 {
                assert(frac_milli(f) == digits_val(f) * 10);
            } else if fcount == 1 {
                assert(frac_milli(f) == digits_val(f) * 100);
            } else {
                assert(digits_val(f) == 0);
                assert(digits_val(f) * pow10((3 - f.len()) as nat) == 0) by (nonlinear_arith)
                    requires
                        digits_val(f) == 0,
                ;
                assert(frac_milli(f) == 0);
            }
            assert(fm == frac_milli(f));
        }
    }
    proof {
        if i >= len {
            let f0 = frac_digits(d);
            assert(f0 =~= Seq::<char>::empty());
            assert(digits_val(f0) * pow10((3 - f0.len()) as nat) == 0) by (nonlinear_arith)
                requires
                    digits_val(f0) == 0,
            ;
            assert(frac_milli(f0) == 0);
        }
    }
    if acc > (u64::MAX - fm) / 1000 {
        proof {
            assert(acc * 1000 + fm > u64::MAX) by (nonlinear_arith)
                requires
                    acc > (u64::MAX - fm) / 1000,
                    fm <= 999,
            ;
        }
        return None;
    }
    proof {
        assert(acc * 1000 + fm <= u64::MAX) by (nonlinear_arith)
            requires
                acc <= (u64::MAX - fm) / 1000,
                fm <= 999,
        ;
    }
    Some(acc * 1000 + fm)
}

/// The integer-digit prefix never extends past any position whose digits
/// already overflow, so an overflowing prefix forces an overflowing value.
proof fn lemma_leading_digits_bounds(d: Seq<char>, k: int)
    requires
        0 <= k <= d.len(),
        all_digits(d.take(k)),
    ensures
        leading_digits(d) >= k,
        digits_val(d.take(leading_digits(d))) >= digits_val(d.take(k)),
    decreases d.len(),
{
    lemma_leading_digits_ge(d, k);
    lemma_digits_val_take_mono(d, k, leading_digits(d));
}

proof fn lemma_leading_digits_ge(d: Seq<char>, k: int)
    requires
        0 <= k <= d.len(),
        all_digits(d.take(k)),
    ensures
        k <= leading_digits(d) <= d.len(),
    decreases d.len(),
{
    if d.len() == 0 {
    } else if k == 0 {
        lemma_leading_digits_ge(d.drop_first(), 0);
    } else {
        assert(is_digit(d[0])) by {
            assert(d.take(k)[0] == d[0]);
        }
        assert(d.drop_first().take(k - 1) =~= d.take(k).drop_first());
        assert(all_digits(d.drop_first().take(k - 1))) by {
            assert(forall|i: int|
                0 <= i < k - 1 ==> #[trigger] d.take(k).drop_first()[i] == d.take(k)[i + 1]);
        }
        lemma_leading_digits_ge(d.drop_first(), k - 1);
    }
}

proof fn lemma_digits_val_take_mono(d: Seq<char>, k1: int, k2: int)
    requires
        0 <= k1 <= k2 <= d.len(),
    ensures
        digits_val(d.take(k1)) <= digits_val(d.take(k2)),
    decreases k2 - k1,
{
    if k1 < k2 {
        lemma_digits_val_step(d, k1);
        lemma_digits_val_take_mono(d, k1 + 1, k2);
    }
}

} // verus!
