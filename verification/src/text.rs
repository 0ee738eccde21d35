//! Verified text helpers: decimal rendering of integers, two-digit
//! zero-padding, and trimming of trailing whitespace.

use vstd::prelude::*;
use vstd::string::*;

verus! {

/// The character for one decimal digit.
pub open spec fn spec_digit(d: int) -> char {
    if d == 0 {
        '0'
    } else if d == 1 {
        '1'
    } else if d == 2 {
        '2'
    } else if d == 3 {
        '3'
    } else if d == 4 {
        '4'
    } else if d == 5 {
        '5'
    } else if d == 6 {
        '6'
    } else if d == 7 {
        '7'
    } else if d == 8 {
        '8'
    } else {
        '9'
    }
}

/// The decimal rendering of a non-negative integer, most significant digit
/// first, with no leading zeros (except for the number zero itself).
pub open spec fn spec_dec(n: int) -> Seq<char>
    decreases n,
{
    if n < 10 {
        seq![spec_digit(n)]
    } else {
        spec_dec(n / 10) + seq![spec_digit(n % 10)]
    }
}

/// The decimal rendering of an integer below 100, zero-padded to two digits.
pub open spec fn spec_pad2(d: int) -> Seq<char> {
    if d < 10 {
        seq!['0', spec_digit(d)]
    } else {
        seq![spec_digit(d / 10), spec_digit(d % 10)]
    }
}

/// A whitespace character: one of the code points with the Unicode
/// `White_Space` property, the set that `char::is_whitespace` answers true
/// for.
pub open spec fn spec_is_ws(c: char) -> bool {
    c == '\u{0009}' || c == '\u{000A}' || c == '\u{000B}' || c == '\u{000C}' || c == '\u{000D}'
        || c == '\u{0020}' || c == '\u{0085}' || c == '\u{00A0}' || c == '\u{1680}'
        || c == '\u{2000}' || c == '\u{2001}' || c == '\u{2002}' || c == '\u{2003}'
        || c == '\u{2004}' || c == '\u{2005}' || c == '\u{2006}' || c == '\u{2007}'
        || c == '\u{2008}' || c == '\u{2009}' || c == '\u{200A}' || c == '\u{2028}'
        || c == '\u{2029}' || c == '\u{202F}' || c == '\u{205F}' || c == '\u{3000}'
}

/// The text with every trailing whitespace character removed.
pub open spec fn spec_trim_end(s: Seq<char>) -> Seq<char>
    decreases s.len(),
{
    if s.len() > 0 && spec_is_ws(s[s.len() - 1]) {
        spec_trim_end(s.drop_last())
    } else {
        s
    }
}

fn digit_str(d: usize) -> (r: &'static str)
    requires
        d < 10,
    ensures
        r@ == seq![spec_digit(d as int)],
{
    let r: &'static str = if d == 0 {
        "0"
    } else if d == 1 {
        "1"
    } else if d == 2 {
        "2"
    } else if d == 3 {
        "3"
    } else if d == 4 {
        "4"
    } else if d == 5 {
        "5"
    } else if d == 6 {
        "6"
    } else if d == 7 {
        "7"
    } else if d == 8 {
        "8"
    } else {
        "9"
    };
    proof {
        reveal_strlit("0");
        reveal_strlit("1");
        reveal_strlit("2");
        reveal_strlit("3");
        reveal_strlit("4");
        reveal_strlit("5");
        reveal_strlit("6");
        reveal_strlit("7");
        reveal_strlit("8");
        reveal_strlit("9");
        assert(r@ =~= seq![spec_digit(d as int)]);
    }
    r
}

/// Renders an integer in decimal, matching `spec_dec`.
pub fn dec_string(n: usize) -> (s: String)
    ensures
        s@ == spec_dec(n as int),
    decreases n,
{
    if n < 10 {
        digit_str(n).to_owned()
    } else {
        let mut s = dec_string(n / 10);
        s.append(digit_str(n % 10));
        s
    }
}

/// Renders an integer below 100 in decimal, zero-padded to two digits,
/// matching `spec_pad2`.
pub fn pad2_string(d: usize) -> (s: String)
    requires
        d < 100,
    ensures
        s@ == spec_pad2(d as int),
{
    if d < 10 {
        let mut s = String::from_str("0");
        s.append(digit_str(d));
        proof {
            reveal_strlit("0");
            assert(s@ =~= seq!['0', spec_digit(d as int)]);
        }
        s
    } else {
        let mut s = digit_str(d / 10).to_owned();
        s.append(digit_str(d % 10));
        proof {
            assert(s@ =~= seq![spec_digit(d as int / 10), spec_digit(d as int % 10)]);
        }
        s
    }
}

fn is_ws(c: char) -> (b: bool)
    ensures
        b == spec_is_ws(c),
{
    c == '\u{0009}' || c == '\u{000A}' || c == '\u{000B}' || c == '\u{000C}' || c == '\u{000D}'
        || c == '\u{0020}' || c == '\u{0085}' || c == '\u{00A0}' || c == '\u{1680}'
        || c == '\u{2000}' || c == '\u{2001}' || c == '\u{2002}' || c == '\u{2003}'
        || c == '\u{2004}' || c == '\u{2005}' || c == '\u{2006}' || c == '\u{2007}'
        || c == '\u{2008}' || c == '\u{2009}' || c == '\u{200A}' || c == '\u{2028}'
        || c == '\u{2029}' || c == '\u{202F}' || c == '\u{205F}' || c == '\u{3000}'
}

/// Removes every trailing whitespace character, matching `spec_trim_end`.
pub fn trim_end_ws(s: &str) -> (r: String)
    ensures
        r@ == spec_trim_end(s@),
{
    let n: usize = s.unicode_len();
    let mut k: usize = n;
    proof {
        assert(s@.subrange(0, n as int) =~= s@);
    }
    loop
        invariant
            k <= n,
            n == s@.len(),
            spec_trim_end(s@) == spec_trim_end(s@.subrange(0, k as int)),
        ensures
            k <= n,
            n == s@.len(),
            spec_trim_end(s@) == spec_trim_end(s@.subrange(0, k as int)),
            k == 0 || !spec_is_ws(s@[k as int - 1]),
        decreases k,
    {
        if k == 0 {
            break ;
        }
        let c = s.get_char(k - 1);
        if !is_ws(c) {
            proof {
                assert(s@.subrange(0, k as int)[k as int - 1] == s@[k as int - 1]);
            }
            break ;
        }
        proof {
            assert(s@.subrange(0, k as int)[k as int - 1] == s@[k as int - 1]);
            assert(s@.subrange(0, k as int).drop_last() =~= s@.subrange(0, k as int - 1));
        }
        k = k - 1;
    }
    proof {
        if k > 0 {
            assert(s@.subrange(0, k as int)[k as int - 1] == s@[k as int - 1]);
        }
        assert(spec_trim_end(s@.subrange(0, k as int)) == s@.subrange(0, k as int));
    }
    s.substring_char(0, k).to_owned()
}

} // verus!
