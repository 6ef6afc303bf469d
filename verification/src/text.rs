//! Text helpers: trimming, comparison, concatenation and decimal rendering.

use vstd::prelude::*;

verus! {

/// Whether `c` is white space to `str::trim`: whether it has the Unicode
/// `White_Space` property, which is what `char::is_whitespace` reports.
pub uninterp spec fn white_space(c: char) -> bool;

/// `s` without its leading run of white space.
pub open spec fn skip_leading(s: Seq<char>) -> Seq<char>
    decreases s.len(),
{
    if s.len() > 0 && white_space(s[0]) {
        skip_leading(s.drop_first())
    } else {
        s
    }
}

/// `s` without its trailing run of white space.
pub open spec fn skip_trailing(s: Seq<char>) -> Seq<char>
    decreases s.len(),
{
    if s.len() > 0 && white_space(s.last()) {
        skip_trailing(s.drop_last())
    } else {
        s
    }
}

/// `s` with leading and trailing white space removed.
pub open spec fn trimmed(s: Seq<char>) -> Seq<char> {
    skip_trailing(skip_leading(s))
}

/// `str::trim`: the slice of `s` left after removing leading and trailing
/// characters that have the Unicode `White_Space` property. Trusted: the
/// result is the one `trimmed` describes, so it neither starts nor ends with
/// white space.
#[verifier::external_body]
pub(crate) fn trim(s: &str) -> (r: &str)
    ensures
        r@ == trimmed(s@),
        r@.len() > 0 ==> !white_space(r@.first()) && !white_space(r@.last()),
{
    s.trim()
}

/// Whether two string slices hold the same characters.
pub fn same_text(a: &str, b: &str) -> (r: bool)
    ensures
        r == (a@ == b@),
{
    a.to_owned() == b.to_owned()
}

/// `head` followed by `rest`.
pub fn prefixed(head: &str, rest: &str) -> (r: String)
    ensures
        r@ == head@ + rest@,
{
    head.to_owned().concat(rest)
}

/// The character sequence of one decimal digit.
pub open spec fn digit_text(d: int) -> Seq<char> {
    if d == 0 {
        seq!['0']
    } else if d == 1 {
        seq!['1']
    } else if d == 2 {
        seq!['2']
    } else if d == 3 {
        seq!['3']
    } else if d == 4 {
        seq!['4']
    } else if d == 5 {
        seq!['5']
    } else if d == 6 {
        seq!['6']
    } else if d == 7 {
        seq!['7']
    } else if d == 8 {
        seq!['8']
    } else {
        seq!['9']
    }
}

/// The decimal digits of a natural number, most significant first, without leading zeros.
pub open spec fn decimal_digits(n: nat) -> Seq<char>
    decreases n,
{
    if n < 10 {
        digit_text(n as int)
    } else {
        decimal_digits(n / 10) + digit_text((n % 10) as int)
    }
}

/// The decimal rendering of an integer, with a leading `-` for negative numbers.
pub open spec fn decimal_text(n: int) -> Seq<char> {
    if n < 0 {
        seq!['-'] + decimal_digits((-n) as nat)
    } else {
        decimal_digits(n as nat)
    }
}

fn digit(d: i64) -> (r: &'static str)
    requires
        0 <= d < 10,
    ensures
        r@ == digit_text(d as int),
{
    proof {
        reveal_strlit("0");
        reveal_strlit("1");
        reveal_strlit("2");
        reveal_strlit("3");
        reveal_strlit("4");
        reveal_strlit("5");
        reveal_strlit("6");
        reveal_strlit("7");
        reveal_strlit("8");
        reveal_strlit("9");
    }
    let r = if d == 0 {
        "0"
    } else if d == 1 {
        "1"
    } else if d == 2 {
        "2"
    } else if d == 3 {
        "3"
    } else if d == 4 {
        "4"
    } else if d == 5 {
        "5"
    } else if d == 6 {
        "6"
    } else if d == 7 {
        "7"
    } else if d == 8 {
        "8"
    } else {
        "9"
    };
    assert(r@ =~= digit_text(d as int));
    r
}

/// Renders `n` in decimal.
pub fn decimal(n: i32) -> (r: String)
    ensures
        r@ == decimal_text(n as int),
{
    let wide: i64 = n as i64;
    let magnitude: i64 = if wide < 0 {
        0 - wide
    } else {
        wide
    };
    let mut rest: i64 = magnitude / 10;
    let mut out: String = digit(magnitude % 10).to_owned();
    while rest > 0
        invariant
            0 <= rest,
            decimal_digits(magnitude as nat) == if rest == 0 {
                out@
            } else {
                decimal_digits(rest as nat) + out@
            },
        decreases rest,
    {
        let head = digit(rest % 10).to_owned();
        proof {
            if rest >= 10 {
                assert(decimal_digits(rest as nat) + out@ =~= decimal_digits((rest / 10) as nat) + (
                digit_text((rest % 10) as int) + out@));
            }
        }
        out = head.concat(out.as_str());
        rest = rest / 10;
    }
    if n < 0 {
        proof {
            reveal_strlit("-");
            assert("-"@ =~= seq!['-']);
        }
        prefixed("-", out.as_str())
    } else {
        out
    }
}

} // verus!
