//! Decimal numerals: what a numeral denotes, how a number is written, and
//! the executable reader and writer for both.

use vstd::prelude::*;
use vstd::string::*;

verus! {

/// Whether `c` is one of the ten ASCII digits.
pub open spec fn is_digit(c: char) -> bool {
    48 <= c as u32 && c as u32 <= 57
}

/// The number that the ASCII digit `c` stands for.
pub open spec fn digit_value(c: char) -> nat
    recommends
        is_digit(c),
{
    (c as u32 - 48) as nat
}

/// The ASCII digit that stands for `d`.
pub open spec fn digit_char(d: nat) -> char
    recommends
        d < 10,
{
    if d == 0 {
        '0'
    } else if d == 1 {
        '1'
    } else if d == 2 {
        '2'
    } else if d == 3 {
        '3'
    } else if d == 4 {
        '4'
    } else if d == 5 {
        '5'
    } else if d == 6 {
        '6'
    } else if d == 7 {
        '7'
    } else if d == 8 {
        '8'
    } else {
        '9'
    }
}

/// Whether every character of `s` is an ASCII digit.
pub open spec fn all_digits(s: Seq<char>) -> bool {
    forall|i: int| 0 <= i < s.len() ==> is_digit(#[trigger] s[i])
}

/// The number that a run of digits denotes, most significant digit first.
/// The empty run denotes zero.
pub open spec fn digits_value(s: Seq<char>) -> nat
    decreases s.len(),
{
    if s.len() == 0 {
        0
    } else {
        digits_value(s.drop_last()) * 10 + digit_value(s.last())
    }
}

/// The numeral without its optional leading plus sign.
pub open spec fn unsigned_part(s: Seq<char>) -> Seq<char> {
    if s.len() > 0 && s[0] == '+' {
        s.subrange(1, s.len() as int)
    } else {
        s
    }
}

/// The reading of `s` as an unsigned 64-bit decimal numeral: an optional
/// plus sign, then one or more ASCII digits and nothing else, the whole
/// denoting at most `u64::MAX`. Anything else has no reading.
pub open spec fn parse_decimal(s: Seq<char>) -> Option<u64> {
    let body = unsigned_part(s);
    if body.len() > 0 && all_digits(body) && digits_value(body) <= u64::MAX {
        Some(digits_value(body) as u64)
    } else {
        None
    }
}

/// The shortest decimal numeral for `n`.
pub open spec fn decimal_digits(n: nat) -> Seq<char>
    decreases n,
{
    if n < 10 {
        seq![digit_char(n)]
    } else {
        decimal_digits(n / 10).push(digit_char(n % 10))
    }
}

/// The decimal numeral for `n`, padded with one zero to a width of two.
pub open spec fn two_digits(n: nat) -> Seq<char> {
    if n < 10 {
        seq!['0', digit_char(n)]
    } else {
        decimal_digits(n)
    }
}

/// A run of digits denotes at least as much as any of its prefixes.
pub proof fn lemma_prefix_value_le(s: Seq<char>, k: int)
    requires
        0 <= k <= s.len(),
    ensures
        digits_value(s.subrange(0, k)) <= digits_value(s),
    decreases s.len() - k,
{
    if k == s.len() {
        assert(s.subrange(0, k) =~= s);
    } else {
        lemma_prefix_value_le(s, k + 1);
        let t = s.subrange(0, k + 1);
        assert(t.drop_last() =~= s.subrange(0, k));
    }
}

/// The one-character text of a digit.
fn digit_str(d: u64) -> (s: &'static str)
    requires
        d < 10,
    ensures
        s@ == seq![digit_char(d as nat)],
{
    proof {
        reveal_strlit("0");
        reveal_strlit("1");
        reveal_strlit("2");
        reveal_strlit("3");
        reveal_strlit("4");
        reveal_strlit("5");
        reveal_strlit("6");
        reveal_strlit("7");
        reveal_strlit("8");
        reveal_strlit("9");
    }
    let s = if d == 0 {
        "0"
    } else if d == 1 {
        "1"
    } else if d == 2 {
        "2"
    } else if d == 3 {
        "3"
    } else if d == 4 {
        "4"
    } else if d == 5 {
        "5"
    } else if d == 6 {
        "6"
    } else if d == 7 {
        "7"
    } else if d == 8 {
        "8"
    } else {
        "9"
    };
    s
}

/// Writes `n` as its shortest decimal numeral.
pub fn decimal_text(n: u64) -> (s: String)
    ensures
        s@ == decimal_digits(n as nat),
    decreases n,
{
    if n < 10 {
        String::from_str(digit_str(n))
    } else {
        let mut s = decimal_text(n / 10);
        s.append(digit_str(n % 10));
        s
    }
}

/// Writes `n` in decimal, zero-padded to a width of two.
pub fn two_digit_text(n: u64) -> (s: String)
    ensures
        s@ == two_digits(n as nat),
{
    if n < 10 {
        let mut s = String::from_str("0");
        s.append(digit_str(n));
        proof {
            reveal_strlit("0");
        }
        s
    } else {
        decimal_text(n)
    }
}

/// Whether `c` is an ASCII digit.
pub fn is_digit_char(c: char) -> (b: bool)
    ensures
        b == is_digit(c),
{
    let code: u32 = c as u32;
    48 <= code && code <= 57
}

/// Reads `s` as an unsigned 64-bit decimal numeral.
pub fn parse_u64(s: &str) -> (r: Option<u64>)
    ensures
        r == parse_decimal(s@),
{
    let n: usize = s.unicode_len();
    if n == 0 {
        return None;
    }
    let start: usize = if s.get_char(0) == '+' {
        1
    } else {
        0
    };
    if start == n {
        return None;
    }
    let ghost body = unsigned_part(s@);
    let mut value: u64 = 0;
    let mut i: usize = start;
    while i < n
        invariant
            start <= i <= n,
            n == s@.len(),
            body == unsigned_part(s@),
            body.len() == n - start,
            body == s@.subrange(start as int, n as int),
            all_digits(body.subrange(0, i - start)),
            value == digits_value(body.subrange(0, i - start)),
        decreases n - i,
    {
        let c = s.get_char(i);
        if !is_digit_char(c) {
            assert(body[i - start] == c);
            return None;
        }
        let d: u64 = (c as u32 - 48) as u64;
        let ghost next = body.subrange(0, i - start + 1);
        proof {
            assert(next.drop_last() =~= body.subrange(0, i - start));
            lemma_prefix_value_le(body, i - start + 1);
        }
        if value > (u64::MAX - d) / 10 {
            return None;
        }
        value = value * 10 + d;
        i = i + 1;
        assert(all_digits(body.subrange(0, i - start))) by {
            assert(forall|j: int|
                0 <= j < i - start - 1 ==> body.subrange(0, i - start - 1)[j] == body[j]);
        }
    }
    assert(body.subrange(0, n - start) =~= body);
    Some(value)
}

} // verus!
