//! Durations given as words such as `1h`, `10m` or `30s`, and seconds
//! written as a clock reading.

use crate::digits::{is_digit, is_digit_char, parse_decimal, parse_u64, two_digit_text, two_digits};
use vstd::prelude::*;
use vstd::string::*;

verus! {

/// How many seconds one step of the unit `unit` is worth: an hour for `h`,
/// a minute for `m`, one second for any other character.
pub open spec fn unit_seconds(unit: char) -> nat {
    if unit == 'h' {
        3600
    } else if unit == 'm' {
        60
    } else {
        1
    }
}

/// The number that `s` denotes, or zero where it is no numeral.
pub open spec fn value_or_zero(s: Seq<char>) -> nat {
    match parse_decimal(s) {
        Some(v) => v as nat,
        None => 0,
    }
}

/// The seconds that one word stands for. A word that ends in a digit is a
/// number of seconds. In any other word the last character is the unit and
/// what stands before it the number. A number that cannot be read counts as
/// zero, and so does the empty word.
pub open spec fn token_seconds(token: Seq<char>) -> nat {
    if token.len() == 0 {
        0
    } else if is_digit(token.last()) {
        value_or_zero(token)
    } else {
        value_or_zero(token.drop_last()) * unit_seconds(token.last())
    }
}

/// The seconds that a row of words stands for: the sum over the words.
pub open spec fn total_seconds(tokens: Seq<Seq<char>>) -> nat
    decreases tokens.len(),
{
    if tokens.len() == 0 {
        0
    } else {
        total_seconds(tokens.drop_last()) + token_seconds(tokens.last())
    }
}

/// `seconds` as hours, minutes and seconds, each zero-padded to two digits
/// and joined by colons. The hours are not reduced and may take more room.
pub open spec fn hms_text(seconds: nat) -> Seq<char> {
    two_digits(seconds / 3600) + seq![':'] + two_digits((seconds % 3600) / 60) + seq![':']
        + two_digits(seconds % 60)
}

/// `seconds` as hours and minutes, each zero-padded to two digits and
/// joined by a colon. The seconds within the minute are dropped.
pub open spec fn hm_text(seconds: nat) -> Seq<char> {
    two_digits(seconds / 3600) + seq![':'] + two_digits((seconds % 3600) / 60)
}

/// The sum over the first `k` words is at most the sum over all of them.
pub proof fn lemma_partial_total_le(tokens: Seq<Seq<char>>, k: int)
    requires
        0 <= k <= tokens.len(),
    ensures
        total_seconds(tokens.subrange(0, k)) <= total_seconds(tokens),
    decreases tokens.len() - k,
{
    if k == tokens.len() {
        assert(tokens.subrange(0, k) =~= tokens);
    } else {
        lemma_partial_total_le(tokens, k + 1);
        assert(tokens.subrange(0, k + 1).drop_last() =~= tokens.subrange(0, k));
    }
}

/// Splits one word into its number and the worth of its unit.
fn read_token(token: &str) -> (r: (u64, u64))
    ensures
        r.0 * r.1 == token_seconds(token@),
        r.1 == 1 || r.1 == 60 || r.1 == 3600,
{
    let n: usize = token.unicode_len();
    if n == 0 {
        return (0, 1);
    }
    let last = token.get_char(n - 1);
    if is_digit_char(last) {
        let value: u64 = match parse_u64(token) {
            Some(v) => v,
            None => 0,
        };
        (value, 1)
    } else {
        let number = token.substring_char(0, n - 1);
        let value: u64 = match parse_u64(number) {
            Some(v) => v,
            None => 0,
        };
        let factor: u64 = if last == 'h' {
            3600
        } else if last == 'm' {
            60
        } else {
            1
        };
        (value, factor)
    }
}

/// The total of a row of duration words in seconds, for a row whose total
/// fits in 64 bits.
pub fn parse_duration_from_args(args: &[String]) -> (total: u64)
    requires
        total_seconds(args.deep_view()) <= u64::MAX,
    ensures
        total == total_seconds(args.deep_view()),
{
    let ghost tokens = args.deep_view();
    let mut total: u64 = 0;
    let mut i: usize = 0;
    while i < args.len()
        invariant
            0 <= i <= args.len(),
            tokens == args.deep_view(),
            tokens.len() == args.len(),
            total_seconds(tokens) <= u64::MAX,
            total == total_seconds(tokens.subrange(0, i as int)),
        decreases args.len() - i,
    {
        let (value, factor) = read_token(args[i].as_str());
        proof {
            let next = tokens.subrange(0, i + 1);
            assert(next.drop_last() =~= tokens.subrange(0, i as int));
            lemma_partial_total_le(tokens, i + 1);
        }
        total = total + value * factor;
        i = i + 1;
    }
    assert(tokens.subrange(0, i as int) =~= tokens);
    total
}

/// The total of a row of duration words in seconds, or `None` where the
/// total does not fit in 64 bits.
pub fn checked_duration_from_args(args: &[String]) -> (r: Option<u64>)
    ensures
        total_seconds(args.deep_view()) <= u64::MAX ==> r == Some(
            total_seconds(args.deep_view()) as u64,
        ),
        total_seconds(args.deep_view()) > u64::MAX ==> r is None,
{
    let ghost tokens = args.deep_view();
    let mut total: u64 = 0;
    let mut i: usize = 0;
    while i < args.len()
        invariant
            0 <= i <= args.len(),
            tokens == args.deep_view(),
            tokens.len() == args.len(),
            total == total_seconds(tokens.subrange(0, i as int)),
        decreases args.len() - i,
    {
        let (value, factor) = read_token(args[i].as_str());
        proof {
            let next = tokens.subrange(0, i + 1);
            assert(next.drop_last() =~= tokens.subrange(0, i as int));
            lemma_partial_total_le(tokens, i + 1);
        }
        let seconds: u64 = match value.checked_mul(factor) {
            Some(s) => s,
            None => {
                return None;
            },
        };
        total =
        match total.checked_add(seconds) {
            Some(t) => t,
            None => {
                return None;
            },
        };
        i = i + 1;
    }
    assert(tokens.subrange(0, i as int) =~= tokens);
    Some(total)
}

/// Writes `seconds` as `HH:MM:SS`.
pub fn format_time(seconds: u64) -> (text: String)
    ensures
        text@ == hms_text(seconds as nat),
{
    let h: u64 = seconds / 3600;
    let m: u64 = (seconds % 3600) / 60;
    let s: u64 = seconds % 60;
    let mut text = two_digit_text(h);
    proof {
        reveal_strlit(":");
    }
    text.append(":");
    text.append(two_digit_text(m).as_str());
    text.append(":");
    text.append(two_digit_text(s).as_str());
    text
}

/// Writes `seconds` as `HH:MM`, without the seconds within the minute.
pub fn format_hours_minutes(seconds: u64) -> (text: String)
    ensures
        text@ == hm_text(seconds as nat),
{
    let h: u64 = seconds / 3600;
    let m: u64 = (seconds % 3600) / 60;
    let mut text = two_digit_text(h);
    proof {
        reveal_strlit(":");
    }
    text.append(":");
    text.append(two_digit_text(m).as_str());
    text
}

} // verus!
