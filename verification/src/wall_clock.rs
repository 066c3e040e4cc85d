//! The time of day, read from the system's clock in the local time zone.

use crate::digits::two_digits;
use vstd::prelude::*;
use vstd::string::*;

verus! {

/// The time of day `h:m:s` as it is shown, with or without its seconds:
/// each part zero-padded to two digits, the parts joined by colons.
pub open spec fn wall_clock_text(h: nat, m: nat, s: nat, show_seconds: bool) -> Seq<char> {
    if show_seconds {
        two_digits(h) + seq![':'] + two_digits(m) + seq![':'] + two_digits(s)
    } else {
        two_digits(h) + seq![':'] + two_digits(m)
    }
}

/// Whether `text` is some time of day as it is shown. The second may read
/// 60, for a leap second.
pub open spec fn is_wall_clock(text: Seq<char>, show_seconds: bool) -> bool {
    exists|h: nat, m: nat, s: nat|
        h < 24 && m < 60 && s <= 60 && text == #[trigger] wall_clock_text(h, m, s, show_seconds)
}

/// The pattern by which the time of day is written.
pub open spec fn clock_pattern(show_seconds: bool) -> Seq<char> {
    if show_seconds {
        "%H:%M:%S"@
    } else {
        "%H:%M"@
    }
}

/// The pattern by which the time of day is written.
pub fn clock_format(show_seconds: bool) -> (pattern: &'static str)
    ensures
        pattern@ == clock_pattern(show_seconds),
{
    if show_seconds {
        "%H:%M:%S"
    } else {
        "%H:%M"
    }
}

/// Trusted: `chrono::Local::now()`, written out by `DateTime::format` with
/// the pattern `pattern`. Only the two patterns of `clock_pattern` are let
/// in; chrono writes `%H`, `%M` and `%S` as the hour (00 to 23), the minute
/// (00 to 59) and the second (00 to 60), each zero-padded to two digits,
/// and copies the colons. Which time of day comes back depends on the
/// moment of the call, so nothing more is claimed. chrono stops the
/// program if the system's clock stands before 1970.
#[verifier::external_body]
fn local_time_text(pattern: &str) -> (text: String)
    requires
        pattern@ == "%H:%M:%S"@ || pattern@ == "%H:%M"@,
    ensures
        is_wall_clock(text@, pattern@ == "%H:%M:%S"@),
{
    chrono::Local::now().format(pattern).to_string()
}

/// The time of day at the moment of the call, as text.
pub fn wall_clock(show_seconds: bool) -> (text: String)
    ensures
        is_wall_clock(text@, show_seconds),
{
    proof {
        reveal_strlit("%H:%M:%S");
        reveal_strlit("%H:%M");
        assert("%H:%M:%S"@.len() != "%H:%M"@.len());
    }
    local_time_text(clock_format(show_seconds))
}

} // verus!
