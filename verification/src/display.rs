//! What the session shows: the seconds on display, the time as text, the
//! status of a Pomodoro session, and the two front ends' compositions of
//! them. Nothing here writes to the terminal; the texts are handed back.

use crate::app::{App, AppMode, PomodoroPhase};
use crate::digits::{decimal_digits, decimal_text};
use crate::utils::{format_hours_minutes, format_time, hm_text, hms_text};
use crate::wall_clock::{is_wall_clock, wall_clock};
use vstd::prelude::*;
use vstd::string::*;

verus! {

/// The seconds on display: what is left of a countdown, and never less than
/// zero, or the time gone by where nothing is counted down.
pub open spec fn shown_seconds(target: Option<u64>, elapsed: u64) -> u64 {
    match target {
        Some(t) => if elapsed >= t {
            0
        } else {
            (t - elapsed) as u64
        },
        None => elapsed,
    }
}

/// The name of a phase on the plain status line.
pub open spec fn phase_name(phase: PomodoroPhase) -> Seq<char> {
    match phase {
        PomodoroPhase::Focus => "Focus"@,
        PomodoroPhase::ShortBreak => "Short Break"@,
        PomodoroPhase::LongBreak => "Long Break"@,
    }
}

/// The name of a phase in the footer of the full screen.
pub open spec fn phase_title(phase: PomodoroPhase) -> Seq<char> {
    match phase {
        PomodoroPhase::Focus => "FOCUS"@,
        PomodoroPhase::ShortBreak => "SHORT BREAK"@,
        PomodoroPhase::LongBreak => "LONG BREAK"@,
    }
}

/// The status on the plain line: the number of the running round trip,
/// counted from one, and the phase. Only a Pomodoro session has one.
pub open spec fn status_text(mode: AppMode) -> Seq<char> {
    match mode {
        AppMode::Pomodoro { phase, cycles, .. } => "#"@ + decimal_digits((cycles + 1) as nat)
            + " - "@ + phase_name(phase),
        _ => Seq::empty(),
    }
}

/// The footer of the full screen: the status of a Pomodoro session, then
/// the pause mark while the session is paused.
pub open spec fn footer_text(mode: AppMode, paused: bool) -> Seq<char> {
    let status = match mode {
        AppMode::Pomodoro { phase, cycles, .. } => "POMODORO #"@ + decimal_digits(
            (cycles + 1) as nat,
        ) + " - "@ + phase_title(phase),
        _ => Seq::empty(),
    };
    if paused {
        status + " [PAUSED]"@
    } else {
        status
    }
}

/// The time as text for a mode that counts: hours and minutes for a
/// Pomodoro session, hours, minutes and seconds otherwise.
pub open spec fn counter_text(mode: AppMode, shown: u64) -> Seq<char> {
    if mode is Pomodoro {
        hm_text(shown as nat)
    } else {
        hms_text(shown as nat)
    }
}

/// Whether `text` is the time that a session in `mode` shows after
/// `elapsed` seconds: some time of day for a clock, and for the modes that
/// count the seconds on display, written as `counter_text` says.
pub open spec fn shows_time(mode: AppMode, elapsed: u64, text: Seq<char>) -> bool {
    match mode {
        AppMode::Clock { show_seconds } => is_wall_clock(text, show_seconds),
        _ => text == counter_text(mode, shown_seconds(mode.target(), elapsed)),
    }
}

/// The plain front end's line: a carriage return, the status and a blank
/// if there is a status, the time in square brackets, the pause mark while
/// paused, and the code that clears the rest of the line.
pub open spec fn plain_line(status: Seq<char>, time: Seq<char>, paused: bool) -> Seq<char> {
    let lead = if status.len() == 0 {
        "\r"@
    } else {
        "\r"@ + status + " "@
    };
    let tail = if paused {
        "  [PAUSED] \x1B[K"@
    } else {
        "   \x1B[K"@
    };
    lead + "["@ + time + "]"@ + tail
}

/// The seconds to put on display after `elapsed` seconds.
pub fn display_value(target: Option<u64>, elapsed: u64) -> (shown: u64)
    ensures
        shown == shown_seconds(target, elapsed),
        target matches Some(t) ==> shown <= t,
{
    match target {
        Some(t) => t.saturating_sub(elapsed),
        None => elapsed,
    }
}

/// The name of `phase` on the plain status line.
pub fn phase_label(phase: PomodoroPhase) -> (name: &'static str)
    ensures
        name@ == phase_name(phase),
{
    match phase {
        PomodoroPhase::Focus => "Focus",
        PomodoroPhase::ShortBreak => "Short Break",
        PomodoroPhase::LongBreak => "Long Break",
    }
}

/// The name of `phase` in the footer of the full screen.
pub fn phase_heading(phase: PomodoroPhase) -> (name: &'static str)
    ensures
        name@ == phase_title(phase),
{
    match phase {
        PomodoroPhase::Focus => "FOCUS",
        PomodoroPhase::ShortBreak => "SHORT BREAK",
        PomodoroPhase::LongBreak => "LONG BREAK",
    }
}

/// The number of the running round trip, counted from one.
fn cycle_number(cycles: u32) -> (text: String)
    ensures
        text@ == decimal_digits((cycles + 1) as nat),
{
    let number: u64 = cycles as u64 + 1;
    decimal_text(number)
}

/// The status on the plain line.
pub fn plain_status(mode: &AppMode) -> (text: String)
    ensures
        text@ == status_text(*mode),
{
    match mode {
        AppMode::Pomodoro { phase, cycles, .. } => {
            let mut text = String::from_str("#");
            text.append(cycle_number(*cycles).as_str());
            text.append(" - ");
            text.append(phase_label(*phase));
            text
        },
        _ => String::new(),
    }
}

/// The footer of the full screen.
pub fn footer(mode: &AppMode, paused: bool) -> (text: String)
    ensures
        text@ == footer_text(*mode, paused),
{
    let mut text = match mode {
        AppMode::Pomodoro { phase, cycles, .. } => {
            let mut status = String::from_str("POMODORO #");
            status.append(cycle_number(*cycles).as_str());
            status.append(" - ");
            status.append(phase_heading(*phase));
            status
        },
        _ => String::new(),
    };
    if paused {
        text.append(" [PAUSED]");
    }
    text
}

/// The time as text for a mode that counts, `shown` seconds being on
/// display.
pub fn counter_string(mode: &AppMode, shown: u64) -> (text: String)
    ensures
        text@ == counter_text(*mode, shown),
{
    match mode {
        AppMode::Pomodoro { .. } => format_hours_minutes(shown),
        _ => format_time(shown),
    }
}

/// Puts the plain front end's line together.
pub fn compose_line(status: &str, time: &str, paused: bool) -> (line: String)
    ensures
        line@ == plain_line(status@, time@, paused),
{
    let mut line = String::from_str("\r");
    if status.unicode_len() != 0 {
        line.append(status);
        line.append(" ");
    }
    line.append("[");
    line.append(time);
    line.append("]");
    if paused {
        line.append("  [PAUSED] \x1B[K");
    } else {
        line.append("   \x1B[K");
    }
    line
}

/// The time that the session shows after `elapsed` seconds, as text. A
/// clock reads the time of day; the other modes show the seconds on
/// display.
pub fn time_string(app: &App, elapsed: u64) -> (text: String)
    ensures
        shows_time(app.mode, elapsed, text@),
{
    match &app.mode {
        AppMode::Clock { show_seconds } => wall_clock(*show_seconds),
        _ => {
            let shown = display_value(app.get_target_duration(), elapsed);
            counter_string(&app.mode, shown)
        },
    }
}

/// The plain front end's line for the session after `elapsed` seconds.
pub fn plain_frame(app: &App, elapsed: u64) -> (line: String)
    ensures
        exists|time: Seq<char>|
            shows_time(app.mode, elapsed, time) && line@ == #[trigger] plain_line(
                status_text(app.mode),
                time,
                app.paused,
            ),
        !(app.mode is Clock) ==> line@ == plain_line(
            status_text(app.mode),
            counter_text(app.mode, shown_seconds(app.mode.target(), elapsed)),
            app.paused,
        ),
{
    let status = plain_status(&app.mode);
    let time = time_string(app, elapsed);
    compose_line(status.as_str(), time.as_str(), app.paused)
}

/// What the full screen shows: the time, which is drawn large, and the
/// footer below it.
#[derive(Debug)]
pub struct Screen {
    pub time: String,
    pub footer: String,
}

/// The full screen for the session after `elapsed` seconds.
pub fn screen(app: &App, elapsed: u64) -> (shown: Screen)
    ensures
        shows_time(app.mode, elapsed, shown.time@),
        shown.footer@ == footer_text(app.mode, app.paused),
{
    Screen { time: time_string(app, elapsed), footer: footer(&app.mode, app.paused) }
}

} // verus!
