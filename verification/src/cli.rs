//! The command line once it has been parsed, and what it asks for: the mode
//! the session starts in, the front end that draws it, and the line printed
//! before a plain Pomodoro session.

use crate::app::{AppMode, PomodoroConfig, PomodoroPhase};
use crate::digits::{decimal_digits, decimal_text};
use crate::utils::{checked_duration_from_args, total_seconds};
use vstd::prelude::*;
use vstd::string::*;

verus! {

/// The subcommand: which kind of session to run.
#[derive(Debug)]
pub enum Commands {
    /// A countdown over the sum of the duration words.
    Timer { durations: Vec<String> },
    /// A stopwatch.
    Chrono,
    /// The time of day.
    Clock { seconds: bool },
    /// A Pomodoro session with phase lengths in minutes.
    Pomodoro { focus: u64, short: u64, long: u64 },
}

/// The parsed command line.
#[derive(Debug)]
pub struct Cli {
    /// No audible alert.
    pub mute: bool,
    /// Draw one plain line instead of the full screen.
    pub simple: bool,
    /// On the full screen, draw the time in a FIGlet font instead of blocks.
    pub ascii: bool,
    pub command: Commands,
}

/// How the session is drawn.
#[derive(Clone, Copy, PartialEq, Eq, Structural, Debug)]
pub enum FrontEnd {
    /// One line, overwritten on every turn.
    Plain,
    /// The full screen, the time in block glyphs.
    Blocks,
    /// The full screen, the time in the glyphs of a FIGlet font.
    Outline,
}

/// `minutes` in seconds, where that fits in 64 bits.
pub open spec fn minutes_in_seconds(minutes: u64) -> Option<u64> {
    if minutes * 60 <= u64::MAX {
        Some((minutes * 60) as u64)
    } else {
        None
    }
}

/// The mode that a subcommand asks for. A timer counts down from the total
/// of its duration words; a Pomodoro session starts in its first focus
/// phase with its lengths turned from minutes into seconds. There is no
/// such mode where a length does not fit in 64 bits.
pub open spec fn mode_of(command: Commands) -> Option<AppMode> {
    match command {
        Commands::Timer { durations } => if total_seconds(durations.deep_view()) <= u64::MAX {
            Some(AppMode::Timer { target: total_seconds(durations.deep_view()) as u64 })
        } else {
            None
        },
        Commands::Chrono => Some(AppMode::Chrono),
        Commands::Clock { seconds } => Some(AppMode::Clock { show_seconds: seconds }),
        Commands::Pomodoro { focus, short, long } => match (
            minutes_in_seconds(focus),
            minutes_in_seconds(short),
            minutes_in_seconds(long),
        ) {
            (Some(f), Some(s), Some(l)) => Some(
                AppMode::Pomodoro {
                    phase: PomodoroPhase::Focus,
                    cycles: 0,
                    config: PomodoroConfig { focus: f, short: s, long: l },
                },
            ),
            _ => None,
        },
    }
}

/// The line that tells the lengths of a Pomodoro session, in minutes.
pub open spec fn config_text(focus: u64, short: u64, long: u64) -> Seq<char> {
    "Config: Focus "@ + decimal_digits(focus as nat) + "m, Short Break "@ + decimal_digits(
        short as nat,
    ) + "m, Long Break "@ + decimal_digits(long as nat) + "m"@
}

/// The front end that the flags ask for: the plain one if `simple` is set,
/// whatever `ascii` says.
pub open spec fn front_end_of(simple: bool, ascii: bool) -> FrontEnd {
    if simple {
        FrontEnd::Plain
    } else if ascii {
        FrontEnd::Outline
    } else {
        FrontEnd::Blocks
    }
}

/// The line to print before the session starts, if any: the lengths of a
/// Pomodoro session, and only for the plain front end.
pub open spec fn kickoff_text(cli: Cli) -> Option<Seq<char>> {
    match cli.command {
        Commands::Pomodoro { focus, short, long } => if cli.simple {
            Some(config_text(focus, short, long))
        } else {
            None
        },
        _ => None,
    }
}

/// The mode that `command` asks for, or `None` where one of its lengths
/// does not fit in 64 bits.
pub fn initial_mode(command: &Commands) -> (mode: Option<AppMode>)
    ensures
        mode == mode_of(*command),
{
    match command {
        Commands::Chrono => Some(AppMode::Chrono),
        Commands::Timer { durations } => {
            let words = durations.as_slice();
            match checked_duration_from_args(words) {
                Some(seconds) => Some(AppMode::Timer { target: seconds }),
                None => None,
            }
        },
        Commands::Pomodoro { focus, short, long } => {
            match (focus.checked_mul(60), short.checked_mul(60), long.checked_mul(60)) {
                (Some(f), Some(s), Some(l)) => Some(
                    AppMode::Pomodoro {
                        phase: PomodoroPhase::Focus,
                        cycles: 0,
                        config: PomodoroConfig { focus: f, short: s, long: l },
                    },
                ),
                _ => None,
            }
        },
        Commands::Clock { seconds } => Some(AppMode::Clock { show_seconds: *seconds }),
    }
}

/// The line that tells the lengths of a Pomodoro session, in minutes.
pub fn config_banner(focus: u64, short: u64, long: u64) -> (line: String)
    ensures
        line@ == config_text(focus, short, long),
{
    let mut line = String::from_str("Config: Focus ");
    line.append(decimal_text(focus).as_str());
    line.append("m, Short Break ");
    line.append(decimal_text(short).as_str());
    line.append("m, Long Break ");
    line.append(decimal_text(long).as_str());
    line.append("m");
    line
}

/// The front end that the flags of `cli` ask for.
pub fn front_end(cli: &Cli) -> (chosen: FrontEnd)
    ensures
        chosen == front_end_of(cli.simple, cli.ascii),
{
    if cli.simple {
        FrontEnd::Plain
    } else if cli.ascii {
        FrontEnd::Outline
    } else {
        FrontEnd::Blocks
    }
}

/// The line to print before the session starts, if any.
pub fn kickoff(cli: &Cli) -> (line: Option<String>)
    ensures
        match line {
            Some(text) => kickoff_text(*cli) == Some(text@),
            None => kickoff_text(*cli) is None,
        },
{
    match &cli.command {
        Commands::Pomodoro { focus, short, long } => {
            if cli.simple {
                Some(config_banner(*focus, *short, *long))
            } else {
                None
            }
        },
        _ => None,
    }
}

} // verus!
