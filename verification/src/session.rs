//! One turn of the session loop: what a key press, the passing of time and
//! the end of a countdown do to the session, and what the caller is to do
//! next. The caller polls the keyboard and reads the clock, hands both in,
//! and acts on the answer.

use crate::app::{App, AppMode};
use crate::clock::{Accumulator, Tally};
use vstd::prelude::*;

verus! {

/// What a key press asks for.
#[derive(Clone, Copy, PartialEq, Eq, Structural, Debug)]
pub enum Command {
    /// Leave the session.
    Quit,
    /// Pause a running session, resume a paused one.
    TogglePause,
    /// Start counting from zero again.
    Reset,
    /// No key, or a key without a meaning.
    Nothing,
}

/// What the caller is to do after a turn.
#[derive(Clone, Copy, PartialEq, Eq, Structural, Debug)]
pub enum Tick {
    /// The user asked to leave: stop, and draw nothing.
    Quit,
    /// The countdown ran out and the session is over: sound the alert if
    /// `alert` is set, then stop.
    Finished { alert: bool },
    /// Sound the alert if `alert` is set, then draw the session with
    /// `elapsed` whole seconds on the clock.
    Draw { alert: bool, elapsed: u64 },
}

/// The command bound to the key that was pressed, if any: `q` quits, the
/// space bar pauses and resumes, `r` resets.
pub open spec fn command_of(key: Option<char>) -> Command {
    match key {
        Some(c) => if c == 'q' {
            Command::Quit
        } else if c == ' ' {
            Command::TogglePause
        } else if c == 'r' {
            Command::Reset
        } else {
            Command::Nothing
        },
        None => Command::Nothing,
    }
}

/// The pause flag once the command has been obeyed.
pub open spec fn paused_after(paused: bool, command: Command) -> bool {
    if command is TogglePause {
        !paused
    } else {
        paused
    }
}

/// The tally once the command has been obeyed and the time up to `now`
/// counted. Resuming moves the anchor to `now`, so the pause stays out of
/// the total; a reset empties the tally; time is counted only while the
/// session is not paused.
pub open spec fn counted(clock: Tally, paused: bool, command: Command, now: nat) -> Tally {
    let paused_now = paused_after(paused, command);
    let obeyed = match command {
        Command::TogglePause => if paused_now {
            clock
        } else {
            clock.anchored(now)
        },
        Command::Reset => Tally::starting(now),
        _ => clock,
    };
    if paused_now {
        obeyed
    } else {
        obeyed.advanced(now)
    }
}

/// Whether a countdown of `mode` has run out after `elapsed` whole seconds.
/// A mode without a countdown never runs out.
pub open spec fn ran_out(mode: AppMode, elapsed: nat) -> bool {
    match mode.target() {
        Some(target) => elapsed >= target,
        None => false,
    }
}

/// One turn of the session: the session and the tally after it, and what
/// the caller is to do.
///
/// A quit changes nothing. Otherwise the command is obeyed and the time
/// counted. If the countdown has then run out, a timer is over; any other
/// mode moves on as `AppMode::completed` says and starts counting from zero
/// at `now`. The alert is due when a countdown ran out and the session is
/// not muted. The seconds to draw are those counted before a new phase
/// began.
pub open spec fn tick_spec(app: App, clock: Tally, key: Option<char>, now: nat) -> (
    App,
    Tally,
    Tick,
) {
    let command = command_of(key);
    let paused = paused_after(app.paused, command);
    let tally = counted(clock, app.paused, command, now);
    let elapsed = tally.elapsed_secs();
    if command is Quit {
        (app, clock, Tick::Quit)
    } else if !ran_out(app.mode, elapsed) {
        (
            App { mode: app.mode, paused, mute: app.mute },
            tally,
            Tick::Draw { alert: false, elapsed: elapsed as u64 },
        )
    } else if app.mode.ends_session() {
        (
            App { mode: app.mode, paused, mute: app.mute },
            tally,
            Tick::Finished { alert: !app.mute },
        )
    } else {
        (
            App { mode: app.mode.completed(), paused, mute: app.mute },
            Tally::starting(now),
            Tick::Draw { alert: !app.mute, elapsed: elapsed as u64 },
        )
    }
}

/// The command bound to the key that was pressed, if any.
pub fn read_key(key: Option<char>) -> (command: Command)
    ensures
        command == command_of(key),
{
    match key {
        Some(c) => {
            if c == 'q' {
                Command::Quit
            } else if c == ' ' {
                Command::TogglePause
            } else if c == 'r' {
                Command::Reset
            } else {
                Command::Nothing
            }
        },
        None => Command::Nothing,
    }
}

/// Takes one turn of the session loop. `key` is the character of the key
/// that was pressed while the caller waited, if any, and `now` the reading
/// of the clock after the wait.
pub fn tick(app: &mut App, clock: &mut Accumulator, key: Option<char>, now: u64) -> (todo: Tick)
    requires
        old(app).mode.can_complete(),
    ensures
        (*final(app), final(clock)@, todo) == tick_spec(
            *old(app),
            old(clock)@,
            key,
            now as nat,
        ),
{
    match read_key(key) {
        Command::Quit => {
            return Tick::Quit;
        },
        Command::TogglePause => {
            app.paused = !app.paused;
            if !app.paused {
                clock.resume(now);
            }
        },
        Command::Reset => {
            clock.reset(now);
        },
        Command::Nothing => {},
    }
    if !app.paused {
        clock.advance(now);
    }
    let elapsed: u64 = clock.elapsed_secs();
    let ran_out: bool = match app.get_target_duration() {
        Some(target) => elapsed >= target,
        None => false,
    };
    if !ran_out {
        return Tick::Draw { alert: false, elapsed };
    }
    let alert: bool = !app.mute;
    if app.on_timer_complete() {
        Tick::Finished { alert }
    } else {
        clock.reset(now);
        Tick::Draw { alert, elapsed }
    }
}

/// While a session is paused, the time counted stands still: a turn that
/// leaves the session paused, and neither resets nor ends a countdown,
/// leaves the tally as it was, however far the clock has moved on.
pub proof fn law_paused_time_stands(app: App, clock: Tally, key: Option<char>, now: nat)
    requires
        paused_after(app.paused, command_of(key)),
        !(command_of(key) is Reset),
        !ran_out(app.mode, clock.elapsed_secs()),
    ensures
        tick_spec(app, clock, key, now).1 == clock,
{
}

/// Resuming counts on from where the pause began, and the pause itself is
/// not counted: when a paused session is resumed at `resumed` and the next
/// turn comes at `later`, the total has grown by the time between the two
/// and by nothing else, as long as no countdown runs out on the way.
pub proof fn law_resume_skips_pause(app: App, clock: Tally, resumed: nat, later: nat)
    requires
        app.paused,
        clock.last_tick <= resumed <= later,
        !ran_out(app.mode, clock.anchored(resumed).advanced(later).elapsed_secs()),
    ensures
        ({
            let first = tick_spec(app, clock, Some(' '), resumed);
            let second = tick_spec(first.0, first.1, None, later);
            &&& !first.0.paused
            &&& first.1.accumulated == clock.accumulated
            &&& second.1.accumulated == clock.accumulated + (later - resumed)
        }),
{
    let at_resume = counted(clock, true, Command::TogglePause, resumed);
    let at_last = clock.anchored(resumed).advanced(later);
    assert(at_resume.elapsed_secs() <= at_last.elapsed_secs()) by (nonlinear_arith)
        requires
            at_resume.accumulated <= at_last.accumulated,
            at_resume.elapsed_secs() == at_resume.accumulated / 1_000_000_000,
            at_last.elapsed_secs() == at_last.accumulated / 1_000_000_000,
    ;
}

/// The time counted never shrinks but by a reset or by a countdown running
/// out and a new phase beginning.
pub proof fn law_time_is_lost_only_by_reset_or_completion(
    app: App,
    clock: Tally,
    key: Option<char>,
    now: nat,
)
    ensures
        ({
            let command = command_of(key);
            let after = tick_spec(app, clock, key, now);
            let elapsed = counted(clock, app.paused, command, now).elapsed_secs();
            ||| after.1.accumulated >= clock.accumulated
            ||| command is Reset
            ||| ran_out(app.mode, elapsed) && !app.mode.ends_session()
        }),
{
}

/// A reset puts the clock at exactly zero, whatever it showed, and leaves
/// the mode, with its phase and its count of round trips, and the pause flag
/// as they were. A countdown of length zero is left out: it has run out as
/// soon as the clock shows zero.
pub proof fn law_reset_zeroes_elapsed(app: App, clock: Tally, now: nat)
    requires
        app.mode.target() != Some(0u64),
    ensures
        ({
            let after = tick_spec(app, clock, Some('r'), now);
            &&& after.0 == app
            &&& after.1.accumulated == 0
            &&& after.2 == Tick::Draw { alert: false, elapsed: 0 }
        }),
{
}

} // verus!
