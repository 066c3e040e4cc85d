//! The session state: the active mode, the pause flag and the mute flag,
//! with the countdown length of the mode and what happens when it runs out.

use vstd::prelude::*;

verus! {

/// The sub-state of a Pomodoro session.
#[derive(Clone, Copy, PartialEq, Eq, Structural, Debug)]
pub enum PomodoroPhase {
    Focus,
    ShortBreak,
    LongBreak,
}

/// The three phase lengths of a Pomodoro session, in seconds. They are set
/// when the session starts and stay as they are.
#[derive(Clone, Copy, PartialEq, Eq, Structural, Debug)]
pub struct PomodoroConfig {
    pub focus: u64,
    pub short: u64,
    pub long: u64,
}

/// What the session does; one variant for its whole life.
#[derive(Clone, Copy, PartialEq, Eq, Structural, Debug)]
pub enum AppMode {
    /// Counts up without end.
    Chrono,
    /// Shows the time of day.
    Clock { show_seconds: bool },
    /// Counts down from `target` seconds; the session ends at zero.
    Timer { target: u64 },
    /// Counts down phase by phase; at zero the next phase begins.
    Pomodoro { phase: PomodoroPhase, cycles: u32, config: PomodoroConfig },
}

/// The state of one session.
#[derive(Debug)]
pub struct App {
    pub mode: AppMode,
    pub paused: bool,
    pub mute: bool,
}

impl PomodoroConfig {
    /// The length of `phase`, in seconds.
    pub open spec fn duration_of(self, phase: PomodoroPhase) -> u64 {
        match phase {
            PomodoroPhase::Focus => self.focus,
            PomodoroPhase::ShortBreak => self.short,
            PomodoroPhase::LongBreak => self.long,
        }
    }
}

/// The break that follows a focus phase after `cycles` completed round
/// trips: every fourth focus phase earns the long one.
pub open spec fn break_after(cycles: u32) -> PomodoroPhase {
    if (cycles + 1) % 4 == 0 {
        PomodoroPhase::LongBreak
    } else {
        PomodoroPhase::ShortBreak
    }
}

impl AppMode {
    /// The countdown length of the mode in seconds, if it has one.
    pub open spec fn target(self) -> Option<u64> {
        match self {
            AppMode::Chrono => None,
            AppMode::Clock { .. } => None,
            AppMode::Timer { target } => Some(target),
            AppMode::Pomodoro { phase, config, .. } => Some(config.duration_of(phase)),
        }
    }

    /// Whether the session is over once the countdown has run out.
    pub open spec fn ends_session(self) -> bool {
        self is Timer
    }

    /// Whether the round-trip counter has room for the step that the end of
    /// the countdown asks for. Only the end of a break counts a round trip.
    pub open spec fn can_complete(self) -> bool {
        match self {
            AppMode::Pomodoro { phase, cycles, .. } => phase == PomodoroPhase::Focus || cycles
                < u32::MAX,
            _ => true,
        }
    }

    /// The mode after the countdown has run out. A focus phase gives way to
    /// a break and leaves the counter alone; a break gives way to focus and
    /// counts one round trip. The other modes stay as they are.
    pub open spec fn completed(self) -> AppMode {
        match self {
            AppMode::Pomodoro { phase, cycles, config } => match phase {
                PomodoroPhase::Focus => AppMode::Pomodoro {
                    phase: break_after(cycles),
                    cycles,
                    config,
                },
                _ => AppMode::Pomodoro {
                    phase: PomodoroPhase::Focus,
                    cycles: (cycles + 1) as u32,
                    config,
                },
            },
            _ => self,
        }
    }
}

/// The end of a countdown never changes what kind of session it is, nor the
/// lengths it was started with. In a Pomodoro session it always changes the
/// phase, between focus and a break, and the count of round trips moves
/// only at the end of a break, by one.
pub proof fn law_completion_keeps_the_session(mode: AppMode)
    requires
        mode.can_complete(),
    ensures
        match (mode, mode.completed()) {
            (
                AppMode::Pomodoro { phase, cycles, config },
                AppMode::Pomodoro { phase: next, cycles: count, config: kept },
            ) => {
                &&& kept == config
                &&& (phase == PomodoroPhase::Focus) != (next == PomodoroPhase::Focus)
                &&& count == if phase == PomodoroPhase::Focus {
                    cycles as int
                } else {
                    cycles + 1
                }
            },
            (before, after) => !(before is Pomodoro) && after == before,
        },
{
}

impl App {
    /// A running session in `mode`.
    pub fn new(mode: AppMode, mute: bool) -> (app: App)
        ensures
            app.mode == mode,
            app.mute == mute,
            !app.paused,
    {
        App { mode, paused: false, mute }
    }

    /// The countdown length for the current state in seconds, if there is one.
    pub fn get_target_duration(&self) -> (target: Option<u64>)
        ensures
            target == self.mode.target(),
    {
        match &self.mode {
            AppMode::Chrono | AppMode::Clock { .. } => None,
            AppMode::Timer { target } => Some(*target),
            AppMode::Pomodoro { phase, config, .. } => Some(
                match phase {
                    PomodoroPhase::Focus => config.focus,
                    PomodoroPhase::ShortBreak => config.short,
                    PomodoroPhase::LongBreak => config.long,
                },
            ),
        }
    }

    /// Whether `on_timer_complete` may be called in the current state.
    pub fn can_complete(&self) -> (ok: bool)
        ensures
            ok == self.mode.can_complete(),
    {
        match &self.mode {
            AppMode::Pomodoro { phase, cycles, .. } => match phase {
                PomodoroPhase::Focus => true,
                _ => *cycles < u32::MAX,
            },
            _ => true,
        }
    }

    /// Acts on the countdown having run out and says whether the session is
    /// over. Only a timer ends; a Pomodoro session moves to its next phase;
    /// a mode without a countdown is left alone.
    pub fn on_timer_complete(&mut self) -> (finished: bool)
        requires
            old(self).mode.can_complete(),
        ensures
            finished == old(self).mode.ends_session(),
            final(self).mode == old(self).mode.completed(),
            final(self).paused == old(self).paused,
            final(self).mute == old(self).mute,
    {
        match &mut self.mode {
            AppMode::Timer { .. } => true,
            AppMode::Chrono | AppMode::Clock { .. } => false,
            AppMode::Pomodoro { phase, cycles, .. } => {
                match phase {
                    PomodoroPhase::Focus => {
                        if *cycles % 4 == 3 {
                            *phase = PomodoroPhase::LongBreak;
                        } else {
                            *phase = PomodoroPhase::ShortBreak;
                        }
                    },
                    PomodoroPhase::ShortBreak | PomodoroPhase::LongBreak => {
                        *cycles += 1;
                        *phase = PomodoroPhase::Focus;
                    },
                }
                false
            },
        }
    }
}

} // verus!
