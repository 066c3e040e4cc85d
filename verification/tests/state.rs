use engage::app::{App, AppMode, PomodoroConfig, PomodoroPhase};

fn pomodoro(phase: PomodoroPhase, cycles: u32) -> App {
    App::new(
        AppMode::Pomodoro {
            phase,
            cycles,
            config: PomodoroConfig { focus: 1500, short: 300, long: 900 },
        },
        false,
    )
}

fn phase_and_cycles(app: &App) -> (PomodoroPhase, u32) {
    match app.mode {
        AppMode::Pomodoro { phase, cycles, .. } => (phase, cycles),
        _ => panic!("not a pomodoro session"),
    }
}

#[test]
fn new_session_runs() {
    let app = App::new(AppMode::Chrono, true);
    assert_eq!(app.mode, AppMode::Chrono);
    assert!(!app.paused);
    assert!(app.mute);
    let app = App::new(AppMode::Timer { target: 5 }, false);
    assert_eq!(app.mode, AppMode::Timer { target: 5 });
    assert!(!app.paused);
    assert!(!app.mute);
}

#[test]
fn open_ended_modes_have_no_target() {
    assert_eq!(App::new(AppMode::Chrono, false).get_target_duration(), None);
    assert_eq!(
        App::new(AppMode::Clock { show_seconds: true }, false).get_target_duration(),
        None
    );
}

#[test]
fn timer_target_is_its_length() {
    assert_eq!(App::new(AppMode::Timer { target: 90 }, false).get_target_duration(), Some(90));
    assert_eq!(App::new(AppMode::Timer { target: 0 }, false).get_target_duration(), Some(0));
}

#[test]
fn pomodoro_target_follows_the_phase() {
    assert_eq!(pomodoro(PomodoroPhase::Focus, 0).get_target_duration(), Some(1500));
    assert_eq!(pomodoro(PomodoroPhase::ShortBreak, 0).get_target_duration(), Some(300));
    assert_eq!(pomodoro(PomodoroPhase::LongBreak, 3).get_target_duration(), Some(900));
}

#[test]
fn focus_then_short_break_then_focus() {
    let mut app = pomodoro(PomodoroPhase::Focus, 0);
    assert!(!app.on_timer_complete());
    assert_eq!(phase_and_cycles(&app), (PomodoroPhase::ShortBreak, 0));
    assert!(!app.on_timer_complete());
    assert_eq!(phase_and_cycles(&app), (PomodoroPhase::Focus, 1));
}

#[test]
fn fourth_focus_earns_the_long_break() {
    let mut app = pomodoro(PomodoroPhase::Focus, 0);
    let mut breaks = Vec::new();
    for _ in 0..8 {
        assert!(!app.on_timer_complete());
        breaks.push(phase_and_cycles(&app));
        assert!(!app.on_timer_complete());
        assert_eq!(phase_and_cycles(&app).0, PomodoroPhase::Focus);
    }
    assert_eq!(
        breaks,
        vec![
            (PomodoroPhase::ShortBreak, 0),
            (PomodoroPhase::ShortBreak, 1),
            (PomodoroPhase::ShortBreak, 2),
            (PomodoroPhase::LongBreak, 3),
            (PomodoroPhase::ShortBreak, 4),
            (PomodoroPhase::ShortBreak, 5),
            (PomodoroPhase::ShortBreak, 6),
            (PomodoroPhase::LongBreak, 7),
        ]
    );
    assert_eq!(phase_and_cycles(&app), (PomodoroPhase::Focus, 8));
}

#[test]
fn long_break_counts_a_round_trip_too() {
    let mut app = pomodoro(PomodoroPhase::LongBreak, 3);
    assert!(!app.on_timer_complete());
    assert_eq!(phase_and_cycles(&app), (PomodoroPhase::Focus, 4));
}

#[test]
fn completion_keeps_config_and_flags() {
    let mut app = pomodoro(PomodoroPhase::Focus, 2);
    app.paused = true;
    app.mute = true;
    app.on_timer_complete();
    assert!(app.paused);
    assert!(app.mute);
    match app.mode {
        AppMode::Pomodoro { config, .. } => {
            assert_eq!(config, PomodoroConfig { focus: 1500, short: 300, long: 900 })
        }
        _ => panic!("mode changed"),
    }
}

#[test]
fn timer_always_ends_the_session() {
    let mut app = App::new(AppMode::Timer { target: 5 }, false);
    for _ in 0..3 {
        assert!(app.on_timer_complete());
        assert_eq!(app.mode, AppMode::Timer { target: 5 });
    }
}

#[test]
fn other_modes_never_end_the_session() {
    let mut app = App::new(AppMode::Chrono, false);
    assert!(!app.on_timer_complete());
    assert_eq!(app.mode, AppMode::Chrono);
    let mut app = App::new(AppMode::Clock { show_seconds: false }, false);
    assert!(!app.on_timer_complete());
    assert_eq!(app.mode, AppMode::Clock { show_seconds: false });
    let mut app = pomodoro(PomodoroPhase::Focus, 0);
    for _ in 0..20 {
        assert!(!app.on_timer_complete());
    }
}

#[test]
fn focus_at_the_last_count_still_completes() {
    let mut app = pomodoro(PomodoroPhase::Focus, u32::MAX);
    assert!(app.can_complete());
    assert!(!app.on_timer_complete());
    assert_eq!(phase_and_cycles(&app), (PomodoroPhase::LongBreak, u32::MAX));
    assert!(!app.can_complete());
}

#[test]
fn counter_has_room_below_its_limit() {
    assert!(pomodoro(PomodoroPhase::ShortBreak, u32::MAX - 1).can_complete());
    assert!(!pomodoro(PomodoroPhase::ShortBreak, u32::MAX).can_complete());
    assert!(App::new(AppMode::Chrono, false).can_complete());
    assert!(App::new(AppMode::Timer { target: 1 }, false).can_complete());
}
