use engage::app::{AppMode, PomodoroConfig, PomodoroPhase};
use engage::cli::{config_banner, front_end, initial_mode, kickoff, Cli, Commands, FrontEnd};

fn cli(simple: bool, ascii: bool, command: Commands) -> Cli {
    Cli { mute: false, simple, ascii, command }
}

#[test]
fn chrono_and_clock_modes() {
    assert_eq!(initial_mode(&Commands::Chrono), Some(AppMode::Chrono));
    assert_eq!(
        initial_mode(&Commands::Clock { seconds: true }),
        Some(AppMode::Clock { show_seconds: true })
    );
    assert_eq!(
        initial_mode(&Commands::Clock { seconds: false }),
        Some(AppMode::Clock { show_seconds: false })
    );
}

#[test]
fn timer_mode_sums_its_words() {
    let command = Commands::Timer {
        durations: vec!["1h".to_string(), "10m".to_string(), "30s".to_string()],
    };
    assert_eq!(initial_mode(&command), Some(AppMode::Timer { target: 4230 }));
    let command = Commands::Timer { durations: vec!["junk".to_string()] };
    assert_eq!(initial_mode(&command), Some(AppMode::Timer { target: 0 }));
}

#[test]
fn timer_mode_that_does_not_fit() {
    let command = Commands::Timer {
        durations: vec!["18446744073709551615".to_string(), "1s".to_string()],
    };
    assert_eq!(initial_mode(&command), None);
}

#[test]
fn pomodoro_mode_takes_minutes() {
    let command = Commands::Pomodoro { focus: 25, short: 5, long: 15 };
    assert_eq!(
        initial_mode(&command),
        Some(AppMode::Pomodoro {
            phase: PomodoroPhase::Focus,
            cycles: 0,
            config: PomodoroConfig { focus: 1500, short: 300, long: 900 },
        })
    );
    let command = Commands::Pomodoro { focus: 1, short: 1, long: 1 };
    assert_eq!(
        initial_mode(&command),
        Some(AppMode::Pomodoro {
            phase: PomodoroPhase::Focus,
            cycles: 0,
            config: PomodoroConfig { focus: 60, short: 60, long: 60 },
        })
    );
}

#[test]
fn pomodoro_mode_that_does_not_fit() {
    let limit = u64::MAX / 60;
    assert!(initial_mode(&Commands::Pomodoro { focus: limit, short: 5, long: 15 }).is_some());
    assert_eq!(initial_mode(&Commands::Pomodoro { focus: limit + 1, short: 5, long: 15 }), None);
    assert_eq!(initial_mode(&Commands::Pomodoro { focus: 25, short: limit + 1, long: 15 }), None);
    assert_eq!(initial_mode(&Commands::Pomodoro { focus: 25, short: 5, long: u64::MAX }), None);
}

#[test]
fn config_banner_text() {
    assert_eq!(
        config_banner(25, 5, 15),
        "Config: Focus 25m, Short Break 5m, Long Break 15m"
    );
    assert_eq!(config_banner(0, 100, 7), "Config: Focus 0m, Short Break 100m, Long Break 7m");
}

#[test]
fn front_end_choice() {
    assert_eq!(front_end(&cli(true, false, Commands::Chrono)), FrontEnd::Plain);
    assert_eq!(front_end(&cli(true, true, Commands::Chrono)), FrontEnd::Plain);
    assert_eq!(front_end(&cli(false, true, Commands::Chrono)), FrontEnd::Outline);
    assert_eq!(front_end(&cli(false, false, Commands::Chrono)), FrontEnd::Blocks);
}

#[test]
fn kickoff_only_for_a_plain_pomodoro() {
    let pomodoro = || Commands::Pomodoro { focus: 25, short: 5, long: 15 };
    assert_eq!(
        kickoff(&cli(true, false, pomodoro())),
        Some("Config: Focus 25m, Short Break 5m, Long Break 15m".to_string())
    );
    assert_eq!(kickoff(&cli(false, false, pomodoro())), None);
    assert_eq!(kickoff(&cli(false, true, pomodoro())), None);
    assert_eq!(kickoff(&cli(true, false, Commands::Chrono)), None);
    assert_eq!(kickoff(&cli(true, false, Commands::Clock { seconds: true })), None);
    assert_eq!(kickoff(&cli(true, false, Commands::Timer { durations: vec![] })), None);
}
