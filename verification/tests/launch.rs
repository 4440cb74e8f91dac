use iswitch::launch::{
    is_dev_mode, next_launch_action, parse_command, Command, LaunchAction, LaunchEvent,
};

fn command(words: &[&str]) -> Command {
    parse_command(&words.iter().map(|w| w.to_string()).collect())
}

fn switch_to(target: &str) -> Command {
    command(&["iswitch", "-s", target])
}

#[test]
fn command_lines() {
    assert!(matches!(command(&[]), Command::Daemon));
    assert!(matches!(command(&["iswitch"]), Command::Daemon));
    assert!(matches!(command(&["iswitch", "-p"]), Command::List));
    assert!(matches!(command(&["iswitch", "-p", "-s"]), Command::List));
    assert!(matches!(command(&["iswitch", "-s"]), Command::SwitchToNothing));
    assert!(matches!(command(&["iswitch", "-v"]), Command::Version));
    assert!(matches!(command(&["iswitch", "--version"]), Command::Version));
    assert!(matches!(command(&["iswitch", "-h"]), Command::Help));
    assert!(matches!(command(&["iswitch", "--help"]), Command::Help));
    match command(&["iswitch", "-s", "com.apple.keylayout.ABC", "more"]) {
        Command::Switch(target) => assert_eq!(target, "com.apple.keylayout.ABC"),
        other => panic!("{:?}", other),
    }
    match command(&["iswitch", "-x"]) {
        Command::Unknown(flag) => assert_eq!(flag, "-x"),
        other => panic!("{:?}", other),
    }
}

#[test]
fn listing_needs_no_configuration() {
    let begin = LaunchEvent::Begin;
    let action = next_launch_action(&Command::List, "1.0", &begin);
    assert!(matches!(action, LaunchAction::PrintSources));
    for other in [Command::Daemon, Command::Version, Command::Help, Command::SwitchToNothing] {
        let action = next_launch_action(&other, "1.0", &begin);
        assert!(matches!(action, LaunchAction::Configure));
    }
}

#[test]
fn version_and_help() {
    match next_launch_action(&Command::Version, "1.2.3", &LaunchEvent::Configured) {
        LaunchAction::Print(lines) => assert_eq!(lines, vec!["iswitch 1.2.3"]),
        other => panic!("{:?}", other),
    }
    match next_launch_action(&Command::Help, "1.2.3", &LaunchEvent::Configured) {
        LaunchAction::Print(lines) => assert_eq!(
            lines,
            vec![
                "iSwitch — auto-switch input sources based on active app",
                "",
                "USAGE:",
                "  iswitch              Daemon mode",
                "  iswitch -s <id>      Switch to input source",
                "  iswitch -p           List input sources",
                "  iswitch -v           Show version",
                "  iswitch -h           Help",
            ]
        ),
        other => panic!("{:?}", other),
    }
}

#[test]
fn wrong_command_lines_are_refused() {
    match next_launch_action(&Command::SwitchToNothing, "1", &LaunchEvent::Configured) {
        LaunchAction::Fail(message) => assert_eq!(message, "Usage: -s <input_source_id>"),
        other => panic!("{:?}", other),
    }
    match next_launch_action(&Command::Unknown("-x".to_string()), "1", &LaunchEvent::Configured) {
        LaunchAction::Fail(message) => assert_eq!(message, "Unknown flag: -x. Use -h."),
        other => panic!("{:?}", other),
    }
}

#[test]
fn a_switch_only_to_another_source() {
    let command = switch_to("a");
    let action = next_launch_action(&command, "1", &LaunchEvent::Configured);
    assert!(matches!(action, LaunchAction::ReadCurrent));
    match next_launch_action(&command, "1", &LaunchEvent::Current("b".to_string())) {
        LaunchAction::SwitchTo(target) => assert_eq!(target, "a"),
        other => panic!("{:?}", other),
    }
    let action = next_launch_action(&command, "1", &LaunchEvent::Current("a".to_string()));
    assert!(matches!(action, LaunchAction::CheckRunning));
}

#[test]
fn after_a_switch_the_program_stays_where_no_other_runs() {
    let command = switch_to("a");
    let action = next_launch_action(&command, "1", &LaunchEvent::Switched);
    assert!(matches!(action, LaunchAction::CheckRunning));
    let action = next_launch_action(&command, "1", &LaunchEvent::Running(false));
    assert!(matches!(action, LaunchAction::RunDaemon));
}

#[test]
fn after_a_switch_the_program_ends_quietly_where_another_runs() {
    let action = next_launch_action(&switch_to("a"), "1", &LaunchEvent::Running(true));
    assert!(matches!(action, LaunchAction::Exit));
}

#[test]
fn following_needs_no_other_instance() {
    let action = next_launch_action(&Command::Daemon, "1", &LaunchEvent::Configured);
    assert!(matches!(action, LaunchAction::CheckRunning));
    let action = next_launch_action(&Command::Daemon, "1", &LaunchEvent::Running(false));
    assert!(matches!(action, LaunchAction::RunDaemon));
    match next_launch_action(&Command::Daemon, "1", &LaunchEvent::Running(true)) {
        LaunchAction::Fail(message) => {
            assert_eq!(message, "Another iswitch daemon is running. Exiting.")
        }
        other => panic!("{:?}", other),
    }
}

#[test]
fn development_mode() {
    assert!(!is_dev_mode(false, false, None));
    assert!(is_dev_mode(true, false, None));
    assert!(is_dev_mode(false, true, Some("/usr/bin/iswitch")));
    assert!(!is_dev_mode(false, false, Some("/usr/bin/iswitch")));
    assert!(is_dev_mode(false, false, Some("/src/iswitch/target/debug/iswitch")));
    assert!(!is_dev_mode(false, false, Some("/src/iswitch/target/release/iswitch")));
}
