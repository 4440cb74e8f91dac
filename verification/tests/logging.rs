use iswitch::clock::LocalTime;
use iswitch::config::AppConfig;
use iswitch::level::LevelFilter;
use iswitch::logging::{
    log_line, logging_plan, logging_plan_at, next_setup_step, LoggingPlan, SetupAction, SetupEvent,
};
use iswitch::paths::Environment;
use iswitch::text::replace_char;

fn configuration(enabled: bool, level: &str, file: &str) -> AppConfig {
    let mut config = AppConfig::default(&Environment { xdg_config_home: None, home: None });
    config.debug.enabled = enabled;
    config.debug.level = level.to_string();
    config.debug.file = file.to_string();
    config
}

fn to_file() -> LoggingPlan {
    LoggingPlan { level: LevelFilter::Warn, file: Some("/tmp/iswitch.log".to_string()) }
}

#[test]
fn without_logging_the_level_is_info() {
    let plan = logging_plan(&configuration(false, "trace", "/tmp/x"), Some("/home/ann"));
    assert_eq!(plan.level, LevelFilter::Info);
    assert_eq!(plan.file, None);
}

#[test]
fn logging_to_a_file_under_the_home_directory() {
    let config = configuration(true, "Debug", "~/.config/iswitch/iswitch.log");
    let plan = logging_plan(&config, Some("/home/ann"));
    assert_eq!(plan.level, LevelFilter::Debug);
    assert_eq!(plan.file.as_deref(), Some("/home/ann/.config/iswitch/iswitch.log"));
    let plan = logging_plan(&config, None);
    assert_eq!(plan.file.as_deref(), Some("/.config/iswitch/iswitch.log"));
    let plan = logging_plan_at(&config, LevelFilter::Error, Some("/h"));
    assert_eq!(plan.level, LevelFilter::Error);
    assert_eq!(plan.file.as_deref(), Some("/h/.config/iswitch/iswitch.log"));
}

#[test]
fn every_tilde_is_replaced() {
    let plan = logging_plan(&configuration(true, "info", "~/a~b"), Some("/h"));
    assert_eq!(plan.file.as_deref(), Some("/h/a/hb"));
    let plan = logging_plan(&configuration(true, "info", "/var/log/x"), Some("/h"));
    assert_eq!(plan.file.as_deref(), Some("/var/log/x"));
    assert_eq!(replace_char("é~ü", '~', "ß"), "éßü");
}

#[test]
fn standard_output_only() {
    let plan = LoggingPlan { level: LevelFilter::Info, file: None };
    let step = next_setup_step(&plan, &SetupEvent::Begin);
    assert!(matches!(step.action, SetupAction::Apply { to_file: false }));
    assert_eq!(step.warning, None);
}

#[test]
fn a_present_directory_is_used() {
    match next_setup_step(&to_file(), &SetupEvent::Begin).action {
        SetupAction::Inspect(dir) => assert_eq!(dir, "/tmp"),
        other => panic!("{:?}", other),
    }
    match next_setup_step(&to_file(), &SetupEvent::Inspected(true)).action {
        SetupAction::Open(file) => assert_eq!(file, "/tmp/iswitch.log"),
        other => panic!("{:?}", other),
    }
    let step = next_setup_step(&to_file(), &SetupEvent::Opened(None));
    assert!(matches!(step.action, SetupAction::Apply { to_file: true }));
    assert_eq!(step.warning, None);
}

#[test]
fn a_missing_directory_is_created() {
    match next_setup_step(&to_file(), &SetupEvent::Inspected(false)).action {
        SetupAction::Create(dir) => assert_eq!(dir, "/tmp"),
        other => panic!("{:?}", other),
    }
    let step = next_setup_step(&to_file(), &SetupEvent::Created(None));
    assert!(matches!(step.action, SetupAction::Open(_)));
    assert_eq!(step.warning, None);
}

#[test]
fn a_path_without_a_directory_is_opened_at_once() {
    for path in ["", "/"] {
        let plan = LoggingPlan { level: LevelFilter::Info, file: Some(path.to_string()) };
        match next_setup_step(&plan, &SetupEvent::Begin).action {
            SetupAction::Open(file) => assert_eq!(file, path),
            other => panic!("{:?}", other),
        }
    }
}

#[test]
fn failures_are_warned_of() {
    let step = next_setup_step(&to_file(), &SetupEvent::Created(Some("denied".to_string())));
    assert!(matches!(step.action, SetupAction::Open(_)));
    assert_eq!(step.warning.as_deref(), Some("Cannot create log dir: denied"));
    let step = next_setup_step(&to_file(), &SetupEvent::Opened(Some("denied".to_string())));
    assert!(matches!(step.action, SetupAction::Apply { to_file: false }));
    assert_eq!(
        step.warning.as_deref(),
        Some("Cannot open log file /tmp/iswitch.log: denied — stdout only")
    );
}

#[test]
fn lines_of_the_log() {
    let time = LocalTime::new(2024, 3, 5, 7, 8, 9).unwrap();
    assert_eq!(time.timestamp(), "2024-03-05 07:08:09");
    assert_eq!(
        log_line(&time, "INFO", "iswitch", "iSwitch starting"),
        "2024-03-05 07:08:09 [INFO] [iswitch] iSwitch starting"
    );
}

#[test]
fn timestamps_at_the_edges() {
    for (year, text) in [
        (0, "0000-12-31 23:59:59"),
        (33, "0033-12-31 23:59:59"),
        (999, "0999-12-31 23:59:59"),
        (9999, "9999-12-31 23:59:59"),
        (10000, "+10000-12-31 23:59:59"),
        (262142, "+262142-12-31 23:59:59"),
        (-1, "-0001-12-31 23:59:59"),
        (-12345, "-12345-12-31 23:59:59"),
        (-262143, "-262143-12-31 23:59:59"),
    ] {
        assert_eq!(LocalTime::new(year, 12, 31, 23, 59, 59).unwrap().timestamp(), text);
    }
}

#[test]
fn times_that_are_none() {
    assert!(LocalTime::new(2023, 2, 29, 0, 0, 0).is_none());
    assert!(LocalTime::new(2024, 2, 29, 0, 0, 0).is_some());
    assert!(LocalTime::new(1900, 2, 29, 0, 0, 0).is_none());
    assert!(LocalTime::new(2000, 2, 29, 0, 0, 0).is_some());
    assert!(LocalTime::new(-4, 2, 29, 0, 0, 0).is_some());
    assert!(LocalTime::new(2024, 4, 31, 0, 0, 0).is_none());
    assert!(LocalTime::new(2024, 13, 1, 0, 0, 0).is_none());
    assert!(LocalTime::new(2024, 0, 1, 0, 0, 0).is_none());
    assert!(LocalTime::new(2024, 1, 0, 0, 0, 0).is_none());
    assert!(LocalTime::new(2024, 1, 1, 24, 0, 0).is_none());
    assert!(LocalTime::new(2024, 1, 1, 0, 60, 0).is_none());
    assert!(LocalTime::new(2024, 1, 1, 0, 0, 60).is_none());
    assert!(LocalTime::new(262143, 1, 1, 0, 0, 0).is_none());
    assert!(LocalTime::new(-262144, 1, 1, 0, 0, 0).is_none());
}

#[test]
fn the_calendar_is_that_of_chrono() {
    for year in [-262144, -262143, -401, -400, -4, -1, 0, 1, 1900, 2000, 2023, 2024, 262142, 262143] {
        for month in 0..=13 {
            for day in 0..=32 {
                let date = chrono::NaiveDate::from_ymd_opt(year, month, day);
                let time = LocalTime::new(year, month, day, 1, 2, 3);
                assert_eq!(date.is_some(), time.is_some(), "{} {} {}", year, month, day);
            }
        }
    }
}
