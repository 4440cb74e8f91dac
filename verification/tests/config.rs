use iswitch::config::{AppConfig, ConfigFile, DebugConfig, DebugSection, Reload};
use iswitch::follow::desired_input_source;
use iswitch::level::{level_of_name, level_of_small_name, LevelFilter};
use iswitch::paths::Environment;
use iswitch::rules::Rules;

fn environment() -> Environment {
    Environment {
        xdg_config_home: Some("/home/ann/.config".to_string()),
        home: Some("/home/ann".to_string()),
    }
}

fn with_rule(name: &str, source: &str) -> AppConfig {
    let mut rules = Rules::new();
    rules.insert(name.to_string(), source.to_string());
    AppConfig { app: rules, debug: DebugConfig::default(&environment()) }
}

#[test]
fn default_level_is_info() {
    assert_eq!(DebugConfig::default_level(), "info");
}

#[test]
fn default_file_is_under_the_configuration_directory() {
    assert_eq!(
        DebugConfig::default_file(&environment()),
        "/home/ann/.config/iswitch/iswitch.log"
    );
}

#[test]
fn default_debug_logs_nothing_to_a_file() {
    let debug = DebugConfig::default(&environment());
    assert!(!debug.enabled);
    assert_eq!(debug.level, "info");
    assert_eq!(debug.file, "/home/ann/.config/iswitch/iswitch.log");
    assert_eq!(debug.as_level_filter(), LevelFilter::Info);
}

#[test]
fn level_names_in_either_case() {
    let mut debug = DebugConfig::default(&environment());
    for (name, level) in [
        ("trace", LevelFilter::Trace),
        ("TRACE", LevelFilter::Trace),
        ("Debug", LevelFilter::Debug),
        ("info", LevelFilter::Info),
        ("WaRn", LevelFilter::Warn),
        ("ERROR", LevelFilter::Error),
        ("warning", LevelFilter::Info),
        ("", LevelFilter::Info),
        (" trace", LevelFilter::Info),
        ("TRÄCE", LevelFilter::Info),
    ] {
        debug.level = name.to_string();
        assert_eq!(debug.as_level_filter(), level, "{}", name);
        assert_eq!(level_of_name(name), level, "{}", name);
    }
}

#[test]
fn small_names_only() {
    assert_eq!(level_of_small_name("error"), LevelFilter::Error);
    assert_eq!(level_of_small_name("ERROR"), LevelFilter::Info);
}

#[test]
fn a_later_rule_replaces_an_earlier_one() {
    let mut rules = Rules::new();
    rules.insert("Mail".to_string(), "a".to_string());
    rules.insert("Notes".to_string(), "b".to_string());
    rules.insert("Mail".to_string(), "c".to_string());
    assert_eq!(rules.get("Mail"), Some("c"));
    assert_eq!(rules.get("Notes"), Some("b"));
    assert_eq!(rules.get("Safari"), None);
}

#[test]
fn tables_are_equal_in_any_order() {
    let mut one = Rules::new();
    one.insert("Mail".to_string(), "a".to_string());
    one.insert("Notes".to_string(), "b".to_string());
    let mut other = Rules::new();
    other.insert("Notes".to_string(), "b".to_string());
    assert!(one != other);
    assert!(other != one);
    other.insert("Mail".to_string(), "x".to_string());
    assert!(one != other);
    other.insert("Mail".to_string(), "a".to_string());
    assert!(one == other);
}

#[test]
fn missing_parts_are_filled_in() {
    let env = environment();
    let empty = AppConfig::filled(ConfigFile { app: None, debug: None }, &env);
    assert!(empty == AppConfig::default(&env));

    let partial = AppConfig::filled(
        ConfigFile {
            app: None,
            debug: Some(DebugSection { enabled: Some(true), level: None, file: None }),
        },
        &env,
    );
    assert!(partial.debug.enabled);
    assert_eq!(partial.debug.level, "info");
    assert_eq!(partial.debug.file, "/home/ann/.config/iswitch/iswitch.log");

    let mut rules = Rules::new();
    rules.insert("Mail".to_string(), "a".to_string());
    let full = AppConfig::filled(
        ConfigFile {
            app: Some(rules),
            debug: Some(DebugSection {
                enabled: Some(false),
                level: Some("warn".to_string()),
                file: Some("/tmp/log".to_string()),
            }),
        },
        &env,
    );
    assert_eq!(full.app.get("Mail"), Some("a"));
    assert!(!full.debug.enabled);
    assert_eq!(full.debug.level, "warn");
    assert_eq!(full.debug.file, "/tmp/log");
}

#[test]
fn development_mode_logs_everything() {
    let mut config = with_rule("Mail", "a");
    config.apply_dev_mode(false);
    assert!(config == with_rule("Mail", "a"));
    config.apply_dev_mode(true);
    assert!(config.debug.enabled);
    assert_eq!(config.debug.as_level_filter(), LevelFilter::Trace);
    assert_eq!(config.debug.file, "/home/ann/.config/iswitch/iswitch.log");
    assert_eq!(config.app.get("Mail"), Some("a"));
}

#[test]
fn a_reload_says_what_changed() {
    let mut config = with_rule("Mail", "a");
    assert_eq!(config.reload(with_rule("Mail", "a")), Reload::Unchanged);
    assert_eq!(config.reload(with_rule("Mail", "b")), Reload::Changed { logging: false });
    assert_eq!(desired_input_source("Mail", &config, "a"), Some("b"));
    let mut louder = with_rule("Mail", "b");
    louder.debug.enabled = true;
    assert_eq!(config.reload(louder), Reload::Changed { logging: true });
    assert!(config.debug.enabled);
}
