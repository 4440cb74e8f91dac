use iswitch::config::{AppConfig, ConfigFile, DebugSection};
use iswitch::load::{next_load_action, LoadAction, LoadEvent, DEFAULT_CONFIG_TOML};
use iswitch::paths::Environment;

const PATH: &str = "/home/ann/.config/iswitch/config.toml";

fn environment() -> Environment {
    Environment { xdg_config_home: None, home: Some("/home/ann".to_string()) }
}

#[test]
fn an_existing_file_is_read() {
    let event = LoadEvent::Checked { exists: true };
    assert!(matches!(next_load_action(PATH, event, &environment()), LoadAction::Read));
}

#[test]
fn a_missing_file_is_written_in_a_new_directory() {
    let env = environment();
    let event = LoadEvent::Checked { exists: false };
    match next_load_action(PATH, event, &env) {
        LoadAction::MakeParent(dir) => assert_eq!(dir, "/home/ann/.config/iswitch"),
        other => panic!("{:?}", other),
    }
    match next_load_action(PATH, LoadEvent::ParentMade, &env) {
        LoadAction::Write(text) => assert_eq!(text, DEFAULT_CONFIG_TOML),
        other => panic!("{:?}", other),
    }
    assert!(matches!(next_load_action(PATH, LoadEvent::Written, &env), LoadAction::Read));
}

#[test]
fn a_missing_file_without_a_directory_is_written_at_once() {
    let event = LoadEvent::Checked { exists: false };
    match next_load_action("/", event, &environment()) {
        LoadAction::Write(text) => assert_eq!(text, DEFAULT_CONFIG_TOML),
        other => panic!("{:?}", other),
    }
}

#[test]
fn what_was_read_is_parsed() {
    match next_load_action(PATH, LoadEvent::Read(Some("[app]".to_string())), &environment()) {
        LoadAction::Parse(text) => assert_eq!(text, "[app]"),
        other => panic!("{:?}", other),
    }
}

#[test]
fn failures_give_the_default() {
    let env = environment();
    for event in [LoadEvent::Read(None), LoadEvent::Parsed(None)] {
        match next_load_action(PATH, event, &env) {
            LoadAction::Finish(config) => assert!(config == AppConfig::default(&env)),
            other => panic!("{:?}", other),
        }
    }
}

#[test]
fn what_was_parsed_is_filled_in() {
    let file = ConfigFile {
        app: None,
        debug: Some(DebugSection { enabled: None, level: Some("warn".to_string()), file: None }),
    };
    match next_load_action(PATH, LoadEvent::Parsed(Some(file)), &environment()) {
        LoadAction::Finish(config) => {
            assert!(!config.debug.enabled);
            assert_eq!(config.debug.level, "warn");
            assert_eq!(config.debug.file, "/home/ann/.config/iswitch/iswitch.log");
        }
        other => panic!("{:?}", other),
    }
}

#[test]
fn default_file_is_a_configuration_without_rules() {
    let table: toml::Table = DEFAULT_CONFIG_TOML.parse().unwrap();
    assert_eq!(table.len(), 2);
    assert!(table["app"].as_table().unwrap().is_empty());
    let debug = table["debug"].as_table().unwrap();
    assert_eq!(debug.len(), 3);
    assert_eq!(debug["enabled"].as_bool(), Some(false));
    assert_eq!(debug["level"].as_str(), Some("info"));
    assert_eq!(debug["file"].as_str(), Some("~/.config/iswitch/iswitch.log"));
}

#[test]
fn default_file_text() {
    assert_eq!(
        DEFAULT_CONFIG_TOML,
        r#"[app]
# Terminal = "com.apple.keylayout.ABC"

[debug]
enabled = false
level = "info"
file = "~/.config/iswitch/iswitch.log"
"#
    );
}
