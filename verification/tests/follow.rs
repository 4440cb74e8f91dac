use iswitch::config::{AppConfig, DebugConfig};
use iswitch::follow::{
    application_name, desired_input_source, next_activation_action, ActivationAction,
    ActivationEvent,
};
use iswitch::paths::Environment;
use iswitch::rules::Rules;

fn environment() -> Environment {
    Environment { xdg_config_home: None, home: None }
}

fn with_rule(name: &str, source: &str) -> AppConfig {
    let mut rules = Rules::new();
    rules.insert(name.to_string(), source.to_string());
    AppConfig { app: rules, debug: DebugConfig::default(&environment()) }
}

#[test]
fn a_rule_is_followed() {
    let config = with_rule("Terminal", "com.apple.keylayout.ABC");
    assert_eq!(
        desired_input_source("Terminal", &config, "com.apple.inputmethod.TCIM.Pinyin"),
        Some("com.apple.keylayout.ABC")
    );
}

#[test]
fn no_rule_no_switch() {
    let config = with_rule("Terminal", "com.apple.keylayout.ABC");
    assert_eq!(desired_input_source("Safari", &config, "Unknown"), None);
    assert_eq!(desired_input_source("terminal", &config, "Unknown"), None);
    let empty = AppConfig::default(&environment());
    assert_eq!(desired_input_source("Terminal", &empty, "Unknown"), None);
}

#[test]
fn a_selected_source_is_not_selected_again() {
    let config = with_rule("Terminal", "keylayout.ABC");
    assert_eq!(desired_input_source("Terminal", &config, "keylayout.ABC"), None);
    assert_eq!(desired_input_source("Terminal", &config, "com.apple.keylayout.ABC"), None);
    assert_eq!(desired_input_source("Terminal", &config, "keylayout.AB"), Some("keylayout.ABC"));
}

#[test]
fn an_empty_source_is_never_wanted() {
    let config = with_rule("Terminal", "");
    assert_eq!(desired_input_source("Terminal", &config, "com.apple.keylayout.ABC"), None);
    assert_eq!(desired_input_source("Terminal", &config, ""), None);
}

#[test]
fn names_beyond_ascii() {
    let config = with_rule("メモ", "入力ソース");
    assert_eq!(desired_input_source("メモ", &config, "別の入力"), Some("入力ソース"));
    assert_eq!(desired_input_source("メモ", &config, "別の入力ソースです"), None);
}

#[test]
fn application_names_are_decoded() {
    assert_eq!(application_name(None), None);
    assert_eq!(application_name(Some(b"Terminal")), Some("Terminal".to_string()));
    assert_eq!(application_name(Some("メモ".as_bytes())), Some("メモ".to_string()));
    assert_eq!(application_name(Some(&[0x41, 0xff, 0x42])), Some("A\u{fffd}B".to_string()));
}

#[test]
fn an_activation_reads_what_is_selected() {
    let config = with_rule("Mail", "a");
    match next_activation_action(&config, ActivationEvent::Activated(Some("Mail".to_string()))) {
        ActivationAction::ReadCurrent(name) => assert_eq!(name, "Mail"),
        other => panic!("{:?}", other),
    }
    match next_activation_action(&config, ActivationEvent::Activated(None)) {
        ActivationAction::Warn(message) => {
            assert_eq!(message, "Could not read application name from notification")
        }
        other => panic!("{:?}", other),
    }
}

#[test]
fn an_activation_switches_where_the_rule_asks_for_it() {
    let config = with_rule("Mail", "a");
    let current = |name: &str, id: &str| ActivationEvent::Current {
        name: name.to_string(),
        id: id.to_string(),
    };
    match next_activation_action(&config, current("Mail", "b")) {
        ActivationAction::SwitchTo { name, target } => {
            assert_eq!(name, "Mail");
            assert_eq!(target, "a");
        }
        other => panic!("{:?}", other),
    }
    assert!(matches!(next_activation_action(&config, current("Mail", "a")), ActivationAction::Stay));
    assert!(matches!(next_activation_action(&config, current("Notes", "b")), ActivationAction::Stay));
}
