use iswitch::paths::{config_path, default_log_path, parent, Environment};

fn environment(xdg: Option<&str>, home: Option<&str>) -> Environment {
    Environment {
        xdg_config_home: xdg.map(|s| s.to_string()),
        home: home.map(|s| s.to_string()),
    }
}

#[test]
fn configuration_file_in_xdg_config_home() {
    assert_eq!(
        config_path(&environment(Some("/xdg"), Some("/home/ann"))),
        "/xdg/iswitch/config.toml"
    );
}

#[test]
fn configuration_file_in_the_home_directory() {
    assert_eq!(
        config_path(&environment(None, Some("/home/ann"))),
        "/home/ann/.config/iswitch/config.toml"
    );
    assert_eq!(config_path(&environment(None, Some("/"))), "/.config/iswitch/config.toml");
    assert_eq!(config_path(&environment(None, Some(""))), ".config/iswitch/config.toml");
}

#[test]
fn configuration_file_in_the_current_directory() {
    assert_eq!(config_path(&environment(None, None)), "./iswitch/config.toml");
}

#[test]
fn separators_are_not_doubled_in_the_configuration_path() {
    assert_eq!(config_path(&environment(Some("/xdg/"), None)), "/xdg/iswitch/config.toml");
    assert_eq!(config_path(&environment(Some(""), None)), "iswitch/config.toml");
}

#[test]
fn configuration_path_is_what_joining_paths_gives() {
    for base in ["/xdg", "/xdg/", "", "x", "/", "x/y//", "é"] {
        let joined = std::path::PathBuf::from(base).join("iswitch/config.toml");
        assert_eq!(config_path(&environment(Some(base), None)), joined.to_str().unwrap());
        let home = std::path::PathBuf::from(base).join(".config").join("iswitch/config.toml");
        assert_eq!(config_path(&environment(None, Some(base))), home.to_str().unwrap());
    }
}

#[test]
fn log_file_paths() {
    assert_eq!(
        default_log_path(&environment(Some("/xdg"), Some("/home/ann"))),
        "/xdg/iswitch/iswitch.log"
    );
    assert_eq!(
        default_log_path(&environment(None, Some("/home/ann"))),
        "/home/ann/.config/iswitch/iswitch.log"
    );
    assert_eq!(default_log_path(&environment(None, None)), "./iswitch/iswitch.log");
    assert_eq!(default_log_path(&environment(Some("/xdg/"), None)), "/xdg//iswitch/iswitch.log");
    assert_eq!(default_log_path(&environment(Some(""), None)), "/iswitch/iswitch.log");
}

#[test]
fn directories_of_paths() {
    assert_eq!(parent("/a/b.log").as_deref(), Some("/a"));
    assert_eq!(parent("/b.log").as_deref(), Some("/"));
    assert_eq!(parent("b.log").as_deref(), Some(""));
    assert_eq!(parent("./b.log").as_deref(), Some("."));
    assert_eq!(parent("a//b/./").as_deref(), Some("a"));
    assert_eq!(parent("/"), None);
    assert_eq!(parent(""), None);
    assert_eq!(
        parent(&config_path(&environment(Some("/xdg/"), None))).as_deref(),
        Some("/xdg/iswitch")
    );
}

#[test]
fn directories_are_those_of_std() {
    let pieces = ["", "/", ".", "..", "a", "é.b", "//", "/.", "./", ".a"];
    for a in pieces {
        for b in pieces {
            for c in pieces {
                for d in pieces {
                    let path = format!("{}{}{}{}", a, b, c, d);
                    let expected = std::path::Path::new(&path).parent();
                    let expected = expected.map(|dir| dir.to_str().unwrap().to_string());
                    assert_eq!(parent(&path), expected, "{:?}", path);
                }
            }
        }
    }
}
