//! The configuration: what it holds, how missing parts are filled in, and what a
//! reload changes.

use vstd::prelude::*;
use vstd::std_specs::cmp::PartialEqSpec;
use vstd::utf8::is_ascii_chars;
use crate::level::{ascii_small, level_named, level_of_name, lowercase, LevelFilter};
use crate::paths::{default_log_path, log_file, Environment, EnvironmentView};
use crate::rules::Rules;
use crate::text::opt_text;

verus! {

/// What is logged, and where to.
#[derive(Debug)]
pub struct DebugConfig {
    pub enabled: bool,
    pub level: String,
    pub file: String,
}

/// The contents of a [`DebugConfig`].
pub struct DebugView {
    pub enabled: bool,
    pub level: Seq<char>,
    pub file: Seq<char>,
}

impl View for DebugConfig {
    type V = DebugView;

    open spec fn view(&self) -> DebugView {
        DebugView { enabled: self.enabled, level: self.level@, file: self.file@ }
    }
}

/// The configuration of the program.
#[derive(Debug)]
pub struct AppConfig {
    pub app: Rules,
    pub debug: DebugConfig,
}

/// The contents of an [`AppConfig`].
pub struct ConfigView {
    pub app: Map<Seq<char>, Seq<char>>,
    pub debug: DebugView,
}

impl View for AppConfig {
    type V = ConfigView;

    open spec fn view(&self) -> ConfigView {
        ConfigView { app: self.app@, debug: self.debug@ }
    }
}

/// The logging section of a configuration file, with what it leaves out.
#[derive(Debug)]
pub struct DebugSection {
    pub enabled: Option<bool>,
    pub level: Option<String>,
    pub file: Option<String>,
}

/// The contents of a [`DebugSection`].
pub struct DebugSectionView {
    pub enabled: Option<bool>,
    pub level: Option<Seq<char>>,
    pub file: Option<Seq<char>>,
}

impl View for DebugSection {
    type V = DebugSectionView;

    open spec fn view(&self) -> DebugSectionView {
        DebugSectionView {
            enabled: self.enabled,
            level: opt_text(self.level),
            file: opt_text(self.file),
        }
    }
}

/// A configuration file as it was read, with what it leaves out.
#[derive(Debug)]
pub struct ConfigFile {
    pub app: Option<Rules>,
    pub debug: Option<DebugSection>,
}

/// The contents of a [`ConfigFile`].
pub struct ConfigFileView {
    pub app: Option<Map<Seq<char>, Seq<char>>>,
    pub debug: Option<DebugSectionView>,
}

impl View for ConfigFile {
    type V = ConfigFileView;

    open spec fn view(&self) -> ConfigFileView {
        ConfigFileView {
            app: match self.app {
                Some(rules) => Some(rules@),
                None => None,
            },
            debug: match self.debug {
                Some(section) => Some(section@),
                None => None,
            },
        }
    }
}

/// The logging settings where a configuration gives none.
pub open spec fn default_debug(env: EnvironmentView) -> DebugView {
    DebugView { enabled: false, level: "info"@, file: log_file(env) }
}

/// The configuration where there is none: no rules, logging as by default.
pub open spec fn default_config(env: EnvironmentView) -> ConfigView {
    ConfigView { app: Map::empty(), debug: default_debug(env) }
}

/// A logging section with its missing parts filled in.
pub open spec fn filled_debug(section: DebugSectionView, env: EnvironmentView) -> DebugView {
    let fallback = default_debug(env);
    DebugView {
        enabled: match section.enabled {
            Some(enabled) => enabled,
            None => fallback.enabled,
        },
        level: match section.level {
            Some(level) => level,
            None => fallback.level,
        },
        file: match section.file {
            Some(file) => file,
            None => fallback.file,
        },
    }
}

/// A configuration file with its missing parts filled in.
pub open spec fn filled_config(file: ConfigFileView, env: EnvironmentView) -> ConfigView {
    ConfigView {
        app: match file.app {
            Some(rules) => rules,
            None => Map::empty(),
        },
        debug: match file.debug {
            Some(section) => filled_debug(section, env),
            None => default_debug(env),
        },
    }
}

/// `config` as it is used under development: everything is logged.
pub open spec fn with_dev_mode(config: ConfigView, dev: bool) -> ConfigView {
    if dev {
        ConfigView {
            app: config.app,
            debug: DebugView { enabled: true, level: "trace"@, file: config.debug.file },
        }
    } else {
        config
    }
}

impl DebugConfig {
    /// The level where the configuration names none.
    pub fn default_level() -> (level: String)
        ensures
            level@ == "info"@,
    {
        "info".to_owned()
    }

    /// The log file where the configuration names none.
    pub fn default_file(env: &Environment) -> (file: String)
        ensures
            file@ == log_file(env@),
    {
        default_log_path(env)
    }

    /// The logging settings where the configuration gives none.
    pub fn default(env: &Environment) -> (debug: DebugConfig)
        ensures
            debug@ == default_debug(env@),
    {
        DebugConfig {
            enabled: false,
            level: Self::default_level(),
            file: Self::default_file(env),
        }
    }

    /// The level that the setting names, in letters of either case; `Info` where
    /// it names none.
    pub fn as_level_filter(&self) -> (level: LevelFilter)
        ensures
            level == level_named(lowercase(self@.level)),
            is_ascii_chars(self@.level) ==> level == level_named(ascii_small(self@.level)),
    {
        level_of_name(self.level.as_str())
    }

    /// A logging section with its missing parts filled in.
    fn filled(section: DebugSection, env: &Environment) -> (debug: DebugConfig)
        ensures
            debug@ == filled_debug(section@, env@),
    {
        DebugConfig {
            enabled: match section.enabled {
                Some(enabled) => enabled,
                None => false,
            },
            level: match section.level {
                Some(level) => level,
                None => Self::default_level(),
            },
            file: match section.file {
                Some(file) => file,
                None => Self::default_file(env),
            },
        }
    }
}

impl PartialEq for DebugConfig {
    fn eq(&self, other: &DebugConfig) -> (same: bool) {
        self.enabled == other.enabled && self.level == other.level && self.file == other.file
    }
}

impl vstd::std_specs::cmp::PartialEqSpecImpl for DebugConfig {
    open spec fn obeys_eq_spec() -> bool {
        true
    }

    open spec fn eq_spec(&self, other: &DebugConfig) -> bool {
        self@ == other@
    }
}

/// What a reload of the configuration changed.
#[derive(Debug, Clone, Copy, PartialEq, Eq, Structural)]
pub enum Reload {
    /// Nothing.
    Unchanged,
    /// Something; with `logging`, what is logged or where to.
    Changed { logging: bool },
}

/// What a reload changes that finds `new` where there was `old`.
pub open spec fn reload_outcome(old_config: ConfigView, new: ConfigView) -> Reload {
    if old_config == new {
        Reload::Unchanged
    } else {
        Reload::Changed { logging: old_config.debug != new.debug }
    }
}

impl AppConfig {
    /// The configuration where there is none.
    pub fn default(env: &Environment) -> (config: AppConfig)
        ensures
            config@ == default_config(env@),
    {
        AppConfig { app: Rules::new(), debug: DebugConfig::default(env) }
    }

    /// A configuration file with its missing parts filled in.
    pub fn filled(file: ConfigFile, env: &Environment) -> (config: AppConfig)
        ensures
            config@ == filled_config(file@, env@),
    {
        AppConfig {
            app: match file.app {
                Some(rules) => rules,
                None => Rules::new(),
            },
            debug: match file.debug {
                Some(section) => DebugConfig::filled(section, env),
                None => DebugConfig::default(env),
            },
        }
    }

    /// Under development everything is logged, whatever the configuration says.
    pub fn apply_dev_mode(&mut self, dev: bool)
        ensures
            final(self)@ == with_dev_mode(old(self)@, dev),
    {
        if dev {
            self.debug.enabled = true;
            self.debug.level = "trace".to_owned();
        }
    }

    /// Takes over `new`, and says what that changed. An equal configuration is
    /// not taken over.
    pub fn reload(&mut self, new: AppConfig) -> (outcome: Reload)
        ensures
            final(self)@ == new@,
            outcome == reload_outcome(old(self)@, new@),
            outcome is Unchanged ==> *final(self) == *old(self),
            outcome is Changed ==> *final(self) == new,
    {
        if *self == new {
            return Reload::Unchanged;
        }
        let logging: bool = self.debug != new.debug;
        *self = new;
        Reload::Changed { logging }
    }
}

impl PartialEq for AppConfig {
    fn eq(&self, other: &AppConfig) -> (same: bool) {
        self.app == other.app && self.debug == other.debug
    }
}

impl vstd::std_specs::cmp::PartialEqSpecImpl for AppConfig {
    open spec fn obeys_eq_spec() -> bool {
        true
    }

    open spec fn eq_spec(&self, other: &AppConfig) -> bool {
        self@ == other@
    }
}

/// A configuration file that leaves everything out, or whose logging section
/// does, is the default configuration.
pub proof fn law_nothing_said_is_the_default(env: EnvironmentView)
    ensures
        filled_config(ConfigFileView { app: None, debug: None }, env) == default_config(env),
        filled_debug(DebugSectionView { enabled: None, level: None, file: None }, env)
            == default_debug(env),
{
}

/// A second reload of the same configuration changes nothing, and a reload that
/// changes only rules leaves logging alone.
pub proof fn law_reload_changes_what_differs(old_config: ConfigView, new: ConfigView)
    ensures
        reload_outcome(new, new) is Unchanged,
        old_config.debug == new.debug && old_config.app != new.app ==> reload_outcome(
            old_config,
            new,
        ) == (Reload::Changed { logging: false }),
        old_config.debug != new.debug ==> reload_outcome(old_config, new) == (Reload::Changed {
            logging: true,
        }),
{
}

/// Development mode logs everything, keeps the rules and the log file, and is
/// the same applied twice.
pub proof fn law_dev_mode_logs_everything(config: ConfigView)
    ensures
        with_dev_mode(config, true).debug.enabled,
        level_named(ascii_small(with_dev_mode(config, true).debug.level)) == LevelFilter::Trace,
        with_dev_mode(config, true).app == config.app,
        with_dev_mode(config, true).debug.file == config.debug.file,
        with_dev_mode(with_dev_mode(config, true), true) == with_dev_mode(config, true),
{
    reveal_strlit("trace");
    assert(ascii_small("trace"@) =~= "trace"@);
}

/// What a configuration file says is kept: its rules whatever it says of logging, and
/// each logging setting whatever it says else. What it leaves out is as by default: no
/// rules, no logging to a file, `info`, and the default log file.
pub proof fn law_what_a_file_says_is_kept(file: ConfigFile, env: Environment, config: AppConfig)
    requires
        call_ensures(AppConfig::filled, (file, &env), config),
    ensures
        file.app matches Some(rules) ==> config.app@ == rules@,
        file.app is None ==> config.app@ == Map::<Seq<char>, Seq<char>>::empty(),
        file.debug matches Some(section) ==> {
            &&& section.enabled matches Some(enabled) ==> config.debug.enabled == enabled
            &&& section.enabled is None ==> !config.debug.enabled
            &&& section.level matches Some(level) ==> config.debug.level@ == level@
            &&& section.level is None ==> config.debug.level@ == "info"@
            &&& section.file matches Some(path) ==> config.debug.file@ == path@
            &&& section.file is None ==> config.debug.file@ == log_file(env@)
        },
        file.debug is None ==> {
            &&& !config.debug.enabled
            &&& config.debug.level@ == "info"@
            &&& config.debug.file@ == log_file(env@)
        },
{
}

/// The default configuration has no rules and logs to no file; its level is `info` and
/// its log file the default one.
pub proof fn law_the_default_is_silent(env: Environment, config: AppConfig, debug: DebugConfig)
    requires
        call_ensures(AppConfig::default, (&env,), config),
        call_ensures(DebugConfig::default, (&env,), debug),
    ensures
        config.app@ == Map::<Seq<char>, Seq<char>>::empty(),
        config.debug.enabled == false,
        config.debug.level@ == "info"@,
        config.debug.file@ == log_file(env@),
        debug.enabled == false,
        debug.level@ == "info"@,
        debug.file@ == log_file(env@),
{
}

/// Without development mode a configuration stays as it is. With it, logging is on and
/// its level `trace`, and the rules and the log file stay as they are.
pub proof fn law_dev_mode_touches_only_logging(before: AppConfig, dev: bool, after: AppConfig)
    requires
        after@ == with_dev_mode(before@, dev),
    ensures
        after.app@ == before.app@,
        after.debug.file@ == before.debug.file@,
        !dev ==> after.debug.enabled == before.debug.enabled,
        !dev ==> after.debug.level@ == before.debug.level@,
        dev ==> after.debug.enabled,
        dev ==> after.debug.level@ == "trace"@,
{
}

/// A reload changes nothing exactly where rules and logging settings are all the same,
/// and it changes logging exactly where one of the logging settings differs.
pub proof fn law_a_reload_compares_every_setting(
    before: AppConfig,
    new: AppConfig,
    after: AppConfig,
    outcome: Reload,
)
    requires
        after@ == new@,
        outcome == reload_outcome(before@, new@),
    ensures
        after.app@ == new.app@,
        after.debug.enabled == new.debug.enabled,
        after.debug.level@ == new.debug.level@,
        after.debug.file@ == new.debug.file@,
        outcome is Unchanged <==> before.app@ == new.app@ && before.debug.enabled
            == new.debug.enabled && before.debug.level@ == new.debug.level@ && before.debug.file@
            == new.debug.file@,
        outcome == (Reload::Changed { logging: true }) <==> before.debug.enabled
            != new.debug.enabled || before.debug.level@ != new.debug.level@ || before.debug.file@
            != new.debug.file@,
{
}

/// What the contents of a configuration say is what stands in it.
pub proof fn law_contents_are_what_stands_there(config: AppConfig)
    ensures
        config@.app == config.app@,
        config@.debug == config.debug@,
        config.debug@.enabled == config.debug.enabled,
        config.debug@.level == config.debug.level@,
        config.debug@.file == config.debug.file@,
{
}

/// Two configurations are equal exactly where they have the same rules and the same
/// logging settings.
pub proof fn law_equal_configurations(a: AppConfig, b: AppConfig)
    ensures
        a.app.eq_spec(&b.app) <==> a.app@ == b.app@,
        a.debug.eq_spec(&b.debug) <==> a.debug.enabled == b.debug.enabled && a.debug.level@
            == b.debug.level@ && a.debug.file@ == b.debug.file@,
        a.eq_spec(&b) <==> a.app@ == b.app@ && a.debug.enabled == b.debug.enabled
            && a.debug.level@ == b.debug.level@ && a.debug.file@ == b.debug.file@,
{
}

} // verus!
