//! Loading the configuration file: what to do next, by what came of the last
//! step.
//!
//! A load begins with [`LoadEvent::Checked`]. Each action is carried out by the
//! program, which then reports what came of it as the next event, until the
//! action is [`LoadAction::Finish`].

use vstd::prelude::*;
use crate::config::{
    default_config, filled_config, AppConfig, ConfigFile, ConfigFileView, ConfigView,
};
use crate::paths::{log_file, parent, parent_dir, Environment, EnvironmentView};
use crate::text::opt_text;

verus! {

/// The configuration file that is written where there is none.
pub const DEFAULT_CONFIG_TOML: &'static str =
    "[app]\n# Terminal = \"com.apple.keylayout.ABC\"\n\n[debug]\nenabled = false\nlevel = \"info\"\nfile = \"~/.config/iswitch/iswitch.log\"\n";

/// What came of the last step of a load.
#[derive(Debug)]
pub enum LoadEvent {
    /// Whether the file exists.
    Checked { exists: bool },
    /// The directory was created, or could not be.
    ParentMade,
    /// The file was written, or could not be.
    Written,
    /// The text of the file; `None` where it could not be read.
    Read(Option<String>),
    /// What the text says; `None` where it is no configuration.
    Parsed(Option<ConfigFile>),
}

/// The contents of a [`LoadEvent`].
pub enum LoadEventView {
    Checked { exists: bool },
    ParentMade,
    Written,
    Read(Option<Seq<char>>),
    Parsed(Option<ConfigFileView>),
}

impl View for LoadEvent {
    type V = LoadEventView;

    open spec fn view(&self) -> LoadEventView {
        match self {
            LoadEvent::Checked { exists } => LoadEventView::Checked { exists: *exists },
            LoadEvent::ParentMade => LoadEventView::ParentMade,
            LoadEvent::Written => LoadEventView::Written,
            LoadEvent::Read(text) => LoadEventView::Read(opt_text(*text)),
            LoadEvent::Parsed(file) => LoadEventView::Parsed(
                match file {
                    Some(contents) => Some(contents@),
                    None => None,
                },
            ),
        }
    }
}

/// The next step of a load.
#[derive(Debug)]
pub enum LoadAction {
    /// Create this directory, and what it lies in.
    MakeParent(String),
    /// Write this text to the file.
    Write(String),
    /// Read the file.
    Read,
    /// Take this text for a configuration.
    Parse(String),
    /// Use this configuration.
    Finish(AppConfig),
}

/// The contents of a [`LoadAction`].
pub enum LoadActionView {
    MakeParent(Seq<char>),
    Write(Seq<char>),
    Read,
    Parse(Seq<char>),
    Finish(ConfigView),
}

impl View for LoadAction {
    type V = LoadActionView;

    open spec fn view(&self) -> LoadActionView {
        match self {
            LoadAction::MakeParent(dir) => LoadActionView::MakeParent(dir@),
            LoadAction::Write(text) => LoadActionView::Write(text@),
            LoadAction::Read => LoadActionView::Read,
            LoadAction::Parse(text) => LoadActionView::Parse(text@),
            LoadAction::Finish(config) => LoadActionView::Finish(config@),
        }
    }
}

/// What to do after `event`, the file being the one at `path`: a missing file is
/// written first, in its directory, made for it; then the file is read and taken for
/// a configuration, and where either fails the default configuration is used.
pub open spec fn load_action(
    path: Seq<char>,
    event: LoadEventView,
    env: EnvironmentView,
) -> LoadActionView {
    match event {
        LoadEventView::Checked { exists } => if exists {
            LoadActionView::Read
        } else {
            match parent_dir(path) {
                Some(dir) => LoadActionView::MakeParent(dir),
                None => LoadActionView::Write(DEFAULT_CONFIG_TOML@),
            }
        },
        LoadEventView::ParentMade => LoadActionView::Write(DEFAULT_CONFIG_TOML@),
        LoadEventView::Written => LoadActionView::Read,
        LoadEventView::Read(Some(text)) => LoadActionView::Parse(text),
        LoadEventView::Read(None) => LoadActionView::Finish(default_config(env)),
        LoadEventView::Parsed(Some(file)) => LoadActionView::Finish(filled_config(file, env)),
        LoadEventView::Parsed(None) => LoadActionView::Finish(default_config(env)),
    }
}

/// What to do after `event`, the file being the one at `path`.
pub fn next_load_action(path: &str, event: LoadEvent, env: &Environment) -> (action: LoadAction)
    ensures
        action@ == load_action(path@, event@, env@),
{
    match event {
        LoadEvent::Checked { exists } => {
            if exists {
                return LoadAction::Read;
            }
            match parent(path) {
                Some(dir) => LoadAction::MakeParent(dir),
                None => LoadAction::Write(DEFAULT_CONFIG_TOML.to_owned()),
            }
        },
        LoadEvent::ParentMade => LoadAction::Write(DEFAULT_CONFIG_TOML.to_owned()),
        LoadEvent::Written => LoadAction::Read,
        LoadEvent::Read(Some(text)) => LoadAction::Parse(text),
        LoadEvent::Read(None) => LoadAction::Finish(AppConfig::default(env)),
        LoadEvent::Parsed(Some(file)) => LoadAction::Finish(AppConfig::filled(file, env)),
        LoadEvent::Parsed(None) => LoadAction::Finish(AppConfig::default(env)),
    }
}

/// What the steps of a load meet: the path, whether a file is there, what reading
/// it gives, and what that says.
pub struct LoadWorld {
    pub path: Seq<char>,
    pub exists: bool,
    pub text: Option<Seq<char>>,
    pub contents: Option<ConfigFileView>,
}

/// The event that reports on `action`. Nothing reports on the end of a load; what
/// stands for it is never looked at.
pub open spec fn load_report(world: LoadWorld, action: LoadActionView) -> LoadEventView {
    match action {
        LoadActionView::MakeParent(_) => LoadEventView::ParentMade,
        LoadActionView::Write(_) => LoadEventView::Written,
        LoadActionView::Read => LoadEventView::Read(world.text),
        LoadActionView::Parse(_) => LoadEventView::Parsed(world.contents),
        LoadActionView::Finish(_) => LoadEventView::Parsed(None),
    }
}

/// The first `steps` actions of a load from `event` on, up to the last.
pub open spec fn load_run(
    world: LoadWorld,
    event: LoadEventView,
    env: EnvironmentView,
    steps: nat,
) -> Seq<LoadActionView>
    decreases steps,
{
    if steps == 0 {
        Seq::empty()
    } else {
        let action = load_action(world.path, event, env);
        if action is Finish {
            seq![action]
        } else {
            seq![action] + load_run(world, load_report(world, action), env, (steps - 1) as nat)
        }
    }
}

/// Every load ends: five steps are enough, and a longer run is no different.
/// It ends with what the file says, its missing parts filled in, where the file
/// can be read and is a configuration, and with the default elsewhere.
pub proof fn law_a_load_ends(world: LoadWorld, env: EnvironmentView, steps: nat)
    requires
        steps >= 5,
    ensures
        ({
            let begin = LoadEventView::Checked { exists: world.exists };
            let run = load_run(world, begin, env, steps);
            &&& 2 <= run.len() <= 5
            &&& run == load_run(world, begin, env, 5)
            &&& run.last() == LoadActionView::Finish(
                if world.text is Some && world.contents is Some {
                    filled_config(world.contents->0, env)
                } else {
                    default_config(env)
                },
            )
        }),
{
    let begin = LoadEventView::Checked { exists: world.exists };
    reveal_with_fuel(load_run, 6);
    assert(load_run(world, begin, env, steps) =~= load_run(world, begin, env, 5));
}

/// Where the file exists, neither it nor a directory is written. Where it does not,
/// it is written once, with the default text, and before it is read; its directory is
/// made first, and no other, exactly where its path has one.
pub proof fn law_only_a_missing_file_is_written(world: LoadWorld, env: EnvironmentView)
    ensures
        ({
            let begin = LoadEventView::Checked { exists: world.exists };
            let run = load_run(world, begin, env, 5);
            if world.exists {
                forall|i: int|
                    0 <= i < run.len() ==> !(#[trigger] run[i] is Write) && !(run[i] is MakeParent)
            } else {
                exists|w: int|
                    {
                        &&& 0 <= w < run.len()
                        &&& #[trigger] run[w] == LoadActionView::Write(DEFAULT_CONFIG_TOML@)
                        &&& forall|i: int|
                            0 <= i < run.len() && i != w ==> !(#[trigger] run[i] is Write)
                        &&& forall|i: int| 0 <= i < w ==> !(#[trigger] run[i] is Read)
                        &&& w + 1 < run.len()
                        &&& run[w + 1] is Read
                        &&& match parent_dir(world.path) {
                            Some(dir) => w == 1 && run[0] == LoadActionView::MakeParent(dir),
                            None => w == 0,
                        }
                        &&& forall|i: int|
                            0 < i < run.len() ==> !(#[trigger] run[i] is MakeParent)
                    }
            }
        }),
{
    let begin = LoadEventView::Checked { exists: world.exists };
    reveal_with_fuel(load_run, 6);
    let run = load_run(world, begin, env, 5);
    if !world.exists {
        let w: int = if parent_dir(world.path) is Some {
            1
        } else {
            0
        };
        assert(run[w] == LoadActionView::Write(DEFAULT_CONFIG_TOML@));
        assert(run[w + 1] is Read);
    }
}

/// A file that exists is read; one that does not is written, with the default text and
/// in its directory, which is made first where the path has one.
pub proof fn law_a_missing_file_is_made(
    path: &str,
    exists: bool,
    env: Environment,
    checked: LoadAction,
    made: LoadAction,
    written: LoadAction,
)
    requires
        call_ensures(next_load_action, (path, LoadEvent::Checked { exists }, &env), checked),
        call_ensures(next_load_action, (path, LoadEvent::ParentMade, &env), made),
        call_ensures(next_load_action, (path, LoadEvent::Written, &env), written),
    ensures
        exists ==> checked is Read,
        !exists ==> match parent_dir(path@) {
            Some(dir) => checked matches LoadAction::MakeParent(d) && d@ == dir,
            None => checked matches LoadAction::Write(text) && text@ == DEFAULT_CONFIG_TOML@,
        },
        made matches LoadAction::Write(text) && text@ == DEFAULT_CONFIG_TOML@,
        written is Read,
        DEFAULT_CONFIG_TOML@
            == "[app]\n# Terminal = \"com.apple.keylayout.ABC\"\n\n[debug]\nenabled = false\nlevel = \"info\"\nfile = \"~/.config/iswitch/iswitch.log\"\n"@,
{
}

/// What was read is taken for a configuration as it is. Where nothing could be read,
/// the configuration has no rules and logs to no file.
pub proof fn law_what_was_read_is_parsed(
    path: &str,
    text: Option<String>,
    env: Environment,
    action: LoadAction,
)
    requires
        call_ensures(next_load_action, (path, LoadEvent::Read(text), &env), action),
    ensures
        text matches Some(t) ==> (action matches LoadAction::Parse(p) && p@ == t@),
        text is None ==> {
            &&& action matches LoadAction::Finish(config)
            &&& config.app@ == Map::<Seq<char>, Seq<char>>::empty()
            &&& !config.debug.enabled
            &&& config.debug.level@ == "info"@
            &&& config.debug.file@ == log_file(env@)
        },
{
}

/// A load that read a configuration ends with its rules and its logging settings. One
/// that read none ends without rules and without logging to a file.
pub proof fn law_what_was_parsed_is_used(
    path: &str,
    file: Option<ConfigFile>,
    env: Environment,
    action: LoadAction,
)
    requires
        call_ensures(next_load_action, (path, LoadEvent::Parsed(file), &env), action),
    ensures
        action is Finish,
        action matches LoadAction::Finish(config) ==> {
            &&& file is None || file->0.app is None ==> config.app@
                == Map::<Seq<char>, Seq<char>>::empty()
            &&& file is Some && file->0.app is Some ==> config.app@ == file->0.app->0@
            &&& config.debug.enabled == (file is Some && file->0.debug is Some
                && file->0.debug->0.enabled == Some(true))
            &&& config.debug.level@ == (if file is Some && file->0.debug is Some
                && file->0.debug->0.level is Some {
                file->0.debug->0.level->0@
            } else {
                "info"@
            })
            &&& config.debug.file@ == (if file is Some && file->0.debug is Some
                && file->0.debug->0.file is Some {
                file->0.debug->0.file->0@
            } else {
                log_file(env@)
            })
        },
{
}

} // verus!
