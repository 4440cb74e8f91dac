//! Setting up the log, and its lines.
//!
//! Setting up begins with [`SetupEvent::Begin`]. Each action is carried out by the
//! program, which then reports what came of it as the next event, until the
//! action is [`SetupAction::Apply`].

use vstd::prelude::*;
use vstd::utf8::is_ascii_chars;
use crate::clock::{timestamp_text, Civil, LocalTime};
use crate::config::{AppConfig, ConfigView};
use crate::level::{ascii_small, level_named, lowercase, LevelFilter};
use crate::paths::{parent, parent_dir};
use crate::text::{opt_str, opt_text, replace_char, replaced};

verus! {

/// What is logged, and to which file beside the standard output.
#[derive(Debug)]
pub struct LoggingPlan {
    pub level: LevelFilter,
    pub file: Option<String>,
}

/// The contents of a [`LoggingPlan`].
pub struct LoggingPlanView {
    pub level: LevelFilter,
    pub file: Option<Seq<char>>,
}

impl View for LoggingPlan {
    type V = LoggingPlanView;

    open spec fn view(&self) -> LoggingPlanView {
        LoggingPlanView { level: self.level, file: opt_text(self.file) }
    }
}

/// What `config` asks to be logged, its level being `level`. Without logging to a
/// file, that is the standard output at `Info`. In the file's path every tilde
/// stands for the home directory, and for nothing where there is none.
pub open spec fn planned_logging(
    config: ConfigView,
    level: LevelFilter,
    home: Option<Seq<char>>,
) -> LoggingPlanView {
    if config.debug.enabled {
        LoggingPlanView {
            level,
            file: Some(
                replaced(
                    config.debug.file,
                    '~',
                    match home {
                        Some(dir) => dir,
                        None => Seq::empty(),
                    },
                ),
            ),
        }
    } else {
        LoggingPlanView { level: LevelFilter::Info, file: None }
    }
}

/// What `config` asks to be logged, its level being `level`.
pub fn logging_plan_at(config: &AppConfig, level: LevelFilter, home: Option<&str>) -> (plan:
    LoggingPlan)
    ensures
        plan@ == planned_logging(config@, level, opt_str(home)),
{
    if !config.debug.enabled {
        return LoggingPlan { level: LevelFilter::Info, file: None };
    }
    let dir: &str = match home {
        Some(dir) => dir,
        None => "",
    };
    proof {
        reveal_strlit("");
        assert(home is None ==> dir@ =~= Seq::<char>::empty());
    }
    let file: String = replace_char(config.debug.file.as_str(), '~', dir);
    LoggingPlan { level, file: Some(file) }
}

/// What `config` asks to be logged.
pub fn logging_plan(config: &AppConfig, home: Option<&str>) -> (plan: LoggingPlan)
    ensures
        plan@ == planned_logging(
            config@,
            level_named(lowercase(config@.debug.level)),
            opt_str(home),
        ),
        is_ascii_chars(config@.debug.level) ==> plan@ == planned_logging(
            config@,
            level_named(ascii_small(config@.debug.level)),
            opt_str(home),
        ),
{
    logging_plan_at(config, config.debug.as_level_filter(), home)
}

/// What came of the last step of setting up.
#[derive(Debug)]
pub enum SetupEvent {
    /// Nothing was done yet.
    Begin,
    /// Whether the log file's directory exists.
    Inspected(bool),
    /// The directory was created; with a text, why it could not be.
    Created(Option<String>),
    /// The log file was opened; with a text, why it could not be.
    Opened(Option<String>),
}

/// The contents of a [`SetupEvent`].
pub enum SetupEventView {
    Begin,
    Inspected(bool),
    Created(Option<Seq<char>>),
    Opened(Option<Seq<char>>),
}

impl View for SetupEvent {
    type V = SetupEventView;

    open spec fn view(&self) -> SetupEventView {
        match self {
            SetupEvent::Begin => SetupEventView::Begin,
            SetupEvent::Inspected(exists) => SetupEventView::Inspected(*exists),
            SetupEvent::Created(failure) => SetupEventView::Created(opt_text(*failure)),
            SetupEvent::Opened(failure) => SetupEventView::Opened(opt_text(*failure)),
        }
    }
}

/// The next step of setting up.
#[derive(Debug)]
pub enum SetupAction {
    /// Look whether this directory exists.
    Inspect(String),
    /// Create this directory, and what it lies in.
    Create(String),
    /// Open this file.
    Open(String),
    /// Log to the standard output, and to the opened file as well if `to_file`.
    Apply { to_file: bool },
}

/// The contents of a [`SetupAction`].
pub enum SetupActionView {
    Inspect(Seq<char>),
    Create(Seq<char>),
    Open(Seq<char>),
    Apply { to_file: bool },
}

impl View for SetupAction {
    type V = SetupActionView;

    open spec fn view(&self) -> SetupActionView {
        match self {
            SetupAction::Inspect(dir) => SetupActionView::Inspect(dir@),
            SetupAction::Create(dir) => SetupActionView::Create(dir@),
            SetupAction::Open(file) => SetupActionView::Open(file@),
            SetupAction::Apply { to_file } => SetupActionView::Apply { to_file: *to_file },
        }
    }
}

/// The next step of setting up, and what to warn of before it.
#[derive(Debug)]
pub struct SetupStep {
    pub warning: Option<String>,
    pub action: SetupAction,
}

/// The contents of a [`SetupStep`].
pub struct SetupStepView {
    pub warning: Option<Seq<char>>,
    pub action: SetupActionView,
}

impl View for SetupStep {
    type V = SetupStepView;

    open spec fn view(&self) -> SetupStepView {
        SetupStepView { warning: opt_text(self.warning), action: self.action@ }
    }
}

/// What to do after `event`. The file's directory is created where it is missing. A
/// directory that cannot be created, or a file that cannot be opened, is warned of;
/// the second leaves the standard output alone.
pub open spec fn setup_step(plan: LoggingPlanView, event: SetupEventView) -> SetupStepView {
    match plan.file {
        None => SetupStepView { warning: None, action: SetupActionView::Apply { to_file: false } },
        Some(file) => match event {
            SetupEventView::Begin => SetupStepView {
                warning: None,
                action: match parent_dir(file) {
                    Some(dir) => SetupActionView::Inspect(dir),
                    None => SetupActionView::Open(file),
                },
            },
            SetupEventView::Inspected(exists) => SetupStepView {
                warning: None,
                action: match parent_dir(file) {
                    Some(dir) => if exists {
                        SetupActionView::Open(file)
                    } else {
                        SetupActionView::Create(dir)
                    },
                    None => SetupActionView::Open(file),
                },
            },
            SetupEventView::Created(failure) => SetupStepView {
                warning: match failure {
                    Some(reason) => Some("Cannot create log dir: "@ + reason),
                    None => None,
                },
                action: SetupActionView::Open(file),
            },
            SetupEventView::Opened(failure) => SetupStepView {
                warning: match failure {
                    Some(reason) => Some(
                        "Cannot open log file "@ + file + ": "@ + reason + " — stdout only"@,
                    ),
                    None => None,
                },
                action: SetupActionView::Apply { to_file: failure is None },
            },
        },
    }
}

/// What to do after `event`.
pub fn next_setup_step(plan: &LoggingPlan, event: &SetupEvent) -> (step: SetupStep)
    ensures
        step@ == setup_step(plan@, event@),
{
    let file: &String = match &plan.file {
        Some(file) => file,
        None => {
            return SetupStep { warning: None, action: SetupAction::Apply { to_file: false } };
        },
    };
    match event {
        SetupEvent::Begin => {
            let action: SetupAction = match parent(file.as_str()) {
                Some(dir) => SetupAction::Inspect(dir),
                None => SetupAction::Open(file.clone()),
            };
            SetupStep { warning: None, action }
        },
        SetupEvent::Inspected(exists) => {
            let action: SetupAction = match parent(file.as_str()) {
                Some(dir) => {
                    if *exists {
                        SetupAction::Open(file.clone())
                    } else {
                        SetupAction::Create(dir)
                    }
                },
                None => SetupAction::Open(file.clone()),
            };
            SetupStep { warning: None, action }
        },
        SetupEvent::Created(Some(reason)) => {
            let mut warning: String = "Cannot create log dir: ".to_owned();
            warning.append(reason.as_str());
            SetupStep { warning: Some(warning), action: SetupAction::Open(file.clone()) }
        },
        SetupEvent::Created(None) => SetupStep {
            warning: None,
            action: SetupAction::Open(file.clone()),
        },
        SetupEvent::Opened(Some(reason)) => {
            let mut warning: String = "Cannot open log file ".to_owned();
            warning.append(file.as_str());
            warning.append(": ");
            warning.append(reason.as_str());
            warning.append(" — stdout only");
            SetupStep { warning: Some(warning), action: SetupAction::Apply { to_file: false } }
        },
        SetupEvent::Opened(None) => SetupStep {
            warning: None,
            action: SetupAction::Apply { to_file: true },
        },
    }
}

/// A line of the log.
pub open spec fn line_text(
    time: Civil,
    level: Seq<char>,
    target: Seq<char>,
    message: Seq<char>,
) -> Seq<char> {
    timestamp_text(time) + " ["@ + level + "] ["@ + target + "] "@ + message
}

/// A line of the log: the time, the name of the message's level and the part of
/// the program that it comes from, both in brackets, and the message.
pub fn log_line(time: &LocalTime, level: &str, target: &str, message: &str) -> (line: String)
    ensures
        line@ == line_text(time@, level@, target@, message@),
{
    let mut line: String = time.timestamp();
    line.append(" [");
    line.append(level);
    line.append("] [");
    line.append(target);
    line.append("] ");
    line.append(message);
    line
}

/// What the steps of setting up meet.
pub struct SetupWorld {
    pub dir_exists: bool,
    pub create_failure: Option<Seq<char>>,
    pub open_failure: Option<Seq<char>>,
}

/// The event that reports on `action`. Nothing reports on the end of setting up;
/// what stands for it is never looked at.
pub open spec fn setup_report(world: SetupWorld, action: SetupActionView) -> SetupEventView {
    match action {
        SetupActionView::Inspect(_) => SetupEventView::Inspected(world.dir_exists),
        SetupActionView::Create(_) => SetupEventView::Created(world.create_failure),
        SetupActionView::Open(_) => SetupEventView::Opened(world.open_failure),
        SetupActionView::Apply { .. } => SetupEventView::Begin,
    }
}

/// The first `steps` steps of setting up from `event` on, up to the last.
pub open spec fn setup_run(
    world: SetupWorld,
    plan: LoggingPlanView,
    event: SetupEventView,
    steps: nat,
) -> Seq<SetupStepView>
    decreases steps,
{
    if steps == 0 {
        Seq::empty()
    } else {
        let step = setup_step(plan, event);
        if step.action is Apply {
            seq![step]
        } else {
            seq![step] + setup_run(
                world,
                plan,
                setup_report(world, step.action),
                (steps - 1) as nat,
            )
        }
    }
}

/// Setting up always ends with a log: four steps are enough, and a longer run is
/// no different. The standard output is always logged to, and the file exactly
/// where one is planned and could be opened, whatever came of its directory.
pub proof fn law_setting_up_ends_with_a_log(world: SetupWorld, plan: LoggingPlanView, steps: nat)
    requires
        steps >= 4,
    ensures
        ({
            let run = setup_run(world, plan, SetupEventView::Begin, steps);
            &&& 1 <= run.len() <= 4
            &&& run == setup_run(world, plan, SetupEventView::Begin, 4)
            &&& run.last().action == (SetupActionView::Apply {
                to_file: plan.file is Some && world.open_failure is None,
            })
        }),
{
    reveal_with_fuel(setup_run, 5);
    assert(setup_run(world, plan, SetupEventView::Begin, steps) =~= setup_run(
        world,
        plan,
        SetupEventView::Begin,
        4,
    ));
}

/// A directory is created exactly where a file is planned that has one and it is
/// missing, and then it is the file's; what is opened is the planned file. Nothing
/// is opened or created where no file is planned.
pub proof fn law_only_a_missing_directory_is_created(world: SetupWorld, plan: LoggingPlanView)
    ensures
        ({
            let run = setup_run(world, plan, SetupEventView::Begin, 4);
            &&& (exists|i: int|
                0 <= i < run.len() && (#[trigger] run[i]).action is Create) <==> plan.file is Some
                && parent_dir(plan.file->0) is Some && !world.dir_exists
            &&& forall|i: int|
                0 <= i < run.len() ==> ((#[trigger] run[i]).action matches SetupActionView::Create(
                    dir,
                ) ==> plan.file is Some && parent_dir(plan.file->0) == Some(dir))
            &&& (exists|i: int| 0 <= i < run.len() && (#[trigger] run[i]).action is Open)
                <==> plan.file is Some
            &&& forall|i: int|
                0 <= i < run.len() ==> ((#[trigger] run[i]).action matches SetupActionView::Open(
                    file,
                ) ==> plan.file == Some(file))
        }),
{
    reveal_with_fuel(setup_run, 5);
    let run = setup_run(world, plan, SetupEventView::Begin, 4);
    if plan.file is Some {
        if parent_dir(plan.file->0) is Some {
            assert(run[0].action is Inspect);
            if world.dir_exists {
                assert(run[1].action is Open);
            } else {
                assert(run[1].action is Create);
                assert(run[2].action is Open);
            }
        } else {
            assert(run[0].action is Open);
        }
    }
}

/// A path without a tilde is used as it is.
pub proof fn law_paths_without_a_tilde_are_kept(path: Seq<char>, home: Seq<char>)
    requires
        !path.contains('~'),
    ensures
        replaced(path, '~', home) == path,
    decreases path.len(),
{
    if path.len() > 0 {
        let front = path.drop_last();
        assert(path[path.len() - 1] != '~');
        assert forall|i: int| 0 <= i < front.len() implies front[i] != '~' by {
            assert(path[i] != '~');
        }
        law_paths_without_a_tilde_are_kept(front, home);
        assert(front + seq![path.last()] =~= path);
    }
}

/// A path that starts with a tilde, and holds no other, starts with the home
/// directory instead.
pub proof fn law_a_leading_tilde_is_the_home_directory(rest: Seq<char>, home: Seq<char>)
    requires
        !rest.contains('~'),
    ensures
        replaced(seq!['~'] + rest, '~', home) == home + rest,
    decreases rest.len(),
{
    let path = seq!['~'] + rest;
    if rest.len() == 0 {
        assert(path =~= seq!['~']);
        assert(path.drop_last() =~= Seq::<char>::empty());
        assert(replaced(path.drop_last(), '~', home) =~= Seq::<char>::empty());
        assert(replaced(path, '~', home) =~= home + rest);
    } else {
        let front = rest.drop_last();
        assert(rest[rest.len() - 1] != '~');
        assert forall|i: int| 0 <= i < front.len() implies front[i] != '~' by {
            assert(rest[i] != '~');
        }
        law_a_leading_tilde_is_the_home_directory(front, home);
        assert(path.drop_last() =~= seq!['~'] + front);
        assert(home + front + seq![rest.last()] =~= home + rest);
    }
}

/// Without logging to a file the level is `Info`. With it, the level is the one that
/// is asked for and the file the configured one, every tilde replaced by the home
/// directory, or by nothing without one.
pub proof fn law_logging_is_as_configured(
    config: AppConfig,
    level: LevelFilter,
    home: Option<&str>,
    plan: LoggingPlan,
)
    requires
        call_ensures(logging_plan_at, (&config, level, home), plan),
    ensures
        plan.file is Some <==> config.debug.enabled,
        config.debug.enabled ==> plan.level == level,
        !config.debug.enabled ==> plan.level == LevelFilter::Info,
        plan.file matches Some(file) ==> (home matches Some(dir) ==> file@ == replaced(
            config.debug.file@,
            '~',
            dir@,
        )),
        plan.file matches Some(file) ==> home is None ==> file@ == replaced(
            config.debug.file@,
            '~',
            Seq::empty(),
        ),
{
}

/// The file's directory is looked for first, where the path has one, and created where
/// it is missing; then the file is opened. Nothing is warned of on the way.
pub proof fn law_the_directory_comes_before_the_file(
    plan: LoggingPlan,
    exists: bool,
    begun: SetupStep,
    inspected: SetupStep,
)
    requires
        call_ensures(next_setup_step, (&plan, &SetupEvent::Begin), begun),
        call_ensures(next_setup_step, (&plan, &SetupEvent::Inspected(exists)), inspected),
    ensures
        begun.warning is None,
        inspected.warning is None,
        plan.file matches Some(file) ==> match parent_dir(file@) {
            Some(dir) => {
                &&& begun.action matches SetupAction::Inspect(d)
                &&& d@ == dir
                &&& exists ==> (inspected.action matches SetupAction::Open(f) && f@ == file@)
                &&& !exists ==> (inspected.action matches SetupAction::Create(c) && c@ == dir)
            },
            None => {
                &&& begun.action matches SetupAction::Open(f)
                &&& f@ == file@
                &&& inspected.action matches SetupAction::Open(g)
                &&& g@ == file@
            },
        },
        plan.file is None ==> begun.action == (SetupAction::Apply { to_file: false })
            && inspected.action == (SetupAction::Apply { to_file: false }),
{
}

/// A failure is warned of, with its reason, and a success is not. Whatever came of the
/// directory, the file is opened next; it is logged to exactly where that succeeded.
pub proof fn law_failures_are_warned_of(
    plan: LoggingPlan,
    file: String,
    failure: Option<String>,
    created: SetupStep,
    opened: SetupStep,
)
    requires
        plan.file == Some(file),
        call_ensures(next_setup_step, (&plan, &SetupEvent::Created(failure)), created),
        call_ensures(next_setup_step, (&plan, &SetupEvent::Opened(failure)), opened),
    ensures
        created.action matches SetupAction::Open(f) && f@ == file@,
        opened.action == (SetupAction::Apply { to_file: failure is None }),
        failure is None ==> created.warning is None && opened.warning is None,
        failure matches Some(reason) ==> {
            &&& created.warning matches Some(w)
            &&& w@ == "Cannot create log dir: "@ + reason@
            &&& opened.warning matches Some(v)
            &&& v@ == "Cannot open log file "@ + file@ + ": "@ + reason@ + " — stdout only"@
        },
{
}

/// A line of the log starts with the time, ends with the message, and between them has
/// the level and the part of the program, each in brackets.
pub proof fn law_a_line_has_its_parts(
    time: LocalTime,
    level: &str,
    target: &str,
    message: &str,
    line: String,
)
    requires
        call_ensures(log_line, (&time, level, target, message), line),
    ensures
        ({
            let stamp = timestamp_text(time@).len() as int;
            &&& line@.take(stamp) == timestamp_text(time@)
            &&& line@.skip(stamp) == " ["@ + level@ + "] ["@ + target@ + "] "@ + message@
        }),
{
    let stamp = timestamp_text(time@).len() as int;
    assert(line@.take(stamp) =~= timestamp_text(time@));
    assert(line@.skip(stamp) =~= " ["@ + level@ + "] ["@ + target@ + "] "@ + message@);
}

/// What is logged is as the configuration names it: where logging to a file is on, the
/// level is the one that the setting names, in letters of either case.
pub proof fn law_the_level_is_the_named_one(
    config: AppConfig,
    home: Option<&str>,
    plan: LoggingPlan,
)
    requires
        call_ensures(logging_plan, (&config, home), plan),
    ensures
        plan.file is Some <==> config.debug.enabled,
        !config.debug.enabled ==> plan.level == LevelFilter::Info,
        config.debug.enabled ==> plan.level == level_named(lowercase(config.debug.level@)),
        config.debug.enabled && is_ascii_chars(config.debug.level@) ==> plan.level == level_named(
            ascii_small(config.debug.level@),
        ),
        plan.file matches Some(file) ==> file@ == replaced(
            config.debug.file@,
            '~',
            match home {
                Some(dir) => dir@,
                None => Seq::empty(),
            },
        ),
{
}

} // verus!
