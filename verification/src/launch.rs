//! The command line, and what a start of the program does, step by step.
//!
//! A start begins with [`LaunchEvent::Begin`]. Each action is carried out by the
//! program, which then reports what came of it as the next event, until the
//! action is one that ends the start.

use vstd::prelude::*;
use crate::text::{
    contains_text, has_text, law_a_text_stands_between_two_others,
    law_texts_are_those_of_the_strings, same_text, texts,
};

verus! {

/// What the command line asks for.
#[derive(Debug)]
pub enum Command {
    /// To list the input sources.
    List,
    /// To select the input source with this identifier.
    Switch(String),
    /// To select an input source, without saying which.
    SwitchToNothing,
    /// To tell the version.
    Version,
    /// To explain the command line.
    Help,
    /// Something that is not known.
    Unknown(String),
    /// To follow the active application.
    Daemon,
}

/// The contents of a [`Command`].
pub enum CommandView {
    List,
    Switch(Seq<char>),
    SwitchToNothing,
    Version,
    Help,
    Unknown(Seq<char>),
    Daemon,
}

impl View for Command {
    type V = CommandView;

    open spec fn view(&self) -> CommandView {
        match self {
            Command::List => CommandView::List,
            Command::Switch(target) => CommandView::Switch(target@),
            Command::SwitchToNothing => CommandView::SwitchToNothing,
            Command::Version => CommandView::Version,
            Command::Help => CommandView::Help,
            Command::Unknown(flag) => CommandView::Unknown(flag@),
            Command::Daemon => CommandView::Daemon,
        }
    }
}

/// What a command line asks for. Its first word is the program's own name; the
/// second decides, and only `-s` takes a third.
pub open spec fn command_of(args: Seq<Seq<char>>) -> CommandView {
    if args.len() < 2 {
        CommandView::Daemon
    } else if args[1] == "-p"@ {
        CommandView::List
    } else if args[1] == "-s"@ {
        if args.len() < 3 {
            CommandView::SwitchToNothing
        } else {
            CommandView::Switch(args[2])
        }
    } else if args[1] == "-v"@ || args[1] == "--version"@ {
        CommandView::Version
    } else if args[1] == "-h"@ || args[1] == "--help"@ {
        CommandView::Help
    } else {
        CommandView::Unknown(args[1])
    }
}

/// What the command line `args` asks for.
pub fn parse_command(args: &Vec<String>) -> (command: Command)
    ensures
        command@ == command_of(texts(args@)),
{
    if args.len() < 2 {
        return Command::Daemon;
    }
    let flag: &str = args[1].as_str();
    if same_text(flag, "-p") {
        Command::List
    } else if same_text(flag, "-s") {
        if args.len() < 3 {
            Command::SwitchToNothing
        } else {
            Command::Switch(args[2].clone())
        }
    } else if same_text(flag, "-v") || same_text(flag, "--version") {
        Command::Version
    } else if same_text(flag, "-h") || same_text(flag, "--help") {
        Command::Help
    } else {
        Command::Unknown(args[1].clone())
    }
}

/// Whether the program runs under development: started by cargo, asked for by
/// the variable `ISWITCH_DEV`, or from a debug build.
pub fn is_dev_mode(cargo_set: bool, iswitch_dev_set: bool, executable: Option<&str>) -> (dev: bool)
    ensures
        dev == (cargo_set || iswitch_dev_set || (executable matches Some(path) && has_text(
            path@,
            "target/debug"@,
        ))),
{
    cargo_set || iswitch_dev_set || match executable {
        Some(path) => contains_text(path, "target/debug"),
        None => false,
    }
}

/// What came of the last step of a start.
#[derive(Debug)]
pub enum LaunchEvent {
    /// Nothing was done yet.
    Begin,
    /// The configuration is loaded and the log set up.
    Configured,
    /// The identifier of the selected input source.
    Current(String),
    /// An input source was selected, or could not be.
    Switched,
    /// Whether another instance is running.
    Running(bool),
}

/// The contents of a [`LaunchEvent`].
pub enum LaunchEventView {
    Begin,
    Configured,
    Current(Seq<char>),
    Switched,
    Running(bool),
}

impl View for LaunchEvent {
    type V = LaunchEventView;

    open spec fn view(&self) -> LaunchEventView {
        match self {
            LaunchEvent::Begin => LaunchEventView::Begin,
            LaunchEvent::Configured => LaunchEventView::Configured,
            LaunchEvent::Current(id) => LaunchEventView::Current(id@),
            LaunchEvent::Switched => LaunchEventView::Switched,
            LaunchEvent::Running(other) => LaunchEventView::Running(*other),
        }
    }
}

/// The next step of a start.
#[derive(Debug)]
pub enum LaunchAction {
    /// Print the list of input sources, and end.
    PrintSources,
    /// Load the configuration and set up the log.
    Configure,
    /// Print these lines, and end.
    Print(Vec<String>),
    /// Log this error, and end.
    Fail(String),
    /// Ask which input source is selected.
    ReadCurrent,
    /// Select this input source.
    SwitchTo(String),
    /// Look for another instance.
    CheckRunning,
    /// Follow the active application.
    RunDaemon,
    /// End.
    Exit,
}

/// The contents of a [`LaunchAction`].
pub enum LaunchActionView {
    PrintSources,
    Configure,
    Print(Seq<Seq<char>>),
    Fail(Seq<char>),
    ReadCurrent,
    SwitchTo(Seq<char>),
    CheckRunning,
    RunDaemon,
    Exit,
}

impl View for LaunchAction {
    type V = LaunchActionView;

    open spec fn view(&self) -> LaunchActionView {
        match self {
            LaunchAction::PrintSources => LaunchActionView::PrintSources,
            LaunchAction::Configure => LaunchActionView::Configure,
            LaunchAction::Print(lines) => LaunchActionView::Print(texts(lines@)),
            LaunchAction::Fail(message) => LaunchActionView::Fail(message@),
            LaunchAction::ReadCurrent => LaunchActionView::ReadCurrent,
            LaunchAction::SwitchTo(target) => LaunchActionView::SwitchTo(target@),
            LaunchAction::CheckRunning => LaunchActionView::CheckRunning,
            LaunchAction::RunDaemon => LaunchActionView::RunDaemon,
            LaunchAction::Exit => LaunchActionView::Exit,
        }
    }
}

impl LaunchActionView {
    /// Nothing is done after this action.
    pub open spec fn ends(self) -> bool {
        self is PrintSources || self is Print || self is Fail || self is RunDaemon || self is Exit
    }
}

/// The lines that explain the command line.
pub open spec fn help_lines() -> Seq<Seq<char>> {
    seq![
        "iSwitch — auto-switch input sources based on active app"@,
        ""@,
        "USAGE:"@,
        "  iswitch              Daemon mode"@,
        "  iswitch -s <id>      Switch to input source"@,
        "  iswitch -p           List input sources"@,
        "  iswitch -v           Show version"@,
        "  iswitch -h           Help"@,
    ]
}

/// What a start does first once the configuration is loaded.
pub open spec fn configured_action(command: CommandView, version: Seq<char>) -> LaunchActionView {
    match command {
        CommandView::List => LaunchActionView::PrintSources,
        CommandView::Switch(_) => LaunchActionView::ReadCurrent,
        CommandView::SwitchToNothing => LaunchActionView::Fail("Usage: -s <input_source_id>"@),
        CommandView::Version => LaunchActionView::Print(seq!["iswitch "@ + version]),
        CommandView::Help => LaunchActionView::Print(help_lines()),
        CommandView::Unknown(flag) => LaunchActionView::Fail(
            "Unknown flag: "@ + flag + ". Use -h."@,
        ),
        CommandView::Daemon => LaunchActionView::CheckRunning,
    }
}

/// What a start does after `event`. The list of input sources needs no
/// configuration. An input source is selected only where another one is selected
/// at present. After that, as where only following was asked for, another
/// instance is looked for, and where there is none the program goes on to follow
/// the active application. Where there is one, following fails, but a start that was
/// to select an input source has done so and just ends.
pub open spec fn launch_action(
    command: CommandView,
    version: Seq<char>,
    event: LaunchEventView,
) -> LaunchActionView {
    match event {
        LaunchEventView::Begin => if command is List {
            LaunchActionView::PrintSources
        } else {
            LaunchActionView::Configure
        },
        LaunchEventView::Configured => configured_action(command, version),
        LaunchEventView::Current(id) => match command {
            CommandView::Switch(target) => if id != target {
                LaunchActionView::SwitchTo(target)
            } else {
                LaunchActionView::CheckRunning
            },
            _ => LaunchActionView::CheckRunning,
        },
        LaunchEventView::Switched => LaunchActionView::CheckRunning,
        LaunchEventView::Running(other) => if other && command is Switch {
            LaunchActionView::Exit
        } else if other {
            LaunchActionView::Fail("Another iswitch daemon is running. Exiting."@)
        } else {
            LaunchActionView::RunDaemon
        },
    }
}

/// The lines that explain the command line.
fn help_text() -> (lines: Vec<String>)
    ensures
        texts(lines@) == help_lines(),
{
    let mut lines: Vec<String> = Vec::new();
    lines.push("iSwitch — auto-switch input sources based on active app".to_owned());
    lines.push("".to_owned());
    lines.push("USAGE:".to_owned());
    lines.push("  iswitch              Daemon mode".to_owned());
    lines.push("  iswitch -s <id>      Switch to input source".to_owned());
    lines.push("  iswitch -p           List input sources".to_owned());
    lines.push("  iswitch -v           Show version".to_owned());
    lines.push("  iswitch -h           Help".to_owned());
    proof {
        assert(texts(lines@) =~= help_lines());
    }
    lines
}

/// What a start does first once the configuration is loaded.
fn next_when_configured(command: &Command, version: &str) -> (action: LaunchAction)
    ensures
        action@ == configured_action(command@, version@),
{
    match command {
        Command::List => LaunchAction::PrintSources,
        Command::Switch(_) => LaunchAction::ReadCurrent,
        Command::SwitchToNothing => LaunchAction::Fail("Usage: -s <input_source_id>".to_owned()),
        Command::Version => {
            let mut line: String = "iswitch ".to_owned();
            line.append(version);
            let mut lines: Vec<String> = Vec::new();
            lines.push(line);
            proof {
                assert(texts(lines@) =~= seq!["iswitch "@ + version@]);
            }
            LaunchAction::Print(lines)
        },
        Command::Help => LaunchAction::Print(help_text()),
        Command::Unknown(flag) => {
            let mut message: String = "Unknown flag: ".to_owned();
            message.append(flag.as_str());
            message.append(". Use -h.");
            LaunchAction::Fail(message)
        },
        Command::Daemon => LaunchAction::CheckRunning,
    }
}

/// What a start does after `event`.
pub fn next_launch_action(command: &Command, version: &str, event: &LaunchEvent) -> (action:
    LaunchAction)
    ensures
        action@ == launch_action(command@, version@, event@),
{
    match event {
        LaunchEvent::Begin => match command {
            Command::List => LaunchAction::PrintSources,
            _ => LaunchAction::Configure,
        },
        LaunchEvent::Configured => next_when_configured(command, version),
        LaunchEvent::Current(id) => match command {
            Command::Switch(target) => {
                if *id != *target {
                    LaunchAction::SwitchTo(target.clone())
                } else {
                    LaunchAction::CheckRunning
                }
            },
            _ => LaunchAction::CheckRunning,
        },
        LaunchEvent::Switched => LaunchAction::CheckRunning,
        LaunchEvent::Running(other) => {
            if !*other {
                return LaunchAction::RunDaemon;
            }
            match command {
                Command::Switch(_) => LaunchAction::Exit,
                _ => LaunchAction::Fail("Another iswitch daemon is running. Exiting.".to_owned()),
            }
        },
    }
}

/// What the steps of a start meet.
pub struct LaunchWorld {
    pub current: Seq<char>,
    pub other_running: bool,
}

/// The event that reports on `action`. Nothing reports on an action that ends the
/// start; what stands for it is never looked at.
pub open spec fn launch_report(world: LaunchWorld, action: LaunchActionView) -> LaunchEventView {
    match action {
        LaunchActionView::Configure => LaunchEventView::Configured,
        LaunchActionView::ReadCurrent => LaunchEventView::Current(world.current),
        LaunchActionView::SwitchTo(_) => LaunchEventView::Switched,
        LaunchActionView::CheckRunning => LaunchEventView::Running(world.other_running),
        _ => LaunchEventView::Begin,
    }
}

/// The first `steps` actions of a start from `event` on, up to the last.
pub open spec fn launch_run(
    world: LaunchWorld,
    command: CommandView,
    version: Seq<char>,
    event: LaunchEventView,
    steps: nat,
) -> Seq<LaunchActionView>
    decreases steps,
{
    if steps == 0 {
        Seq::empty()
    } else {
        let action = launch_action(command, version, event);
        if action.ends() {
            seq![action]
        } else {
            seq![action] + launch_run(
                world,
                command,
                version,
                launch_report(world, action),
                (steps - 1) as nat,
            )
        }
    }
}

/// All actions of a start.
pub open spec fn launch(world: LaunchWorld, command: CommandView, version: Seq<char>) -> Seq<
    LaunchActionView,
> {
    launch_run(world, command, version, LaunchEventView::Begin, 5)
}

/// Every start ends its steps: five are enough, and a longer run is no different.
pub proof fn law_a_start_ends(
    world: LaunchWorld,
    command: CommandView,
    version: Seq<char>,
    steps: nat,
)
    requires
        steps >= 5,
    ensures
        1 <= launch(world, command, version).len() <= 5,
        launch(world, command, version).last().ends(),
        launch_run(world, command, version, LaunchEventView::Begin, steps) == launch(
            world,
            command,
            version,
        ),
{
    reveal_with_fuel(launch_run, 6);
    assert(launch_run(world, command, version, LaunchEventView::Begin, steps) =~= launch(
        world,
        command,
        version,
    ));
}

/// The program follows the active application exactly where that, or to select an
/// input source, was asked for and no other instance was found running. Where one
/// was, it ends: with an error where following was asked for, and without one where
/// an input source was to be selected.
pub proof fn law_only_one_instance_follows(
    world: LaunchWorld,
    command: CommandView,
    version: Seq<char>,
)
    ensures
        launch(world, command, version).last() is RunDaemon <==> (command is Daemon
            || command is Switch) && !world.other_running,
        command is Daemon && world.other_running ==> launch(world, command, version).last()
            == LaunchActionView::Fail("Another iswitch daemon is running. Exiting."@),
        command is Switch && world.other_running ==> launch(world, command, version).last() is Exit,
        launch(world, command, version).last() is Exit <==> command is Switch
            && world.other_running,
        command is Switch ==> forall|i: int|
            0 <= i < launch(world, command, version).len() ==> !(#[trigger] launch(
                world,
                command,
                version,
            )[i] is Fail),
{
    reveal_with_fuel(launch_run, 6);
}

/// An input source is selected exactly where that was asked for and another one is
/// selected at present; then it is the one that was asked for, and another
/// instance is looked for afterwards.
pub proof fn law_only_another_source_is_switched_to(
    world: LaunchWorld,
    command: CommandView,
    version: Seq<char>,
    i: int,
)
    requires
        0 <= i < launch(world, command, version).len(),
    ensures
        ({
            let run = launch(world, command, version);
            &&& run[i] is SwitchTo ==> {
                &&& command == CommandView::Switch(run[i]->SwitchTo_0)
                &&& world.current != run[i]->SwitchTo_0
                &&& i + 1 < run.len()
                &&& run[i + 1] is CheckRunning
            }
            &&& command matches CommandView::Switch(target) ==> world.current != target
                ==> run.len() > 2 && run[2] == LaunchActionView::SwitchTo(target)
        }),
{
    reveal_with_fuel(launch_run, 6);
}

/// Listing the input sources is all that `-p` does; every other start loads the
/// configuration first.
pub proof fn law_only_listing_needs_no_configuration(
    world: LaunchWorld,
    command: CommandView,
    version: Seq<char>,
)
    ensures
        command is List ==> launch(world, command, version) == seq![LaunchActionView::PrintSources],
        !(command is List) ==> launch(world, command, version)[0] is Configure,
{
    reveal_with_fuel(launch_run, 6);
}

/// The literals of the command line are all different.
proof fn flags_differ()
    ensures
        "-p"@ != "-s"@,
        "-p"@ != "-v"@,
        "-p"@ != "-h"@,
        "-s"@ != "-v"@,
        "-s"@ != "-h"@,
        "-v"@ != "-h"@,
        "-p"@.len() == 2,
        "-s"@.len() == 2,
        "-v"@.len() == 2,
        "-h"@.len() == 2,
        "--version"@.len() == 9,
        "--help"@.len() == 6,
{
    reveal_strlit("-p");
    reveal_strlit("-s");
    reveal_strlit("-v");
    reveal_strlit("-h");
    reveal_strlit("--version");
    reveal_strlit("--help");
    assert("-p"@[1] == 'p' && "-s"@[1] == 's' && "-v"@[1] == 'v' && "-h"@[1] == 'h');
}

/// The second word of a command line decides what it asks for, and `-s` has the third
/// for its source, whatever that is and whatever follows; without a third word it has
/// none. Without a second word following is asked for.
pub proof fn law_the_second_word_decides(args: Vec<String>, command: Command)
    requires
        call_ensures(parse_command, (&args,), command),
    ensures
        command is Daemon <==> args@.len() < 2,
        command is List <==> args@.len() >= 2 && args@[1]@ == "-p"@,
        command is Switch <==> args@.len() >= 3 && args@[1]@ == "-s"@,
        command matches Command::Switch(target) ==> target@ == args@[2]@,
        command is SwitchToNothing <==> args@.len() == 2 && args@[1]@ == "-s"@,
        command is Version <==> args@.len() >= 2 && (args@[1]@ == "-v"@ || args@[1]@
            == "--version"@),
        command is Help <==> args@.len() >= 2 && (args@[1]@ == "-h"@ || args@[1]@ == "--help"@),
        command matches Command::Unknown(flag) ==> flag@ == args@[1]@,
{
    flags_differ();
    reveal_strlit("--version");
    reveal_strlit("--help");
    law_texts_are_those_of_the_strings(args@, None);
}

/// Only `-p` does without a configuration.
pub proof fn law_a_start_begins_with_the_configuration(
    command: Command,
    version: &str,
    action: LaunchAction,
)
    requires
        call_ensures(next_launch_action, (&command, version, &LaunchEvent::Begin), action),
    ensures
        command is List ==> action is PrintSources,
        !(command is List) ==> action is Configure,
{
}

/// Once the configuration is loaded, a start does what the command line asks for: it
/// prints the version or the help, refuses what it does not know or what lacks a
/// source, asks for the selected source where one is to be selected, and looks for
/// another instance where following was asked for.
pub proof fn law_a_configured_start_does_what_was_asked_for(
    command: Command,
    version: &str,
    action: LaunchAction,
)
    requires
        call_ensures(next_launch_action, (&command, version, &LaunchEvent::Configured), action),
    ensures
        command is List <==> action is PrintSources,
        command is Switch <==> action is ReadCurrent,
        command is Daemon <==> action is CheckRunning,
        command is Version ==> (action matches LaunchAction::Print(lines) && lines@.len() == 1
            && lines@[0]@ == "iswitch "@ + version@),
        command is Help ==> {
            &&& action matches LaunchAction::Print(lines)
            &&& lines@.len() == 8
            &&& lines@[0]@ == "iSwitch — auto-switch input sources based on active app"@
            &&& lines@[1]@ == ""@
            &&& lines@[2]@ == "USAGE:"@
            &&& lines@[3]@ == "  iswitch              Daemon mode"@
            &&& lines@[4]@ == "  iswitch -s <id>      Switch to input source"@
            &&& lines@[5]@ == "  iswitch -p           List input sources"@
            &&& lines@[6]@ == "  iswitch -v           Show version"@
            &&& lines@[7]@ == "  iswitch -h           Help"@
        },
        command is SwitchToNothing ==> (action matches LaunchAction::Fail(message) && message@
            == "Usage: -s <input_source_id>"@),
        command matches Command::Unknown(flag) ==> (action matches LaunchAction::Fail(message)
            && message@ == "Unknown flag: "@ + flag@ + ". Use -h."@),
{
    if let LaunchAction::Print(lines) = action {
        law_texts_are_those_of_the_strings(lines@, None);
        assert(action@ == LaunchActionView::Print(texts(lines@)));
        assert(texts(lines@).len() == lines@.len());
        if command is Version {
            assert(texts(lines@)[0] == lines@[0]@);
        }
        if command is Help {
            assert forall|i: int| 0 <= i < 8 implies #[trigger] lines@[i]@ == help_lines()[i] by {
                assert(texts(lines@)[i] == lines@[i]@);
            }
        }
    }
}

/// Told of the selected source, a start with `-s` selects the one that was asked for
/// where it is another; else it goes on to look for another instance, as it does once
/// a source was selected.
pub proof fn law_another_source_is_selected(
    command: Command,
    version: &str,
    id: String,
    told: LaunchAction,
    switched: LaunchAction,
)
    requires
        call_ensures(next_launch_action, (&command, version, &LaunchEvent::Current(id)), told),
        call_ensures(next_launch_action, (&command, version, &LaunchEvent::Switched), switched),
    ensures
        command matches Command::Switch(target) ==> target@ != id@ ==> (
        told matches LaunchAction::SwitchTo(t) && t@ == target@),
        command matches Command::Switch(target) ==> target@ == id@ ==> told is CheckRunning,
        !(command is Switch) ==> told is CheckRunning,
        switched is CheckRunning,
{
}

/// A start follows the active application exactly where no other instance is running.
/// Where one is, a start with `-s` ends quietly and any other with an error.
pub proof fn law_another_instance_ends_a_start(
    command: Command,
    version: &str,
    other: bool,
    action: LaunchAction,
)
    requires
        call_ensures(next_launch_action, (&command, version, &LaunchEvent::Running(other)), action),
    ensures
        action is RunDaemon <==> !other,
        other && command is Switch ==> action is Exit,
        other && !(command is Switch) ==> (action matches LaunchAction::Fail(message) && message@
            == "Another iswitch daemon is running. Exiting."@),
{
}

/// Development mode is any one of three things: cargo started the program, the variable
/// asks for it, or the executable's path has `target/debug` between two other texts.
pub proof fn law_any_sign_of_development_counts(
    cargo_set: bool,
    iswitch_dev_set: bool,
    executable: Option<&str>,
    dev: bool,
)
    requires
        call_ensures(is_dev_mode, (cargo_set, iswitch_dev_set, executable), dev),
    ensures
        cargo_set || iswitch_dev_set ==> dev,
        executable is None ==> dev == (cargo_set || iswitch_dev_set),
        executable matches Some(path) ==> (dev <==> cargo_set || iswitch_dev_set || exists|
            before: Seq<char>,
            after: Seq<char>,
        | #[trigger] (before + "target/debug"@ + after) == path@),
{
    if let Some(path) = executable {
        law_a_text_stands_between_two_others(path@, "target/debug"@);
    }
}

} // verus!
