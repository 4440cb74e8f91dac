//! Following the active application: which input source it is to have.
//!
//! An activation begins with [`ActivationEvent::Activated`]. Each action is carried
//! out by the program, which then reports what came of it as the next event, until
//! the action is one that ends the activation.

use vstd::prelude::*;
use vstd::utf8::{decode_utf8, valid_utf8};
use crate::config::{default_config, AppConfig};
use crate::paths::EnvironmentView;
use crate::sources::{first_with_id, selected_id, SourceView};
use crate::text::{
    a_text_stands_in_itself, contains_text, decode_lossy, has_text,
    law_a_text_stands_between_two_others, lossy_text, opt_text,
};

verus! {

/// The input source to select when `name` becomes active while `current` is
/// selected: the one that the rules give `name`, unless it already stands in
/// `current`.
pub open spec fn wanted_source(
    rules: Map<Seq<char>, Seq<char>>,
    name: Seq<char>,
    current: Seq<char>,
) -> Option<Seq<char>> {
    if rules.contains_key(name) && !has_text(current, rules[name]) {
        Some(rules[name])
    } else {
        None
    }
}

/// What came of the last step of an activation.
#[derive(Debug)]
pub enum ActivationEvent {
    /// The application of this name became active; `None` where its name cannot
    /// be read.
    Activated(Option<String>),
    /// While `name` is active, the input source with the identifier `id` is
    /// selected.
    Current { name: String, id: String },
}

/// The contents of an [`ActivationEvent`].
pub enum ActivationEventView {
    Activated(Option<Seq<char>>),
    Current { name: Seq<char>, id: Seq<char> },
}

impl View for ActivationEvent {
    type V = ActivationEventView;

    open spec fn view(&self) -> ActivationEventView {
        match self {
            ActivationEvent::Activated(name) => ActivationEventView::Activated(opt_text(*name)),
            ActivationEvent::Current { name, id } => ActivationEventView::Current {
                name: name@,
                id: id@,
            },
        }
    }
}

/// The next step of an activation.
#[derive(Debug)]
pub enum ActivationAction {
    /// Warn of this, and end.
    Warn(String),
    /// Ask which input source is selected, for the application of this name.
    ReadCurrent(String),
    /// Select this input source for the application `name`, and end.
    SwitchTo { name: String, target: String },
    /// Leave the selected input source, and end.
    Stay,
}

/// The contents of an [`ActivationAction`].
pub enum ActivationActionView {
    Warn(Seq<char>),
    ReadCurrent(Seq<char>),
    SwitchTo { name: Seq<char>, target: Seq<char> },
    Stay,
}

impl View for ActivationAction {
    type V = ActivationActionView;

    open spec fn view(&self) -> ActivationActionView {
        match self {
            ActivationAction::Warn(message) => ActivationActionView::Warn(message@),
            ActivationAction::ReadCurrent(name) => ActivationActionView::ReadCurrent(name@),
            ActivationAction::SwitchTo { name, target } => ActivationActionView::SwitchTo {
                name: name@,
                target: target@,
            },
            ActivationAction::Stay => ActivationActionView::Stay,
        }
    }
}

/// What an activation does after `event`.
pub open spec fn activation_action(
    rules: Map<Seq<char>, Seq<char>>,
    event: ActivationEventView,
) -> ActivationActionView {
    match event {
        ActivationEventView::Activated(Some(name)) => ActivationActionView::ReadCurrent(name),
        ActivationEventView::Activated(None) => ActivationActionView::Warn(
            "Could not read application name from notification"@,
        ),
        ActivationEventView::Current { name, id } => match wanted_source(rules, name, id) {
            Some(target) => ActivationActionView::SwitchTo { name, target },
            None => ActivationActionView::Stay,
        },
    }
}

/// The input source to select when `app_name` becomes active while `current` is
/// selected, if any: the one that the configuration gives `app_name`, unless it
/// already stands in `current`.
pub fn desired_input_source<'a>(
    app_name: &str,
    config: &'a AppConfig,
    current: &str,
) -> (target: Option<&'a str>)
    ensures
        match target {
            Some(source) => wanted_source(config@.app, app_name@, current@) == Some(source@),
            None => wanted_source(config@.app, app_name@, current@) is None,
        },
{
    match config.app.get(app_name) {
        Some(source) => {
            if contains_text(current, source) {
                None
            } else {
                Some(source)
            }
        },
        None => None,
    }
}

/// What an activation does after `event`.
pub fn next_activation_action(config: &AppConfig, event: ActivationEvent) -> (action:
    ActivationAction)
    ensures
        action@ == activation_action(config@.app, event@),
{
    match event {
        ActivationEvent::Activated(Some(name)) => ActivationAction::ReadCurrent(name),
        ActivationEvent::Activated(None) => ActivationAction::Warn(
            "Could not read application name from notification".to_owned(),
        ),
        ActivationEvent::Current { name, id } => match desired_input_source(
            name.as_str(),
            config,
            id.as_str(),
        ) {
            Some(source) => {
                let target: String = source.to_owned();
                ActivationAction::SwitchTo { name, target }
            },
            None => ActivationAction::Stay,
        },
    }
}

/// The name of the application that became active, from the bytes that the system
/// gives it in; `None` where the system gave none.
pub fn application_name(utf8: Option<&[u8]>) -> (name: Option<String>)
    ensures
        match utf8 {
            Some(bytes) => {
                &&& name matches Some(text)
                &&& text@ == lossy_text(bytes@)
                &&& valid_utf8(bytes@) ==> text@ == decode_utf8(bytes@)
            },
            None => name is None,
        },
{
    match utf8 {
        Some(bytes) => Some(decode_lossy(bytes)),
        None => None,
    }
}

/// What is selected after an activation of `name` that found `current` selected
/// and whose switch, if any, succeeded.
pub open spec fn selected_after(
    rules: Map<Seq<char>, Seq<char>>,
    name: Seq<char>,
    current: Seq<char>,
) -> Seq<char> {
    match wanted_source(rules, name, current) {
        Some(source) => source,
        None => current,
    }
}

/// After an activation whose switch succeeded, the selected input source is the one
/// that the rules give the application, or holds it in its identifier; an
/// application without a rule keeps the one that was selected.
pub proof fn law_the_rule_holds_after_an_activation(
    rules: Map<Seq<char>, Seq<char>>,
    name: Seq<char>,
    current: Seq<char>,
)
    ensures
        rules.contains_key(name) ==> has_text(selected_after(rules, name, current), rules[name]),
        !rules.contains_key(name) ==> selected_after(rules, name, current) == current,
{
    if rules.contains_key(name) {
        a_text_stands_in_itself(rules[name]);
    }
}

/// Once the wanted input source is selected, the same application wants no
/// other: a switch is not followed by a second one.
pub proof fn law_a_switch_settles(
    rules: Map<Seq<char>, Seq<char>>,
    name: Seq<char>,
    current: Seq<char>,
)
    ensures
        wanted_source(rules, name, current) matches Some(source) ==> wanted_source(
            rules,
            name,
            source,
        ) is None,
{
    if rules.contains_key(name) {
        a_text_stands_in_itself(rules[name]);
    }
}

/// Selecting the source that is found for the wanted identifier settles the
/// activation: told of that source, the application wants no other.
pub proof fn law_a_found_source_settles(
    rules: Map<Seq<char>, Seq<char>>,
    name: Seq<char>,
    current: Seq<char>,
    sources: Seq<SourceView>,
    i: int,
)
    requires
        wanted_source(rules, name, current) is Some,
        first_with_id(sources, wanted_source(rules, name, current)->0, i),
    ensures
        selected_id(Some(sources[i])) == rules[name],
        activation_action(
            rules,
            ActivationEventView::Current { name, id: selected_id(Some(sources[i])) },
        ) is Stay,
{
    law_a_switch_settles(rules, name, current);
}

/// Without rules no application ever wants another input source.
pub proof fn law_no_rules_no_switch(env: EnvironmentView, name: Seq<char>, current: Seq<char>)
    ensures
        wanted_source(default_config(env).app, name, current) is None,
{
}

/// A rule for one application leaves what the others want as it was.
pub proof fn law_rules_are_independent(
    rules: Map<Seq<char>, Seq<char>>,
    ruled: Seq<char>,
    source: Seq<char>,
    name: Seq<char>,
    current: Seq<char>,
)
    ensures
        name != ruled ==> wanted_source(rules.insert(ruled, source), name, current)
            == wanted_source(rules, name, current),
        name == ruled ==> wanted_source(rules.insert(ruled, source), name, current) == (if has_text(
            current,
            source,
        ) {
            None
        } else {
            Some(source)
        }),
{
}

/// An application with a rule has the rule's source selected, unless that source
/// stands in the identifier of the selected one; in all other cases the selected one
/// stays.
pub proof fn law_the_rules_source_is_selected(
    config: AppConfig,
    name: String,
    id: String,
    action: ActivationAction,
)
    requires
        call_ensures(
            next_activation_action,
            (&config, ActivationEvent::Current { name, id }),
            action,
        ),
    ensures
        config.app@.contains_key(name@) && !(exists|before: Seq<char>, after: Seq<char>| #[trigger]
            (before + config.app@[name@] + after) == id@) ==> {
            &&& action matches ActivationAction::SwitchTo { name: n, target }
            &&& n@ == name@
            &&& target@ == config.app@[name@]
        },
        action is Stay <==> !config.app@.contains_key(name@) || exists|
            before: Seq<char>,
            after: Seq<char>,
        | #[trigger] (before + config.app@[name@] + after) == id@,
{
    law_a_text_stands_between_two_others(id@, config.app@[name@]);
}

/// An application whose name can be read has the selected source asked for, under that
/// name; one whose name cannot is warned of.
pub proof fn law_a_readable_name_is_followed(
    config: AppConfig,
    name: Option<String>,
    action: ActivationAction,
)
    requires
        call_ensures(next_activation_action, (&config, ActivationEvent::Activated(name)), action),
    ensures
        name matches Some(n) ==> (action matches ActivationAction::ReadCurrent(m) && m@ == n@),
        name is None ==> (action matches ActivationAction::Warn(message) && message@
            == "Could not read application name from notification"@),
{
}

/// The wanted source is the one of the application's rule, and there is one exactly
/// where there is a rule whose source does not stand in the selected one.
pub proof fn law_the_wanted_source_is_the_rules(
    config: AppConfig,
    name: &str,
    current: &str,
    target: Option<&str>,
)
    requires
        call_ensures(desired_input_source, (name, &config, current), target),
    ensures
        target is Some <==> config.app@.contains_key(name@) && !(exists|
            before: Seq<char>,
            after: Seq<char>,
        | #[trigger] (before + config.app@[name@] + after) == current@),
        target matches Some(source) ==> source@ == config.app@[name@],
{
    law_a_text_stands_between_two_others(current@, config.app@[name@]);
}

/// The name of the application is the text that its bytes encode, and there is none
/// exactly where the system gave no bytes.
pub proof fn law_the_name_is_what_the_bytes_say(utf8: Option<&[u8]>, name: Option<String>)
    requires
        call_ensures(application_name, (utf8,), name),
    ensures
        utf8 is None <==> name is None,
        utf8 matches Some(bytes) ==> (valid_utf8(bytes@) ==> name->0@ == decode_utf8(bytes@)),
        utf8 matches Some(bytes) ==> name->0@ == lossy_text(bytes@),
{
}

} // verus!
