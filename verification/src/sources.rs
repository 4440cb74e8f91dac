//! The system's input sources: finding, naming and listing them.
//!
//! The name that a source is shown by is searched for property by property. The
//! program reads the property that [`next_name_step`] asks for, records it, and asks
//! again, until there is a name: what is not needed is not read.

use vstd::prelude::*;
use crate::text::{law_texts_are_those_of_the_strings, opt_text, texts};

verus! {

/// An input source, as the system describes it. A property that it does not have
/// is `None`.
#[derive(Debug)]
pub struct InputSource {
    /// Where the system's list holds it.
    pub position: usize,
    /// Its identifier.
    pub id: Option<String>,
    /// Its name in the user's language.
    pub localized_name: Option<String>,
    /// The identifier of its input mode.
    pub input_mode_id: Option<String>,
    /// The languages that it is meant for; an item that is missing is `None`.
    pub languages: Option<Vec<Option<String>>>,
    /// Its kind.
    pub kind: Option<String>,
}

/// The contents of an [`InputSource`].
pub struct SourceView {
    pub position: int,
    pub id: Option<Seq<char>>,
    pub localized_name: Option<Seq<char>>,
    pub input_mode_id: Option<Seq<char>>,
    pub languages: Option<Seq<Option<Seq<char>>>>,
    pub kind: Option<Seq<char>>,
}

impl View for InputSource {
    type V = SourceView;

    open spec fn view(&self) -> SourceView {
        SourceView {
            position: self.position as int,
            id: opt_text(self.id),
            localized_name: opt_text(self.localized_name),
            input_mode_id: opt_text(self.input_mode_id),
            languages: match self.languages {
                Some(list) => Some(list@.map_values(|item: Option<String>| opt_text(item))),
                None => None,
            },
            kind: opt_text(self.kind),
        }
    }
}

/// The contents of a list of input sources.
pub open spec fn views(sources: Seq<InputSource>) -> Seq<SourceView> {
    sources.map_values(|source: InputSource| source@)
}

/// The items of a list that are not missing, in their order.
pub open spec fn present<T>(list: Seq<Option<T>>) -> Seq<T>
    decreases list.len(),
{
    if list.len() == 0 {
        Seq::empty()
    } else {
        match list.last() {
            Some(item) => present(list.drop_last()).push(item),
            None => present(list.drop_last()),
        }
    }
}

/// The first language of a source, where it lists one.
pub open spec fn first_language(source: SourceView) -> Option<Seq<char>> {
    match source.languages {
        Some(list) => if list.len() > 0 {
            list[0]
        } else {
            None
        },
        None => None,
    }
}

/// The name that a source is shown by: the first that it has of its localized
/// name, its input mode, its first language and its kind.
pub open spec fn display_name(source: SourceView) -> Seq<char> {
    if source.localized_name is Some {
        source.localized_name->0
    } else if source.input_mode_id is Some {
        source.input_mode_id->0
    } else if first_language(source) is Some {
        first_language(source)->0
    } else if source.kind is Some {
        "Unknown ("@ + source.kind->0 + ")"@
    } else {
        "Unknown"@
    }
}

/// The identifier of the selected source; `source` is `None` where the system
/// tells of none.
pub open spec fn selected_id(source: Option<SourceView>) -> Seq<char> {
    match source {
        Some(selected) => match selected.id {
            Some(id) => id,
            None => "Unknown"@,
        },
        None => "Unknown"@,
    }
}

/// The source at `i` is the first with the identifier `target`.
pub open spec fn first_with_id(sources: Seq<SourceView>, target: Seq<char>, i: int) -> bool {
    &&& 0 <= i < sources.len()
    &&& sources[i].id == Some(target)
    &&& forall|j: int| 0 <= j < i ==> (#[trigger] sources[j]).id != Some(target)
}

/// Some source has the identifier `target`.
pub open spec fn has_id(sources: Seq<SourceView>, target: Seq<char>) -> bool {
    exists|i: int| 0 <= i < sources.len() && (#[trigger] sources[i]).id == Some(target)
}

/// The line that shows a source: its identifier and its name.
pub open spec fn source_line(source: SourceView) -> Seq<char> {
    (match source.id {
        Some(id) => id,
        None => "(no id)"@,
    }) + " - "@ + display_name(source)
}

/// The lines that show what sources there are; `sources` is `None` where the
/// system gave no list.
pub open spec fn listing(sources: Option<Seq<SourceView>>) -> Seq<Seq<char>> {
    match sources {
        Some(list) => seq!["Available input sources:"@] + list.map_values(
            |source: SourceView| source_line(source),
        ),
        None => seq!["Failed to get input source list"@],
    }
}

/// A property that a source can be shown by.
#[derive(Debug, Clone, Copy, PartialEq, Eq, Structural)]
pub enum NameProperty {
    LocalizedName,
    InputModeId,
    FirstLanguage,
    Kind,
}

/// The next step of the search for a name.
#[derive(Debug)]
pub enum NameStep {
    /// Read this property.
    Read(NameProperty),
    /// This is the name; nothing more is read.
    Named(String),
}

/// The contents of a [`NameStep`].
pub enum NameStepView {
    Read(NameProperty),
    Named(Seq<char>),
}

impl View for NameStep {
    type V = NameStepView;

    open spec fn view(&self) -> NameStepView {
        match self {
            NameStep::Read(property) => NameStepView::Read(*property),
            NameStep::Named(name) => NameStepView::Named(name@),
        }
    }
}

/// What a source has of a property.
pub open spec fn property_of(source: SourceView, property: NameProperty) -> Option<Seq<char>> {
    match property {
        NameProperty::LocalizedName => source.localized_name,
        NameProperty::InputModeId => source.input_mode_id,
        NameProperty::FirstLanguage => first_language(source),
        NameProperty::Kind => source.kind,
    }
}

/// `source` with what was read of a property.
pub open spec fn recorded(
    source: SourceView,
    property: NameProperty,
    value: Option<Seq<char>>,
) -> SourceView {
    match property {
        NameProperty::LocalizedName => SourceView { localized_name: value, ..source },
        NameProperty::InputModeId => SourceView { input_mode_id: value, ..source },
        NameProperty::FirstLanguage => SourceView { languages: Some(seq![value]), ..source },
        NameProperty::Kind => SourceView { kind: value, ..source },
    }
}

/// The property to read after `property` was found missing.
pub open spec fn property_after(property: NameProperty) -> Option<NameProperty> {
    match property {
        NameProperty::LocalizedName => Some(NameProperty::InputModeId),
        NameProperty::InputModeId => Some(NameProperty::FirstLanguage),
        NameProperty::FirstLanguage => Some(NameProperty::Kind),
        NameProperty::Kind => None,
    }
}

/// The next step of the search for the name of a source, `read` being the property
/// that was last read. One that the source has ends the search; one that is missing
/// has the next one read, and without any of them the name is `Unknown`.
pub open spec fn name_step(source: SourceView, read: Option<NameProperty>) -> NameStepView {
    match read {
        None => NameStepView::Read(NameProperty::LocalizedName),
        Some(property) => match property_of(source, property) {
            Some(value) => NameStepView::Named(
                if property is Kind {
                    "Unknown ("@ + value + ")"@
                } else {
                    value
                },
            ),
            None => match property_after(property) {
                Some(next) => NameStepView::Read(next),
                None => NameStepView::Named("Unknown"@),
            },
        },
    }
}

/// What came of the wish to select a source.
#[derive(Debug, Clone, Copy, PartialEq, Eq, Structural)]
pub enum Switch {
    /// The system gave no list of sources.
    NoList,
    /// No source has that identifier.
    NotFound,
    /// The source to select is the one at this position of the system's list.
    Select(usize),
}

/// The sources of the system's list, without those that it holds no value for;
/// `None` where the system gave no list.
pub fn all_input_sources(list: Option<Vec<Option<InputSource>>>) -> (sources: Option<
    Vec<InputSource>,
>)
    ensures
        match list {
            Some(items) => sources matches Some(found) && found@ == present(items@),
            None => sources is None,
        },
{
    match list {
        Some(items) => {
            let ghost all = items@;
            let mut found: Vec<InputSource> = Vec::new();
            for item in it: items
                invariant
                    it.seq() == all,
                    found@ == present(all.take(it.index())),
            {
                proof {
                    let more = all.take(it.index() + 1);
                    assert(more.drop_last() =~= all.take(it.index()));
                    assert(more.last() == item);
                }
                match item {
                    Some(source) => found.push(source),
                    None => {},
                }
            }
            proof {
                assert(all.take(all.len() as int) =~= all);
            }
            Some(found)
        },
        None => None,
    }
}

/// The identifier of the selected source, `Unknown` where the system tells of no
/// selected source or of none with an identifier.
pub fn get_current_input_source(source: Option<&InputSource>) -> (id: String)
    ensures
        id@ == selected_id(
            match source {
                Some(selected) => Some(selected@),
                None => None,
            },
        ),
{
    match source {
        Some(selected) => match &selected.id {
            Some(id) => id.clone(),
            None => "Unknown".to_owned(),
        },
        None => "Unknown".to_owned(),
    }
}

/// Where the first source with the identifier `target` stands.
pub fn find_source_by_id(sources: &Vec<InputSource>, target: &str) -> (at: Option<usize>)
    ensures
        match at {
            Some(i) => first_with_id(views(sources@), target@, i as int),
            None => !has_id(views(sources@), target@),
        },
{
    let wanted: String = target.to_owned();
    let mut i: usize = 0;
    while i < sources.len()
        invariant
            i <= sources@.len(),
            wanted@ == target@,
            forall|j: int| 0 <= j < i ==> (#[trigger] views(sources@)[j]).id != Some(target@),
        decreases sources@.len() - i,
    {
        match &sources[i].id {
            Some(id) => {
                if *id == wanted {
                    return Some(i);
                }
            },
            None => {},
        }
        i += 1;
    }
    None
}

/// What is to be selected so that the source with the identifier `target_id` is;
/// `sources` is `None` where the system gave no list.
pub fn switch_input_source(sources: &Option<Vec<InputSource>>, target_id: &str) -> (switch: Switch)
    ensures
        match sources {
            None => switch is NoList,
            Some(list) => match switch {
                Switch::NoList => false,
                Switch::NotFound => !has_id(views(list@), target_id@),
                Switch::Select(position) => exists|i: int|
                    first_with_id(views(list@), target_id@, i) && (
                    #[trigger] list@[i]).position == position,
            },
        },
{
    match sources {
        None => Switch::NoList,
        Some(list) => match find_source_by_id(list, target_id) {
            Some(i) => {
                proof {
                    assert(first_with_id(views(list@), target_id@, i as int)
                        && list@[i as int].position == list@[i as int].position);
                }
                Switch::Select(list[i].position)
            },
            None => Switch::NotFound,
        },
    }
}

/// The name that a source is shown by.
pub fn source_display_name(source: &InputSource) -> (name: String)
    ensures
        name@ == display_name(source@),
{
    if let Some(name) = &source.localized_name {
        return name.clone();
    }
    if let Some(mode) = &source.input_mode_id {
        return mode.clone();
    }
    if let Some(list) = &source.languages {
        if list.len() > 0 {
            if let Some(language) = &list[0] {
                return language.clone();
            }
        }
    }
    match &source.kind {
        Some(kind) => {
            let mut name: String = "Unknown (".to_owned();
            name.append(kind.as_str());
            name.append(")");
            name
        },
        None => "Unknown".to_owned(),
    }
}

impl InputSource {
    /// What the source has of a property.
    fn property(&self, property: NameProperty) -> (value: Option<&String>)
        ensures
            match value {
                Some(text) => property_of(self@, property) == Some(text@),
                None => property_of(self@, property) is None,
            },
    {
        match property {
            NameProperty::LocalizedName => self.localized_name.as_ref(),
            NameProperty::InputModeId => self.input_mode_id.as_ref(),
            NameProperty::FirstLanguage => match &self.languages {
                Some(list) => {
                    if list.len() > 0 {
                        list[0].as_ref()
                    } else {
                        None
                    }
                },
                None => None,
            },
            NameProperty::Kind => self.kind.as_ref(),
        }
    }

    /// Records what was read of a property; `None` where the source does not have
    /// it.
    pub fn record(&mut self, property: NameProperty, value: Option<String>)
        ensures
            final(self)@ == recorded(old(self)@, property, opt_text(value)),
    {
        match property {
            NameProperty::LocalizedName => {
                self.localized_name = value;
            },
            NameProperty::InputModeId => {
                self.input_mode_id = value;
            },
            NameProperty::FirstLanguage => {
                let mut list: Vec<Option<String>> = Vec::new();
                list.push(value);
                proof {
                    assert(list@.map_values(|item: Option<String>| opt_text(item)) =~= seq![
                        opt_text(value),
                    ]);
                }
                self.languages = Some(list);
            },
            NameProperty::Kind => {
                self.kind = value;
            },
        }
    }
}

/// The next step of the search for the name of a source, of which `read` was read
/// last; the search begins with `None`.
pub fn next_name_step(source: &InputSource, read: Option<NameProperty>) -> (step: NameStep)
    ensures
        step@ == name_step(source@, read),
{
    let property: NameProperty = match read {
        None => {
            return NameStep::Read(NameProperty::LocalizedName);
        },
        Some(property) => property,
    };
    match source.property(property) {
        Some(value) => match property {
            NameProperty::Kind => {
                let mut name: String = "Unknown (".to_owned();
                name.append(value.as_str());
                name.append(")");
                NameStep::Named(name)
            },
            _ => NameStep::Named(value.clone()),
        },
        None => match property {
            NameProperty::LocalizedName => NameStep::Read(NameProperty::InputModeId),
            NameProperty::InputModeId => NameStep::Read(NameProperty::FirstLanguage),
            NameProperty::FirstLanguage => NameStep::Read(NameProperty::Kind),
            NameProperty::Kind => NameStep::Named("Unknown".to_owned()),
        },
    }
}

/// The line that shows a source.
fn show_source(source: &InputSource) -> (line: String)
    ensures
        line@ == source_line(source@),
{
    let mut line: String = match &source.id {
        Some(id) => id.clone(),
        None => "(no id)".to_owned(),
    };
    let name: String = source_display_name(source);
    line.append(" - ");
    line.append(name.as_str());
    line
}

/// The lines that show what sources there are; `sources` is `None` where the
/// system gave no list.
pub fn available_input_sources(sources: &Option<Vec<InputSource>>) -> (lines: Vec<String>)
    ensures
        texts(lines@) == listing(
            match sources {
                Some(list) => Some(views(list@)),
                None => None,
            },
        ),
{
    let mut lines: Vec<String> = Vec::new();
    match sources {
        None => {
            lines.push("Failed to get input source list".to_owned());
            proof {
                assert(texts(lines@) =~= seq!["Failed to get input source list"@]);
            }
        },
        Some(list) => {
            lines.push("Available input sources:".to_owned());
            let ghost wanted = listing(Some(views(list@)));
            let mut i: usize = 0;
            while i < list.len()
                invariant
                    i <= list@.len(),
                    wanted == listing(Some(views(list@))),
                    wanted.len() == list@.len() + 1,
                    texts(lines@) == wanted.take(i + 1),
                decreases list@.len() - i,
            {
                let line: String = show_source(&list[i]);
                proof {
                    assert(wanted[i + 1] == line@);
                    assert(texts(lines@.push(line)) =~= texts(lines@).push(line@));
                    assert(wanted.take(i + 1).push(line@) =~= wanted.take(i + 2));
                }
                lines.push(line);
                i += 1;
            }
            proof {
                assert(wanted.take(wanted.len() as int) =~= wanted);
            }
        },
    }
    lines
}

/// A source that the system's list holds is found by its identifier, and selected
/// unless another before it has the same one.
pub proof fn law_a_listed_source_is_found(sources: Seq<SourceView>, i: int)
    requires
        0 <= i < sources.len(),
        sources[i].id is Some,
    ensures
        has_id(sources, sources[i].id->0),
        exists|k: int| #[trigger] first_with_id(sources, sources[i].id->0, k) && k <= i,
    decreases i,
{
    let target = sources[i].id->0;
    if forall|j: int| 0 <= j < i ==> (#[trigger] sources[j]).id != Some(target) {
        assert(first_with_id(sources, target, i));
    } else {
        let j = choose|j: int| 0 <= j < i && (#[trigger] sources[j]).id == Some(target);
        law_a_listed_source_is_found(sources, j);
    }
}

/// At most one source is the first with an identifier, and there is one exactly
/// where some source has that identifier.
pub proof fn law_the_selected_source_is_determined(
    sources: Seq<SourceView>,
    target: Seq<char>,
    i: int,
    j: int,
)
    ensures
        first_with_id(sources, target, i) && first_with_id(sources, target, j) ==> i == j,
        has_id(sources, target) <==> exists|k: int| first_with_id(sources, target, k),
{
    if has_id(sources, target) {
        let k = choose|k: int| 0 <= k < sources.len() && (#[trigger] sources[k]).id == Some(target);
        law_a_listed_source_is_found(sources, k);
    }
}

/// The sources of the system's list that hold a value are kept in their order,
/// each once.
pub proof fn law_present_items_are_kept<T>(list: Seq<Option<T>>, more: Seq<Option<T>>)
    ensures
        present(list + more) == present(list) + present(more),
        forall|item: T| present(list).contains(item) <==> list.contains(Some(item)),
    decreases list.len() + more.len(),
{
    if more.len() > 0 {
        law_present_items_are_kept(list, more.drop_last());
        assert((list + more).drop_last() =~= list + more.drop_last());
        assert(present(list + more) =~= present(list) + present(more));
    } else {
        assert(list + more =~= list);
        assert(present(list + more) =~= present(list) + present(more));
        if list.len() > 0 {
            let front = list.drop_last();
            law_present_items_are_kept(front, Seq::empty());
            assert forall|item: T| present(list).contains(item) <==> list.contains(
                Some(item),
            ) by {
                if present(list).contains(item) {
                    let k = choose|k: int|
                        0 <= k < present(list).len() && present(list)[k] == item;
                    if k < present(front).len() {
                        assert(present(front)[k] == item);
                        assert(present(front).contains(item));
                        let m = choose|m: int| 0 <= m < front.len() && front[m] == Some(item);
                        assert(list[m] == Some(item));
                    } else {
                        assert(list[list.len() - 1] == Some(item));
                    }
                }
                if list.contains(Some(item)) {
                    let m = choose|m: int| 0 <= m < list.len() && list[m] == Some(item);
                    if m < front.len() {
                        assert(front[m] == Some(item));
                        assert(front.contains(Some(item)));
                        assert(present(front).contains(item));
                        let k = choose|k: int|
                            0 <= k < present(front).len() && present(front)[k] == item;
                        assert(present(list)[k] == item);
                    } else {
                        assert(present(list)[present(list).len() - 1] == item);
                    }
                }
            }
        }
    }
}

/// The list of sources shows every source, one to a line and in its order, by its
/// localized name where it has one.
pub proof fn law_every_source_is_shown(sources: Seq<SourceView>, i: int)
    requires
        0 <= i < sources.len(),
    ensures
        listing(Some(sources)).len() == sources.len() + 1,
        listing(Some(sources))[i + 1] == source_line(sources[i]),
        sources[i].id is Some && sources[i].localized_name is Some ==> listing(Some(sources))[i + 1]
            == sources[i].id->0 + " - "@ + sources[i].localized_name->0,
{
}

/// A source of which nothing was read that it can be shown by.
pub open spec fn unnamed(source: SourceView) -> SourceView {
    SourceView {
        localized_name: None,
        input_mode_id: None,
        languages: None,
        kind: None,
        ..source
    }
}

/// The first `steps` steps of the search for the name of `source`, up to the last,
/// from where `known` is recorded and `read` was read last.
pub open spec fn name_run(
    source: SourceView,
    known: SourceView,
    read: Option<NameProperty>,
    steps: nat,
) -> Seq<NameStepView>
    decreases steps,
{
    if steps == 0 {
        Seq::empty()
    } else {
        let step = name_step(known, read);
        match step {
            NameStepView::Named(_) => seq![step],
            NameStepView::Read(property) => seq![step] + name_run(
                source,
                recorded(known, property, property_of(source, property)),
                Some(property),
                (steps - 1) as nat,
            ),
        }
    }
}

/// What is recorded of `source` after as many steps.
pub open spec fn known_after(
    source: SourceView,
    known: SourceView,
    read: Option<NameProperty>,
    steps: nat,
) -> SourceView
    decreases steps,
{
    if steps == 0 {
        known
    } else {
        match name_step(known, read) {
            NameStepView::Named(_) => known,
            NameStepView::Read(property) => known_after(
                source,
                recorded(known, property, property_of(source, property)),
                Some(property),
                (steps - 1) as nat,
            ),
        }
    }
}

/// The properties that a source can be shown by, in the order of the search.
pub open spec fn name_properties() -> Seq<NameProperty> {
    seq![
        NameProperty::LocalizedName,
        NameProperty::InputModeId,
        NameProperty::FirstLanguage,
        NameProperty::Kind,
    ]
}

/// All steps of the search for the name of a source.
pub open spec fn name_search(source: SourceView) -> Seq<NameStepView> {
    name_run(source, unnamed(source), None, 5)
}

/// What is recorded of a source once its name is found.
pub open spec fn known_when_named(source: SourceView) -> SourceView {
    known_after(source, unnamed(source), None, 5)
}

/// Every search for a name ends: five steps are enough, and a longer run is no
/// different. It ends with the name that the whole source is shown by, and what was
/// recorded on the way shows the source just as all of it would.
pub proof fn law_the_name_search_ends(source: SourceView, steps: nat)
    requires
        steps >= 5,
    ensures
        2 <= name_search(source).len() <= 5,
        name_search(source).last() == NameStepView::Named(display_name(source)),
        name_run(source, unnamed(source), None, steps) == name_search(source),
        known_after(source, unnamed(source), None, steps) == known_when_named(source),
        known_when_named(source).position == source.position,
        known_when_named(source).id == source.id,
        display_name(known_when_named(source)) == display_name(source),
        source_line(known_when_named(source)) == source_line(source),
{
    reveal_with_fuel(name_run, 6);
    reveal_with_fuel(known_after, 6);
    assert(name_run(source, unnamed(source), None, steps) =~= name_search(source));
}

/// The search for a name reads no more than it needs: the localized name, and each
/// of the input mode, the first language and the kind, in this order, exactly where
/// all before it are missing. A localized name is the only property that is read.
pub proof fn law_the_name_search_is_lazy(source: SourceView)
    ensures
        ({
            let search = name_search(source);
            &&& search[0] == NameStepView::Read(NameProperty::LocalizedName)
            &&& source.localized_name matches Some(name) ==> search == seq![
                NameStepView::Read(NameProperty::LocalizedName),
                NameStepView::Named(name),
            ]
            &&& search.contains(NameStepView::Read(NameProperty::InputModeId))
                <==> source.localized_name is None
            &&& search.contains(NameStepView::Read(NameProperty::FirstLanguage))
                <==> source.localized_name is None && source.input_mode_id is None
            &&& search.contains(NameStepView::Read(NameProperty::Kind))
                <==> source.localized_name is None && source.input_mode_id is None
                && first_language(source) is None
            &&& forall|i: int|
                0 <= i < search.len() - 1 ==> #[trigger] search[i] == NameStepView::Read(
                    name_properties()[i],
                )
        }),
{
    reveal_with_fuel(name_run, 6);
    let search = name_search(source);
    if let Some(name) = source.localized_name {
        assert(search =~= seq![
            NameStepView::Read(NameProperty::LocalizedName),
            NameStepView::Named(name),
        ]);
    } else {
        assert(search[1] == NameStepView::Read(NameProperty::InputModeId));
        if source.input_mode_id is None {
            assert(search[2] == NameStepView::Read(NameProperty::FirstLanguage));
            if first_language(source) is None {
                assert(search[3] == NameStepView::Read(NameProperty::Kind));
            }
        }
    }
}

/// The list of sources is the same whether all of each source is read or only what
/// the search for its name reads.
pub proof fn law_the_list_needs_no_more_than_the_names(sources: Seq<SourceView>)
    ensures
        listing(Some(sources.map_values(|source: SourceView| known_when_named(source))))
            == listing(Some(sources)),
{
    let known = sources.map_values(|source: SourceView| known_when_named(source));
    assert forall|i: int| 0 <= i < sources.len() implies source_line(#[trigger] known[i])
        == source_line(sources[i]) by {
        law_the_name_search_ends(sources[i], 5);
    }
    assert(listing(Some(known)) =~= listing(Some(sources)));
}

/// Each item of a list that is there carries its own place in it.
pub open spec fn positioned(list: Seq<Option<InputSource>>) -> bool {
    forall|i: int|
        0 <= i < list.len() ==> (#[trigger] list[i] matches Some(source) ==> source.position == i)
}

/// The places of the items that are there grow along the list.
proof fn positions_grow(list: Seq<Option<InputSource>>)
    requires
        positioned(list),
    ensures
        forall|a: int|
            0 <= a < present(list).len() ==> (#[trigger] present(list)[a]).position < list.len(),
        forall|a: int, b: int|
            0 <= a < b < present(list).len() ==> (#[trigger] present(list)[a]).position < (
            #[trigger] present(list)[b]).position,
    decreases list.len(),
{
    if list.len() > 0 {
        let front = list.drop_last();
        assert forall|i: int| 0 <= i < front.len() implies (#[trigger] front[i] matches Some(
            source,
        ) ==> source.position == i) by {
            assert(list[i] == front[i]);
        }
        positions_grow(front);
        assert(list[list.len() - 1] == list.last());
    }
}

/// Where each item of the system's list carries its own place, the place that is to
/// be selected for an identifier is that of a source in the list with that
/// identifier, the first one.
pub proof fn law_the_selected_position_is_the_sources(
    list: Seq<Option<InputSource>>,
    target: Seq<char>,
    i: int,
)
    requires
        positioned(list),
        first_with_id(views(present(list)), target, i),
    ensures
        ({
            let position = present(list)[i].position as int;
            &&& 0 <= position < list.len()
            &&& list[position] == Some(present(list)[i])
            &&& list[position] matches Some(source) && source@.id == Some(target)
            &&& forall|j: int|
                0 <= j < position ==> (#[trigger] list[j] matches Some(source) ==> source@.id
                    != Some(target))
        }),
{
    let kept = present(list);
    let position = kept[i].position as int;
    positions_grow(list);
    law_present_items_are_kept(list, Seq::empty());
    assert(views(kept)[i] == kept[i]@);
    assert(kept.contains(kept[i]));
    let k = choose|k: int| 0 <= k < list.len() && list[k] == Some(kept[i]);
    assert(k == position);
    assert forall|j: int| 0 <= j < position implies (#[trigger] list[j] matches Some(source)
        ==> source@.id != Some(target)) by {
        if let Some(source) = list[j] {
            assert(list.contains(Some(source)));
            assert(kept.contains(source));
            let m = choose|m: int| 0 <= m < kept.len() && kept[m] == source;
            assert(kept[m].position == j);
            if m > i {
                assert(kept[i].position < kept[m].position);
            }
            assert(m < i);
            assert(views(kept)[m].id != Some(target));
        }
    }
}

/// The contents of a source are what stands in it.
pub proof fn law_contents_of_a_source(source: InputSource)
    ensures
        source@.position == source.position,
        source.id matches Some(s) ==> source@.id == Some(s@),
        source.id is None ==> source@.id is None,
        source.localized_name matches Some(s) ==> source@.localized_name == Some(s@),
        source.localized_name is None ==> source@.localized_name is None,
        source.input_mode_id matches Some(s) ==> source@.input_mode_id == Some(s@),
        source.input_mode_id is None ==> source@.input_mode_id is None,
        source.kind matches Some(s) ==> source@.kind == Some(s@),
        source.kind is None ==> source@.kind is None,
        source.languages is None ==> source@.languages is None,
        source.languages matches Some(list) ==> {
            &&& source@.languages matches Some(seen)
            &&& seen.len() == list@.len()
            &&& forall|i: int|
                0 <= i < list@.len() ==> #[trigger] seen[i] == (match list@[i] {
                    Some(s) => Some(s@),
                    None => None,
                })
        },
{
}

/// A source is shown by the first that it has of its localized name, its input mode,
/// its first language and its kind, and as unknown without any.
pub proof fn law_the_first_name_is_shown(source: InputSource, name: String)
    requires
        call_ensures(source_display_name, (&source,), name),
    ensures
        name@ == display_name(source@),
        source.localized_name matches Some(s) ==> name@ == s@,
        source.localized_name is None ==> (source.input_mode_id matches Some(s) ==> name@ == s@),
        source.localized_name is None && source.input_mode_id is None ==> {
            &&& source.languages matches Some(list) ==> (list@.len() > 0 && list@[0] is Some
                ==> name@ == list@[0]->0@)
            &&& source.languages is None || source.languages->0@.len() == 0
                || source.languages->0@[0] is None ==> {
                &&& source.kind matches Some(s) ==> name@ == "Unknown ("@ + s@ + ")"@
                &&& source.kind is None ==> name@ == "Unknown"@
            }
        },
{
    law_contents_of_a_source(source);
}

/// The list of sources has the heading first and then one line for each source, its
/// identifier and its name, whatever their number. Where the system gave no list, there
/// is one line, which says so.
pub proof fn law_a_list_has_its_heading(sources: Option<Vec<InputSource>>, lines: Vec<String>)
    requires
        call_ensures(available_input_sources, (&sources,), lines),
    ensures
        sources is None ==> lines@.len() == 1 && lines@[0]@ == "Failed to get input source list"@,
        sources matches Some(list) ==> {
            &&& lines@.len() == list@.len() + 1
            &&& lines@[0]@ == "Available input sources:"@
            &&& forall|i: int|
                0 <= i < list@.len() ==> (#[trigger] lines@[i + 1])@ == (match list@[i].id {
                    Some(id) => id@,
                    None => "(no id)"@,
                }) + " - "@ + display_name(list@[i]@)
        },
{
    law_texts_are_those_of_the_strings(lines@, None);
    assert(texts(lines@)[0] == lines@[0]@);
    if let Some(list) = sources {
        law_views_are_those_of_the_sources(list@);
        assert forall|i: int| 0 <= i < list@.len() implies (#[trigger] lines@[i + 1])@ == (
        match list@[i].id {
            Some(id) => id@,
            None => "(no id)"@,
        }) + " - "@ + display_name(list@[i]@) by {
            assert(texts(lines@)[i + 1] == lines@[i + 1]@);
            assert(views(list@)[i] == list@[i]@);
            law_every_source_is_shown(views(list@), i);
            law_contents_of_a_source(list@[i]);
        }
    }
}

/// The contents of a list are those of its sources, one for each and in their order.
pub proof fn law_views_are_those_of_the_sources(list: Seq<InputSource>)
    ensures
        views(list).len() == list.len(),
        forall|i: int| 0 <= i < list.len() ==> #[trigger] views(list)[i] == list[i]@,
{
}

/// The selected identifier is that of the selected source, and `Unknown` without one.
pub proof fn law_the_selected_identifier(source: Option<&InputSource>, id: String)
    requires
        call_ensures(get_current_input_source, (source,), id),
    ensures
        source is Some && source->0.id is Some ==> id@ == source->0.id->0@,
        source is None || source->0.id is None ==> id@ == "Unknown"@,
{
}

/// The source that is found is one with the identifier, and no source before it has
/// that identifier; none is found exactly where no source has it.
pub proof fn law_the_found_source_has_the_identifier(
    list: Seq<InputSource>,
    target: Seq<char>,
    i: int,
)
    ensures
        first_with_id(views(list), target, i) <==> {
            &&& 0 <= i < list.len()
            &&& list[i].id is Some
            &&& list[i].id->0@ == target
            &&& forall|j: int|
                0 <= j < i ==> (#[trigger] list[j]).id is None || list[j].id->0@ != target
        },
        has_id(views(list), target) <==> exists|j: int|
            0 <= j < list.len() && (#[trigger] list[j]).id is Some && list[j].id->0@ == target,
{
    let seen = views(list);
    law_views_are_those_of_the_sources(list);
    assert forall|j: int| 0 <= j < list.len() implies (#[trigger] seen[j].id == Some(target)
        <==> list[j].id is Some && list[j].id->0@ == target) by {
        law_contents_of_a_source(list[j]);
    }
    if first_with_id(seen, target, i) {
        assert forall|j: int| 0 <= j < i implies (#[trigger] list[j]).id is None
            || list[j].id->0@ != target by {
            assert(seen[j].id != Some(target));
        }
    }
    if has_id(seen, target) {
        let j = choose|j: int| 0 <= j < seen.len() && (#[trigger] seen[j]).id == Some(target);
        assert(list[j].id is Some && list[j].id->0@ == target);
    }
    if exists|j: int|
        0 <= j < list.len() && (#[trigger] list[j]).id is Some && list[j].id->0@ == target {
        let j = choose|j: int|
            0 <= j < list.len() && (#[trigger] list[j]).id is Some && list[j].id->0@ == target;
        assert(seen[j].id == Some(target));
    }
}

/// A search finds the first source with the identifier, and to select it is to select
/// the position that it carries. Without such a source nothing is found, and without a
/// list nothing is searched.
pub proof fn law_the_first_source_is_selected(
    list: Vec<InputSource>,
    target: &str,
    at: Option<usize>,
    switch: Switch,
    unlisted: Switch,
)
    requires
        call_ensures(find_source_by_id, (&list, target), at),
        call_ensures(switch_input_source, (&Some(list), target), switch),
        call_ensures(switch_input_source, (&None::<Vec<InputSource>>, target), unlisted),
    ensures
        unlisted is NoList,
        !(switch is NoList),
        at is Some <==> exists|j: int|
            0 <= j < list@.len() && (#[trigger] list@[j]).id is Some && list@[j].id->0@ == target@,
        at matches Some(i) ==> {
            &&& i < list@.len()
            &&& list@[i as int].id is Some
            &&& list@[i as int].id->0@ == target@
            &&& forall|j: int|
                0 <= j < i ==> (#[trigger] list@[j]).id is None || list@[j].id->0@ != target@
            &&& switch == Switch::Select(list@[i as int].position)
        },
        at is None ==> switch is NotFound,
{
    let seen = views(list@);
    law_the_found_source_has_the_identifier(list@, target@, 0);
    if let Some(i) = at {
        law_the_found_source_has_the_identifier(list@, target@, i as int);
        assert(has_id(seen, target@)) by {
            assert(seen[i as int].id == Some(target@));
        }
        if let Switch::Select(position) = switch {
            let k = choose|k: int|
                first_with_id(seen, target@, k) && (#[trigger] list@[k]).position == position;
            law_the_selected_source_is_determined(seen, target@, i as int, k);
        }
    } else if let Switch::Select(position) = switch {
        let k = choose|k: int|
            first_with_id(seen, target@, k) && (#[trigger] list@[k]).position == position;
        law_the_selected_source_is_determined(seen, target@, k, k);
    }
}

/// Of a list that the system gave, what is there is kept; of none, there is none.
pub proof fn law_a_given_list_is_kept(
    list: Option<Vec<Option<InputSource>>>,
    sources: Option<Vec<InputSource>>,
)
    requires
        call_ensures(all_input_sources, (list,), sources),
    ensures
        list is None <==> sources is None,
        list is Some ==> sources->0@ == present(list->0@),
{
}

/// An item that is there is kept once, and one that is missing is left out.
pub proof fn law_one_item_is_kept_or_left_out<T>(item: T)
    ensures
        present(Seq::<Option<T>>::empty()) == Seq::<T>::empty(),
        present(seq![Some(item)]) == seq![item],
        present(seq![None::<T>]) == Seq::<T>::empty(),
{
    reveal_with_fuel(present, 2);
    assert(seq![Some(item)].drop_last() =~= Seq::<Option<T>>::empty());
    assert(seq![None::<T>].drop_last() =~= Seq::<Option<T>>::empty());
    assert(present(seq![Some(item)]) =~= seq![item]);
}

/// The search for a name begins with the localized name. A property that was read and
/// is there is the name, in which a kind comes as unknown; one that is missing has the
/// next one read, and after the last the source is unknown.
pub proof fn law_a_name_step_looks_at_what_was_read(
    source: InputSource,
    read: Option<NameProperty>,
    step: NameStep,
)
    requires
        call_ensures(next_name_step, (&source, read), step),
    ensures
        read is None ==> step == NameStep::Read(NameProperty::LocalizedName),
        read == Some(NameProperty::LocalizedName) ==> match source.localized_name {
            Some(s) => step matches NameStep::Named(n) && n@ == s@,
            None => step == NameStep::Read(NameProperty::InputModeId),
        },
        read == Some(NameProperty::InputModeId) ==> match source.input_mode_id {
            Some(s) => step matches NameStep::Named(n) && n@ == s@,
            None => step == NameStep::Read(NameProperty::FirstLanguage),
        },
        read == Some(NameProperty::FirstLanguage) ==> if source.languages is Some
            && source.languages->0@.len() > 0 && source.languages->0@[0] is Some {
            step matches NameStep::Named(n) && n@ == source.languages->0@[0]->0@
        } else {
            step == NameStep::Read(NameProperty::Kind)
        },
        read == Some(NameProperty::Kind) ==> match source.kind {
            Some(s) => step matches NameStep::Named(n) && n@ == "Unknown ("@ + s@ + ")"@,
            None => step matches NameStep::Named(n) && n@ == "Unknown"@,
        },
{
    law_contents_of_a_source(source);
}

/// Recording a property gives the source what was read of it, and leaves all others as
/// they are.
pub proof fn law_recording_touches_one_property(
    before: InputSource,
    property: NameProperty,
    value: Option<String>,
    after: InputSource,
)
    requires
        after@ == recorded(before@, property, opt_text(value)),
    ensures
        ({
            let read = match value {
                Some(s) => Some(s@),
                None => None,
            };
            &&& after.position == before.position
            &&& after@.id == before@.id
            &&& after@.localized_name == (if property == NameProperty::LocalizedName {
                read
            } else {
                before@.localized_name
            })
            &&& after@.input_mode_id == (if property == NameProperty::InputModeId {
                read
            } else {
                before@.input_mode_id
            })
            &&& after@.languages == (if property == NameProperty::FirstLanguage {
                Some(seq![read])
            } else {
                before@.languages
            })
            &&& after@.kind == (if property == NameProperty::Kind {
                read
            } else {
                before@.kind
            })
        }),
{
}

} // verus!
