use iswitch::sources::{
    all_input_sources, available_input_sources, find_source_by_id, get_current_input_source,
    next_name_step, source_display_name, switch_input_source, InputSource, NameProperty, NameStep,
    Switch,
};

fn source(position: usize, id: Option<&str>) -> InputSource {
    InputSource {
        position,
        id: id.map(|s| s.to_string()),
        localized_name: None,
        input_mode_id: None,
        languages: None,
        kind: None,
    }
}

#[test]
fn missing_items_are_left_out() {
    assert!(all_input_sources(None).is_none());
    let list = vec![Some(source(0, Some("a"))), None, Some(source(2, Some("b"))), None];
    let found = all_input_sources(Some(list)).unwrap();
    assert_eq!(found.len(), 2);
    assert_eq!(found[0].position, 0);
    assert_eq!(found[1].position, 2);
    assert!(all_input_sources(Some(vec![None])).unwrap().is_empty());
}

#[test]
fn identifier_of_the_selected_source() {
    assert_eq!(get_current_input_source(None), "Unknown");
    assert_eq!(get_current_input_source(Some(&source(0, None))), "Unknown");
    assert_eq!(get_current_input_source(Some(&source(0, Some("a")))), "a");
}

#[test]
fn the_first_source_with_an_identifier_is_found() {
    let list = vec![source(7, None), source(5, Some("a")), source(3, Some("b")), source(1, Some("a"))];
    assert_eq!(find_source_by_id(&list, "a"), Some(1));
    assert_eq!(find_source_by_id(&list, "b"), Some(2));
    assert_eq!(find_source_by_id(&list, "A"), None);
    assert_eq!(find_source_by_id(&list, ""), None);
    assert_eq!(find_source_by_id(&Vec::new(), "a"), None);
}

#[test]
fn switching() {
    assert_eq!(switch_input_source(&None, "a"), Switch::NoList);
    let list = Some(vec![source(7, None), source(5, Some("a")), source(1, Some("a"))]);
    assert_eq!(switch_input_source(&list, "a"), Switch::Select(5));
    assert_eq!(switch_input_source(&list, "b"), Switch::NotFound);
}

#[test]
fn names_fall_back_in_order() {
    let mut s = source(0, None);
    assert_eq!(source_display_name(&s), "Unknown");
    s.kind = Some("TISTypeKeyboardLayout".to_string());
    assert_eq!(source_display_name(&s), "Unknown (TISTypeKeyboardLayout)");
    s.languages = Some(vec![]);
    assert_eq!(source_display_name(&s), "Unknown (TISTypeKeyboardLayout)");
    s.languages = Some(vec![None, Some("en".to_string())]);
    assert_eq!(source_display_name(&s), "Unknown (TISTypeKeyboardLayout)");
    s.languages = Some(vec![Some("de".to_string()), Some("en".to_string())]);
    assert_eq!(source_display_name(&s), "de");
    s.input_mode_id = Some("mode".to_string());
    assert_eq!(source_display_name(&s), "mode");
    s.localized_name = Some("ABC".to_string());
    assert_eq!(source_display_name(&s), "ABC");
}

#[test]
fn the_list_of_sources() {
    assert_eq!(available_input_sources(&None), vec!["Failed to get input source list"]);
    assert_eq!(available_input_sources(&Some(vec![])), vec!["Available input sources:"]);
    let mut named = source(0, Some("com.apple.keylayout.ABC"));
    named.localized_name = Some("ABC".to_string());
    assert_eq!(
        available_input_sources(&Some(vec![named, source(1, None)])),
        vec!["Available input sources:", "com.apple.keylayout.ABC - ABC", "(no id) - Unknown"]
    );
}

/// Searches for a name; gives it with the properties that were read on the way and
/// what was recorded.
fn search(
    localized_name: Option<&str>,
    input_mode_id: Option<&str>,
    first_language: Option<&str>,
    kind: Option<&str>,
) -> (String, Vec<NameProperty>, InputSource) {
    let mut known = source(0, Some("id"));
    let mut reads = Vec::new();
    loop {
        match next_name_step(&known, reads.last().copied()) {
            NameStep::Named(name) => return (name, reads, known),
            NameStep::Read(property) => {
                let value = match property {
                    NameProperty::LocalizedName => localized_name,
                    NameProperty::InputModeId => input_mode_id,
                    NameProperty::FirstLanguage => first_language,
                    NameProperty::Kind => kind,
                };
                known.record(property, value.map(|s| s.to_string()));
                reads.push(property);
            }
        }
    }
}

#[test]
fn a_localized_name_is_all_that_is_read() {
    for name in ["ABC", ""] {
        let (found, reads, known) = search(Some(name), Some("mode"), Some("en"), Some("kind"));
        assert_eq!(found, name);
        assert_eq!(reads, vec![NameProperty::LocalizedName]);
        assert_eq!(source_display_name(&known), name);
    }
}

#[test]
fn properties_are_read_only_where_those_before_are_missing() {
    let (found, reads, known) = search(None, Some("mode"), Some("en"), Some("kind"));
    assert_eq!(found, "mode");
    assert_eq!(reads, vec![NameProperty::LocalizedName, NameProperty::InputModeId]);
    assert_eq!(source_display_name(&known), "mode");

    let (found, reads, known) = search(None, None, Some("en"), Some("kind"));
    assert_eq!(found, "en");
    assert_eq!(
        reads,
        vec![NameProperty::LocalizedName, NameProperty::InputModeId, NameProperty::FirstLanguage]
    );
    assert_eq!(source_display_name(&known), "en");

    let all = vec![
        NameProperty::LocalizedName,
        NameProperty::InputModeId,
        NameProperty::FirstLanguage,
        NameProperty::Kind,
    ];
    let (found, reads, known) = search(None, None, None, Some("kind"));
    assert_eq!(found, "Unknown (kind)");
    assert_eq!(reads, all);
    assert_eq!(source_display_name(&known), "Unknown (kind)");

    let (found, reads, known) = search(None, None, None, None);
    assert_eq!(found, "Unknown");
    assert_eq!(reads, all);
    assert_eq!(
        available_input_sources(&Some(vec![known])),
        vec!["Available input sources:", "id - Unknown"]
    );
}

#[test]
fn the_selected_position_is_that_of_the_systems_list() {
    let ids = [None, Some("a"), None, Some("b"), Some("a"), Some("b")];
    let list = || -> Vec<Option<InputSource>> {
        ids.iter().enumerate().map(|(i, id)| id.map(|id| source(i, Some(id)))).collect()
    };
    let sources = all_input_sources(Some(list()));
    for (target, position) in [("a", 1), ("b", 3)] {
        assert_eq!(switch_input_source(&sources, target), Switch::Select(position));
        assert_eq!(ids[position], Some(target));
    }
}
