use cheese_paper::settings::need_processing;
use cheese_paper::setting::Setting;
use cheese_paper::toml_doc::TomlEntry;
use cheese_paper::{SettingsData, ThemeSelection};
use toml_edit::DocumentMut;

#[test]
fn value_precedence() {
    let mut s: Setting<bool> = Setting::transparent(true);
    assert_eq!(*s.get_value(), true);
    s.set_value(Some(false), false);
    assert_eq!(*s.get_value(), false);
    s.set_value(Some(true), true);
    assert_eq!(*s.get_value(), true);
    s.reset_value(true);
    assert_eq!(*s.get_value(), false);
    s.reset_value(false);
    assert_eq!(*s.get_value(), true);
    assert!(s.modified());
}

#[test]
fn update_moves_interface_value() {
    let mut s: Setting<String> = Setting::transparent("en_US".to_string());
    s.interface_value = "fr_FR".to_string();
    s.update_value(false);
    assert_eq!(s.get_value(), "fr_FR");
    assert!(s.modified());
    assert_eq!(s.pl_interface_value, "fr_FR");
    s.clear_modified();
    // a second update with the same entry changes nothing
    s.update_value(false);
    assert!(!s.modified());
    assert_eq!(s.get_value(), "fr_FR");
}

#[test]
fn update_same_value_is_not_modified() {
    let mut s: Setting<bool> = Setting::transparent(true);
    s.update_value(false);
    assert!(!s.modified());
    assert!(s.value(false).is_none());
}

#[test]
fn load_reads_known_keys() {
    let doc: DocumentMut = r#"
reopen_last = false
indent_line_start = true
highlight_multiple_spaces = "yes"
selected_dictionary = "de_DE"
selected_theme = 2
"#
    .parse()
    .unwrap();
    let mut data = SettingsData::new();
    data.load(&doc, false);
    assert_eq!(*data.reopen_last.get_value(), false);
    assert_eq!(*data.indent_line_start.get_value(), true);
    // wrong kind: left at the default
    assert_eq!(*data.highlight_multiple_spaces.get_value(), true);
    assert!(data.highlight_multiple_spaces.value(false).is_none());
    assert_eq!(data.selected_dictionary.get_value(), "de_DE");
    assert_eq!(data.selected_theme, ThemeSelection::Preset(2));
}

#[test]
fn theme_table_takes_the_place_of_selection() {
    let doc: DocumentMut = "selected_theme = \"light\"\n[theme]\nname = \"x\"\n"
        .parse()
        .unwrap();
    let mut data = SettingsData::new();
    data.load(&doc, false);
    assert_eq!(data.selected_theme, ThemeSelection::Default);
}

#[test]
fn project_local_load_overrides() {
    let global: DocumentMut = "highlight_multiple_spaces = false\n".parse().unwrap();
    let local: DocumentMut = "highlight_multiple_spaces = true\n".parse().unwrap();
    let mut data = SettingsData::new();
    data.load(&global, false);
    data.load(&local, true);
    assert_eq!(*data.highlight_multiple_spaces.get_value(), true);
    assert_eq!(*data.highlight_multiple_spaces.value(false), Some(false));
}

#[test]
fn save_writes_and_removes() {
    let mut doc: DocumentMut = "reopen_last = true\nproject_name = \"keep me\"\n"
        .parse()
        .unwrap();
    let mut data = SettingsData::new();
    data.indent_line_start.interface_value = true;
    data.update_values(false);
    data.selected_theme = ThemeSelection::Random;
    let modified = data.save(&mut doc, false);
    assert!(modified);
    assert_eq!(doc.get("indent_line_start").and_then(|i| i.as_bool()), Some(true));
    assert!(doc.get("reopen_last").is_none());
    assert_eq!(doc.get("selected_theme").and_then(|i| i.as_str()), Some("random"));
    assert_eq!(doc.get("project_name").and_then(|i| i.as_str()), Some("keep me"));
    // nothing changed since: a second save reports no change
    assert!(!data.save(&mut doc, false));
}

#[test]
fn saved_settings_load_back() {
    let mut data = SettingsData::new();
    data.reopen_last.set_value(Some(false), false);
    data.check_for_updates.set_value(Some(false), false);
    data.selected_dictionary.set_value(Some("fr_FR".to_string()), false);
    data.selected_theme = ThemeSelection::Preset(3);
    let mut doc = DocumentMut::new();
    data.save(&mut doc, false);
    let mut loaded = SettingsData::new();
    loaded.load(&doc, false);
    assert_eq!(*loaded.reopen_last.value(false), Some(false));
    assert_eq!(*loaded.check_for_updates.value(false), Some(false));
    assert_eq!(*loaded.indent_line_start.value(false), None);
    assert_eq!(loaded.selected_dictionary.value(false).as_deref(), Some("fr_FR"));
    assert_eq!(loaded.selected_theme, ThemeSelection::Preset(3));
}

#[test]
fn theme_selection_entries() {
    for (selection, expected) in [
        (ThemeSelection::Default, "default"),
        (ThemeSelection::DefaultLight, "light"),
        (ThemeSelection::Random, "random"),
    ] {
        match selection.to_entry() {
            TomlEntry::Text(t) => assert_eq!(t, expected),
            other => panic!("unexpected entry {other:?}"),
        }
        assert_eq!(ThemeSelection::from_entry(&selection.to_entry()), Ok(selection));
    }
    assert!(matches!(ThemeSelection::Preset(7).to_entry(), TomlEntry::Integer(7)));
    assert_eq!(
        ThemeSelection::from_entry(&TomlEntry::Integer(-1)),
        Err(())
    );
    assert_eq!(
        ThemeSelection::from_entry(&TomlEntry::Text("dark".to_string())),
        Err(())
    );
    assert_eq!(ThemeSelection::from_entry(&TomlEntry::Boolean(true)), Err(()));
}

#[test]
fn highlight_before_punctuation_saved_from_global_value() {
    let mut data = SettingsData::new();
    data.highlight_spaces_before_punctuation.set_value(Some(false), false);
    data.highlight_spaces_before_punctuation.set_value(Some(true), true);
    let mut doc = DocumentMut::new();
    data.save(&mut doc, true);
    assert_eq!(
        doc.get("highlight_spaces_before_punctuation").and_then(|i| i.as_bool()),
        Some(false)
    );
}

#[test]
fn settings_text_is_read() {
    let mut data = SettingsData::new();
    let doc = match data.load_settings_text(Some("reopen_last = false\nselected_dictionary = \"de_DE\"\n")) {
        Ok(doc) => doc,
        Err(err) => panic!("{}", err.message),
    };
    assert_eq!(doc.get("reopen_last").and_then(|i| i.as_bool()), Some(false));
    assert_eq!(*data.reopen_last.value(false), Some(false));
    assert_eq!(data.selected_dictionary.value(false).as_deref(), Some("de_DE"));
}

#[test]
fn missing_settings_file_gives_empty_document() {
    let mut data = SettingsData::new();
    let doc = data.load_settings_text(None).unwrap();
    assert!(doc.is_empty());
    assert_eq!(*data.reopen_last.value(false), None);
    assert!(*data.reopen_last.get_value());
}

#[test]
fn invalid_settings_text_is_refused() {
    let mut data = SettingsData::new();
    match data.load_settings_text(Some("reopen_last = = true")) {
        Ok(_) => panic!("the text is not TOML"),
        Err(err) => assert!(err.message.starts_with("invalid toml settings file: ")),
    }
    assert_eq!(*data.reopen_last.value(false), None);
}

#[test]
fn failed_dictionary_load_is_recorded() {
    let mut data = SettingsData::new();
    let err = cheese_paper::CheeseError::new("no such file".to_string());
    let message = data.dictionary_load_failed("fr_FR", &err);
    assert_eq!(message, "An error was encountered loading the dictionary from fr_FR: no such file");
    assert_eq!(data.selected_dictionary.error_message.as_deref(), Some(message.as_str()));
}

#[test]
fn deadlines_decide_processing() {
    let mut next = Some(10u128);
    assert_eq!(need_processing(5, &mut next, Some(20)), (false, false));
    assert_eq!(next, Some(10));
    assert_eq!(need_processing(10, &mut next, Some(20)), (true, false));
    assert_eq!(next, None);
    // a project-local deadline that has come clears the global one
    let mut next = Some(30u128);
    assert_eq!(need_processing(25, &mut next, Some(20)), (true, true));
    assert_eq!(next, None);
    let mut next = None;
    assert_eq!(need_processing(25, &mut next, None), (false, false));
}
