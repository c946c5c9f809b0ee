use std::path::PathBuf;

use cheese_paper::dictionaries::{find_by_name, register, SELECTED_NONE};
use cheese_paper::{AvailableDictionary, SettingsData};

fn dict(folder: &str, name: &str) -> AvailableDictionary {
    AvailableDictionary::new(
        PathBuf::from(format!("{folder}/{name}.dic")),
        PathBuf::from(format!("{folder}/{name}.aff")),
        name.to_string(),
    )
}

#[test]
fn first_dictionary_of_a_name_is_kept() {
    let mut list = Vec::new();
    assert!(register(&mut list, dict("/home/user/dictionaries", "en_US")));
    assert!(register(&mut list, dict("/usr/share/hunspell", "de_DE")));
    assert!(!register(&mut list, dict("/usr/share/hunspell", "en_US")));
    assert_eq!(list.len(), 2);
    assert_eq!(
        list[0].dic_path(),
        &PathBuf::from("/home/user/dictionaries/en_US.dic")
    );
    assert_eq!(find_by_name(&list, "de_DE"), Some(1));
    assert_eq!(find_by_name(&list, "fr_FR"), None);
    assert_eq!(SELECTED_NONE, "<None>");
}

#[test]
fn dictionary_to_load_follows_the_selection() {
    let mut data = SettingsData::new();
    register(&mut data.available_dict, dict("/d", "de_DE"));
    register(&mut data.available_dict, dict("/d", "en_US"));
    data.selected_dictionary.error_message = Some("old error".to_string());
    assert_eq!(data.dictionary_to_load(), Some(1));
    assert!(data.selected_dictionary.error_message.is_none());
    data.selected_dictionary.set_value(Some(String::new()), false);
    assert_eq!(data.dictionary_to_load(), None);
    data.selected_dictionary.set_value(Some("fr_FR".to_string()), true);
    assert_eq!(data.dictionary_to_load(), None);
}
