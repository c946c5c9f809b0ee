use cheese_paper::DictionaryWrapper;

// A few entries of the en_US Hunspell files, with the possessive suffix
// class and the suggestion alphabet that the words below rely on.
const EN_AFF: &str = "SET UTF-8\nTRY esianrtolcdugmphbyfvkwzESIANRTOLCDUGMPHBYFVKWZ'\nSFX M Y 1\nSFX M 0 's .\n";
const EN_DIC: &str = "4\ncheese/M\nchem\neditor/M\ntest/M\n";

fn en_dictionary() -> DictionaryWrapper {
    match DictionaryWrapper::new(EN_AFF.as_bytes(), EN_DIC.as_bytes(), "en_US.aff", "en_US.dic", Some("en_US.dic")) {
        Ok(en_dict) => en_dict,
        Err(err) => {
            panic!("Could not load dictionary: {}", err.message);
        }
    }
}

#[test]
fn test_dictionary_check() {
    let en_dict = en_dictionary();

    assert!(en_dict.check("test"));
    assert!(!en_dict.check("cheesepaperisagoodeditor"));
}

#[test]
fn test_dictionary_add() {
    let mut en_dict = en_dictionary();

    assert!(!en_dict.check("cheesepaperisagoodeditor"));
    assert!(en_dict.add("cheesepaperisagoodeditor", None, None).is_ok());
    assert!(en_dict.check("cheesepaperisagoodeditor"));
    assert!(!en_dict.check("cheesepaperisagoodeditor's"));
    assert!(en_dict.added_words().contains(&String::from("cheesepaperisagoodeditor")));
}

#[test]
fn test_dictionary_add_affix() {
    let mut en_dict = en_dictionary();

    assert!(!en_dict.check("CheesePaper"));
    assert!(!en_dict.check("CheesePaper's"));
    assert!(en_dict.add("CheesePaper", Some("CheesePaper's"), Some("M")).is_ok());
    assert!(en_dict.check("CheesePaper"));
    assert!(en_dict.check("CheesePaper's"));
}

#[test]
fn test_dictionary_remove() {
    let mut en_dict = en_dictionary();

    assert!(!en_dict.check("cheesepaperisagoodeditor"));

    assert!(en_dict.add("cheesepaperisagoodeditor", None, None).is_ok());
    assert!(en_dict.check("cheesepaperisagoodeditor"));

    assert!(en_dict.remove("cheesepaperisagoodeditor"));
    assert!(!en_dict.check("cheesepaperisagoodeditor"));

    assert!(!en_dict.remove("cheesepaperisagoodeditor"));
}

#[test]
fn test_dictionary_remove_affix() {
    let mut en_dict = en_dictionary();

    assert!(!en_dict.check("CheesePaper"));
    assert!(!en_dict.check("CheesePaper's"));
    assert!(en_dict.add("CheesePaper", Some("CheesePaper's"), Some("M")).is_ok());
    assert!(en_dict.check("CheesePaper"));
    assert!(en_dict.check("CheesePaper's"));
    assert!(en_dict.full_remove("CheesePaper"));
    assert!(!en_dict.check("CheesePaper"));
    assert!(!en_dict.check("CheesePaper's"));
}

#[test]
fn test_dictionary_remove_existing() {
    let mut en_dict = en_dictionary();

    assert!(en_dict.check("cheese"));
    assert!(en_dict.add("cheese", Some("cheese's"), Some("M")).is_ok());
    assert!(en_dict.check("cheese"));
    assert!(!en_dict.added_words().contains(&String::from("cheese")));

    assert!(en_dict.add("cheese", None, None).is_ok());
    assert!(en_dict.check("cheese"));
    assert!(!en_dict.added_words().contains(&String::from("cheese")));

    assert!(!en_dict.remove("cheese"));
    assert!(en_dict.check("cheese"));

    assert!(en_dict.full_remove("cheese"));
    assert!(!en_dict.check("cheese"));
}

#[test]
fn test_dictionary_add_remove_existing() {
    let mut en_dict = en_dictionary();

    assert!(en_dict.check("chem"));
    assert!(!en_dict.check("chem's"));
    assert!(en_dict.add("chem", Some("chem's"), Some("M")).is_ok());
    assert!(en_dict.check("chem"));
    assert!(en_dict.check("chem's"));
    assert!(en_dict.added_words().contains(&String::from("chem")));

    assert!(en_dict.remove("chem"));
    assert!(!en_dict.check("chem"));
    assert!(!en_dict.check("chem's"));
}

#[test]
fn test_dictionary_suggest() {
    let en_dict = en_dictionary();

    assert!(en_dict.check("test"));
    assert!(!en_dict.check("tes"));
    let mut suggestions = Vec::new();
    en_dict.suggest("tes", &mut suggestions);
    assert!(suggestions.contains(&String::from("test")));
}
