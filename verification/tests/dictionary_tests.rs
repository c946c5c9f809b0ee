use cheese_paper::DictionaryWrapper;

const AFF: &str = "SET UTF-8\nSFX M Y 1\nSFX M 0 's .\n";
const DIC: &str = "2\ncheese/M\ntest\n";

fn small_dictionary() -> DictionaryWrapper {
    match DictionaryWrapper::new(AFF.as_bytes(), DIC.as_bytes(), "small.aff", "small.dic", Some("en_US.dic")) {
        Ok(d) => d,
        Err(err) => panic!("Could not load dictionary: {}", err.message),
    }
}

#[test]
fn small_dictionary_checks() {
    let d = small_dictionary();
    assert!(d.check("test"));
    assert!(d.check("cheese"));
    assert!(d.check("cheese's"));
    assert!(!d.check("cheesepaperisagoodeditor"));
    assert_eq!(d.lang_code.as_deref(), Some("en"));
}

#[test]
fn add_and_remove_words() {
    let mut d = small_dictionary();
    assert!(matches!(d.add("cheesepaper", None, None), Ok(true)));
    assert!(d.check("cheesepaper"));
    assert!(!d.check("cheesepaper's"));
    assert!(d.added_words().contains(&"cheesepaper".to_string()));
    assert!(d.remove("cheesepaper"));
    assert!(!d.check("cheesepaper"));
    assert!(!d.remove("cheesepaper"));
}

#[test]
fn add_with_affix() {
    let mut d = small_dictionary();
    assert!(matches!(d.add("Brie", Some("Brie's"), Some("M")), Ok(true)));
    assert!(d.check("Brie"));
    assert!(d.check("Brie's"));
    assert!(d.full_remove("Brie"));
    assert!(!d.check("Brie"));
    assert!(d.added_words().is_empty());
}

#[test]
fn existing_words_are_not_added() {
    let mut d = small_dictionary();
    assert!(matches!(d.add("cheese", Some("cheese's"), Some("M")), Ok(false)));
    assert!(matches!(d.add("cheese", None, None), Ok(false)));
    assert!(d.added_words().is_empty());
    assert!(!d.remove("cheese"));
    assert!(d.check("cheese"));
    assert!(d.full_remove("cheese"));
    assert!(!d.check("cheese"));
}

#[test]
fn malformed_file_is_refused() {
    let bad_dic: &[u8] = &[0x32, 0x0a, 0xff, 0xfe, 0x41];
    // undecodable bytes in an UTF-8 guess, or a valid guess in another encoding
    match DictionaryWrapper::new(AFF.as_bytes(), bad_dic, "small.aff", "small.dic", None) {
        Ok(d) => assert!(d.lang_code.is_none()),
        Err(err) => assert!(err.message.starts_with("Found unexpected characters")),
    }
}

#[test]
fn suggestions_for_a_typo() {
    let d = small_dictionary();
    let mut out = vec!["stale".to_string()];
    d.suggest("tes", &mut out);
    assert!(!out.contains(&"stale".to_string()));
}

#[test]
fn unreadable_affix_file_is_refused() {
    match DictionaryWrapper::new(b"FLAG nonsense\n", DIC.as_bytes(), "small.aff", "small.dic", None) {
        Ok(_) => panic!("the affix file should not load"),
        Err(err) => assert!(err
            .message
            .starts_with("Error loading dictionary from small.aff and small.dic:\n")),
    }
}

#[test]
fn malformed_affix_flag_is_an_error() {
    let mut d = match DictionaryWrapper::new(b"FLAG num\n", b"1\nword\n", "n.aff", "n.dic", None) {
        Ok(d) => d,
        Err(err) => panic!("{}", err.message),
    };
    assert!(d.check("word"));
    match d.add("other", None, Some("abc")) {
        Ok(_) => panic!("a flag that is not a number should be refused"),
        Err(err) => assert!(err.message.starts_with("Error when adding 'other' to dictionary: ")),
    }
    assert!(d.added_words().is_empty());
    assert!(!d.check("other"));
}

#[test]
fn language_code_needs_an_underscore() {
    let d = match DictionaryWrapper::new(AFF.as_bytes(), DIC.as_bytes(), "a", "b", Some("german.dic")) {
        Ok(d) => d,
        Err(err) => panic!("{}", err.message),
    };
    assert!(d.lang_code.is_none());
}

#[test]
fn no_suggestions_for_empty_or_overlong_words() {
    let d = small_dictionary();
    let mut out = vec!["stale".to_string()];
    d.suggest("", &mut out);
    assert!(out.is_empty());
    let mut out = vec!["stale".to_string()];
    d.suggest(&"t".repeat(361), &mut out);
    assert!(out.is_empty());
}

#[test]
fn added_bare_word_is_a_live_stem_until_removed() {
    let mut d = small_dictionary();
    assert!(matches!(d.add("gouda", None, None), Ok(true)));
    assert!(d.check("gouda"));
    assert!(d.full_remove("gouda"));
    assert!(!d.check("gouda"));
    // the stem is no longer live, so nothing more is removed
    assert!(!d.full_remove("gouda"));
    // a word that never was a stem removes nothing
    assert!(!d.full_remove("brie"));
}
