use cheese_paper::release::{check_for_updates, current, CodebergRelease, PlatformVersions};
use cheese_paper::{CheeseError, Message};

fn platform(name: &str, versions: &[&str]) -> PlatformVersions {
    PlatformVersions {
        platform: name.to_string(),
        versions: versions.iter().map(|v| v.to_string()).collect(),
    }
}

/// Really dumb test validating our current version, but getting this wrong
/// would break version checking code, so we're extra cautious
#[test]
fn test_valid_current_version() {
    assert!(semver::Version::parse(current()).is_ok());
}

#[test]
fn test_version_equivalence() {
    let mut release = CodebergRelease {
        tag_name: "0.8.2".to_string(),
        name: "0.8.0".to_string(),
        body: "random text".to_string(),
        html_url: "https://codeberg.org/ByteOfBrie/cheese-paper/releases/tag/0.9.0".to_string(),
    };

    assert_eq!(release.equivalent_versions(), None);

    release.body = String::from("no version equivalence");
    assert_eq!(release.equivalent_versions(), None);

    release.body = String::from(
        r#"<!-- equivalent-to: { linux = ["0.8.0", "0.8.1"], windows = ["0.8.1"]} -->"#,
    );
    assert_eq!(release.equivalent_versions(), None);

    release.body = String::from(
        r#"* changed equivalent-to logic: { linux = ["0.8.0", "0.8.1"], windows = ["0.8.1"]} -->"#,
    );
    assert_eq!(release.equivalent_versions(), None);

    let version_table = vec![
        platform("linux", &["0.8.0", "0.8.1"]),
        platform("windows", &["0.8.1"]),
    ];

    release.body = String::from(
        r#"<!-- equivalent-to = { linux = ["0.8.0", "0.8.1"], windows = ["0.8.1"]} -->"#,
    );
    assert_eq!(release.equivalent_versions(), Some(version_table.clone()));

    release.body =
        String::from(r#"equivalent-to = { linux = ["0.8.0", "0.8.1"], windows = ["0.8.1"]}"#);
    assert_eq!(release.equivalent_versions(), Some(version_table.clone()));

    release.body = String::from(
        r#"* changed equivalent-to logic: { linux = ["0.8.0", "0.8.1"], windows = ["0.8.1"]} -->
               equivalent-to = { linux = ["0.8.0", "0.8.1"], windows = ["0.8.1"]}"#,
    );
    assert_eq!(release.equivalent_versions(), Some(version_table.clone()));

    release.body = String::from(
        r#"   <!--    equivalent-to={ linux = ["0.8.0", "0.8.1"], windows = ["0.8.1"]}-->  "#,
    );
    assert_eq!(release.equivalent_versions(), Some(version_table.clone()));
}

#[test]
fn equivalence_with_invalid_version_is_skipped() {
    let release = CodebergRelease {
        tag_name: "1.0.0".to_string(),
        name: "1.0.0".to_string(),
        body: "equivalent-to = { linux = [\"not a version\"] }\nequivalent-to = { macos = [\"0.9.0\"] }"
            .to_string(),
        html_url: String::new(),
    };
    assert_eq!(
        release.equivalent_versions(),
        Some(vec![platform("macos", &["0.9.0"])])
    );
}

#[test]
fn equivalence_line_without_the_key_gives_none() {
    let release = CodebergRelease {
        tag_name: "1.0.0".to_string(),
        name: "1.0.0".to_string(),
        body: "other-equivalent-to = { linux = [\"0.9.0\"] }\nequivalent-to = { linux = [\"0.9.0\"] }"
            .to_string(),
        html_url: String::new(),
    };
    // The first line parses, and has no `equivalent-to` key: the search stops there.
    assert_eq!(release.equivalent_versions(), None);
}

fn release(tag: &str, body: &str) -> CodebergRelease {
    CodebergRelease {
        tag_name: tag.to_string(),
        name: tag.to_string(),
        body: body.to_string(),
        html_url: format!("https://codeberg.org/ByteOfBrie/cheese-paper/releases/tag/{tag}"),
    }
}

#[test]
fn update_check_waits_for_the_request() {
    assert!(check_for_updates(None, "", "linux").is_none());
}

#[test]
fn update_check_failed_request_shows_nothing() {
    let failed: Result<CodebergRelease, CheeseError> =
        Err(CheeseError::new("offline".to_string()));
    assert!(matches!(check_for_updates(Some(&failed), "", "linux"), Some(None)));
}

#[test]
fn newer_release_is_announced() {
    let latest = Ok(release("1.2.0", "notes"));
    match check_for_updates(Some(&latest), "", "linux") {
        Some(Some(Message::Update(message))) => {
            assert_eq!(message.release.tag_name, "1.2.0");
            assert_eq!(
                message.update_text(),
                "A new version of cheese-paper is available: 1.2.0"
            );
        }
        _ => panic!("expected an update message"),
    }
}

#[test]
fn older_or_same_release_is_not_announced() {
    let latest = Ok(release("0.9.0", "notes"));
    assert!(matches!(check_for_updates(Some(&latest), "", "linux"), Some(None)));
    let latest = Ok(release("0.8.2", "notes"));
    assert!(matches!(check_for_updates(Some(&latest), "", "linux"), Some(None)));
}

#[test]
fn skipped_release_is_not_announced() {
    let latest = Ok(release("1.2.0", "notes"));
    assert!(matches!(check_for_updates(Some(&latest), "1.2.0", "linux"), Some(None)));
    // a skipped older version does not hide a newer release
    assert!(matches!(
        check_for_updates(Some(&latest), "1.0.0", "linux"),
        Some(Some(_))
    ));
    // an unparsable skipped version is ignored
    assert!(matches!(
        check_for_updates(Some(&latest), "garbage", "linux"),
        Some(Some(_))
    ));
}

#[test]
fn equivalent_release_is_not_announced_on_that_platform() {
    let latest = Ok(release(
        "0.9.1",
        "fixes for windows\n<!-- equivalent-to = { linux = [\"0.9.0\"] } -->",
    ));
    assert!(matches!(check_for_updates(Some(&latest), "", "linux"), Some(None)));
    assert!(matches!(check_for_updates(Some(&latest), "", "windows"), Some(Some(_))));
}

#[test]
fn unparsable_tag_is_not_announced() {
    let latest = Ok(release("nightly", "notes"));
    assert!(matches!(check_for_updates(Some(&latest), "", "linux"), Some(None)));
}

#[test]
fn update_text_override() {
    let message = cheese_paper::UpdateMessage::new(release(
        "2.0.0",
        "changes\nUPDATE_MESSAGE_OVERRIDE  Please update: big fixes!  \n",
    ));
    assert_eq!(message.update_text(), "Please update: big fixes!");
}

#[test]
fn release_not_newer_than_skipped_version_is_not_announced() {
    let latest = Ok(release("1.2.0", "notes"));
    assert!(matches!(check_for_updates(Some(&latest), "1.3.0", "linux"), Some(None)));
    assert!(matches!(check_for_updates(Some(&latest), "1.2.0+build", "linux"), Some(None)));
    let latest = Ok(release("1.2.0-rc.1", "notes"));
    assert!(matches!(check_for_updates(Some(&latest), "1.2.0", "linux"), Some(None)));
}
