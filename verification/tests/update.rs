use ultivm::update::{announce, announce_release, is_update_due, TAGGED_VERSION, VERSION};

fn record(text: &str) -> serde_json::Value {
    serde_json::from_str(text).unwrap()
}

fn owned(lines: &[&str]) -> Vec<String> {
    lines.iter().map(|l| l.to_string()).collect()
}

#[test]
fn version_is_spelled_two_ways() {
    assert_eq!(VERSION, "0.0.1u2");
    assert_eq!(TAGGED_VERSION, "v0.0.1u2");
}

#[test]
fn release_record_is_announced() {
    let release = record(r#"{"tag_name": "v0.0.2", "name": "Second", "draft": false}"#);
    assert_eq!(
        announce_release(&release),
        owned(&[
            "Latest version: v0.0.2",
            "Update title: Second",
            "A new version of UltiVM is available: v0.0.2 - Second",
            "Please update to the latest version.",
        ])
    );
}

#[test]
fn missing_members_get_their_defaults() {
    assert_eq!(
        announce_release(&record("{}")),
        owned(&[
            "Latest version: unknown",
            "Update title: No title",
            "A new version of UltiVM is available: unknown - No title",
            "Please update to the latest version.",
        ])
    );
    let only_tag = announce_release(&record(r#"{"tag_name": "v3"}"#));
    assert_eq!(only_tag[0], "Latest version: v3");
    assert_eq!(only_tag[1], "Update title: No title");
    let only_name = announce_release(&record(r#"{"name": "Three"}"#));
    assert_eq!(only_name[0], "Latest version: unknown");
    assert_eq!(only_name[1], "Update title: Three");
}

#[test]
fn members_that_are_no_strings_count_as_missing() {
    let release = record(r#"{"tag_name": 7, "name": null}"#);
    let lines = announce_release(&release);
    assert_eq!(lines[0], "Latest version: unknown");
    assert_eq!(lines[1], "Update title: No title");
    let nested = record(r#"{"tag_name": {"tag_name": "v1"}, "name": ["x"]}"#);
    let lines = announce_release(&nested);
    assert_eq!(lines[0], "Latest version: unknown");
    assert_eq!(lines[1], "Update title: No title");
}

#[test]
fn record_that_is_no_object_has_no_members() {
    for text in ["null", "true", "12", "\"tag_name\"", "[\"tag_name\", \"name\"]"] {
        let lines = announce_release(&record(text));
        assert_eq!(lines[0], "Latest version: unknown", "{}", text);
        assert_eq!(lines[1], "Update title: No title", "{}", text);
    }
}

#[test]
fn member_text_is_taken_as_it_stands() {
    let release = record(r#"{"tag_name": "", "name": " spaced \"quoted\" é\n"}"#);
    let lines = announce_release(&release);
    assert_eq!(lines[0], "Latest version: ");
    assert_eq!(lines[1], "Update title:  spaced \"quoted\" é\n");
}

#[test]
fn announce_from_plain_values() {
    assert_eq!(
        announce(Some("v9".to_string()), Some("Nine".to_string())),
        owned(&[
            "Latest version: v9",
            "Update title: Nine",
            "A new version of UltiVM is available: v9 - Nine",
            "Please update to the latest version.",
        ])
    );
    assert_eq!(announce(None, None)[2], "A new version of UltiVM is available: unknown - No title");
}

#[test]
fn every_release_is_announced_as_new() {
    for tag in ["", "unknown", "v0.0.2", "0.0.1u2", "v0.0.1u2", "V0.0.1U2"] {
        assert!(is_update_due(tag), "{}", tag);
        assert_eq!(announce(Some(tag.to_string()), None).len(), 4);
    }
}
