use qspace::config::{from_text, load_from, render_for_save, to_text, Config, LoadOutcome};

fn sample() -> Config {
    Config {
        subscription_id: String::from("sub-1"),
        resource_group: String::from("rg-1"),
        workspace_name: String::from("ws-1"),
        location: String::from("eastus"),
    }
}

#[test]
fn to_text_exact() {
    let text = to_text(&sample());
    assert_eq!(
        text.as_str(),
        "subscription_id: sub-1\nresource_group: rg-1\nworkspace_name: ws-1\nlocation: eastus\n"
    );
}

#[test]
fn round_trip_fields() {
    let text = to_text(&sample());
    let parsed = from_text(text.as_str()).expect("serialized configuration must parse");
    assert_eq!(parsed.subscription_id, "sub-1");
    assert_eq!(parsed.resource_group, "rg-1");
    assert_eq!(parsed.workspace_name, "ws-1");
    assert_eq!(parsed.location, "eastus");
}

#[test]
fn save_then_reload_after_restart() {
    // The persisted bytes survive the process; a later load sees only them.
    let persisted = to_text(&sample());
    let reloaded = load_from(Some(persisted.as_str()));
    match reloaded {
        LoadOutcome::Loaded(c) => {
            assert_eq!(c.subscription_id, "sub-1");
            assert_eq!(c.resource_group, "rg-1");
            assert_eq!(c.workspace_name, "ws-1");
            assert_eq!(c.location, "eastus");
        }
        _ => panic!("a saved configuration must load back"),
    }
}

#[test]
fn absent_is_not_error() {
    let outcome = load_from(None);
    assert!(outcome.is_absent());
    assert!(!outcome.is_corrupt());
}

#[test]
fn corrupt_is_distinct_from_absent() {
    let outcome = load_from(Some("not a configuration at all"));
    assert!(outcome.is_corrupt());
    assert!(!outcome.is_absent());
}

#[test]
fn truncated_file_is_corrupt_not_loaded() {
    // A half-written file must never read back as a (wrong) record.
    let text = to_text(&sample());
    for cut in 0..text.len() {
        let partial = &text.as_str()[..cut];
        if partial.len() == text.len() {
            continue;
        }
        assert!(from_text(partial).is_none());
    }
}

#[test]
fn wrong_key_order_is_rejected() {
    let text =
        "resource_group: rg-1\nsubscription_id: sub-1\nworkspace_name: ws-1\nlocation: eastus\n";
    assert!(from_text(text).is_none());
}

#[test]
fn empty_field_is_rejected() {
    let text = "subscription_id: \nresource_group: rg-1\nworkspace_name: ws-1\nlocation: eastus\n";
    assert!(from_text(text).is_none());
}

#[test]
fn trailing_garbage_is_rejected() {
    let mut text = to_text(&sample());
    text.push_str("extra: line\n");
    assert!(from_text(text.as_str()).is_none());
}

#[test]
fn values_with_spaces_round_trip() {
    let c = Config {
        subscription_id: String::from("00000000-1111-2222-3333-444444444444"),
        resource_group: String::from("my resource group"),
        workspace_name: String::from("ws 2"),
        location: String::from("west us 2"),
    };
    let text = to_text(&c);
    let parsed = from_text(text.as_str()).expect("round trip");
    assert_eq!(parsed.resource_group, "my resource group");
    assert_eq!(parsed.location, "west us 2");
}

#[test]
fn wf_checks_fields() {
    assert!(sample().is_wf());
    let mut c = sample();
    c.location = String::from("");
    assert!(!c.is_wf());
    let mut d = sample();
    d.workspace_name = String::from("two\nlines");
    assert!(!d.is_wf());
}

#[test]
fn save_rendering_refuses_malformed_records() {
    let good = sample();
    let rendered = render_for_save(&good).expect("well-formed record renders");
    assert_eq!(rendered, to_text(&good));

    let mut bad = sample();
    bad.subscription_id = String::from("a\nb");
    assert!(render_for_save(&bad).is_none());
    let mut empty = sample();
    empty.resource_group = String::new();
    assert!(render_for_save(&empty).is_none());
}
