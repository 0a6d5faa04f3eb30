//! What is sent to Discord, and when.

use lumastra_discord_rpc::mapper::{PresenceKind, PresenceState, PresenceTimestamps};
use lumastra_discord_rpc::presence::activity::build_activity;
use lumastra_discord_rpc::presence::client::{ApplyStep, PresenceClient, DISCORD_APP_ID};

fn state() -> PresenceState {
    PresenceState {
        kind: PresenceKind::Watching,
        name: "Series".into(),
        details: "Lost".into(),
        state: Some("S04E05 · The Constant".into()),
        large_image: Some("https://image.tmdb.org/t/p/w500/lost.jpg".into()),
        large_text: Some("The Constant".into()),
        timestamps: Some(PresenceTimestamps { start: 100, end: Some(200) }),
    }
}

#[test]
fn serializes_every_field_onto_the_activity() {
    let state = state();
    let activity = build_activity(&state);
    let json = serde_json::to_value(&activity).unwrap();

    assert_eq!(json["name"], "Series");
    assert_eq!(json["details"], "Lost");
    assert_eq!(json["state"], "S04E05 · The Constant");
    // The verb travels under the wire key "type".
    assert_eq!(json["type"], 3); // Watching
    // Shows the item title in the member list instead of the app name.
    assert_eq!(json["status_display_type"], 2);
    assert_eq!(json["assets"]["large_image"], "https://image.tmdb.org/t/p/w500/lost.jpg");
    assert_eq!(json["assets"]["large_text"], "The Constant");
    assert_eq!(json["timestamps"]["start"], 100);
    assert_eq!(json["timestamps"]["end"], 200);
}

#[test]
fn uses_discord_activity_type_two_for_listening() {
    let mut state = state();
    state.kind = PresenceKind::Listening;
    let json = serde_json::to_value(build_activity(&state)).unwrap();

    assert_eq!(json["type"], 2);
}

#[test]
fn omits_timestamps_entirely_when_absent() {
    let mut state = state();
    state.timestamps = None;
    let json = serde_json::to_value(build_activity(&state)).unwrap();

    assert!(json.get("timestamps").is_none() || json["timestamps"].is_null());
}

#[test]
fn omits_every_optional_field_that_is_absent() {
    let mut state = state();
    state.state = None;
    state.large_image = None;
    state.large_text = None;
    state.timestamps = Some(PresenceTimestamps { start: 7, end: None });
    let json = serde_json::to_value(build_activity(&state)).unwrap();

    assert!(json["state"].is_null());
    assert!(json["assets"].is_null());
    assert_eq!(json["timestamps"]["start"], 7);
    assert!(json["timestamps"]["end"].is_null());
}

#[test]
fn sends_nothing_but_what_the_presence_says() {
    let state = state();
    let json = serde_json::to_value(build_activity(&state)).unwrap();
    let mut fields: Vec<&str> = json.as_object().unwrap().keys().map(String::as_str).collect();
    fields.sort();
    assert_eq!(
        fields,
        vec!["assets", "details", "name", "state", "status_display_type", "timestamps", "type"]
    );
    let mut assets: Vec<&str> =
        json["assets"].as_object().unwrap().keys().map(String::as_str).collect();
    assets.sort();
    assert_eq!(assets, vec!["large_image", "large_text"]);
}

#[test]
fn sends_an_image_without_a_text_and_a_text_without_an_image() {
    let mut image_only = state();
    image_only.large_text = None;
    let json = serde_json::to_value(build_activity(&image_only)).unwrap();
    assert_eq!(json["assets"]["large_image"], "https://image.tmdb.org/t/p/w500/lost.jpg");
    assert!(json["assets"]["large_text"].is_null());

    let mut text_only = state();
    text_only.large_image = None;
    let json = serde_json::to_value(build_activity(&text_only)).unwrap();
    assert!(json["assets"]["large_image"].is_null());
    assert_eq!(json["assets"]["large_text"], "The Constant");
}

#[test]
fn reports_a_change_only_when_the_state_actually_differs() {
    let mut client = PresenceClient::new();

    assert!(client.needs_update(Some(&state())));
    client.remember(Some(state()));

    // Same content on the next poll: no Discord call. This is what keeps us
    // under the one-update-per-15s rate limit.
    assert!(!client.needs_update(Some(&state())));

    let mut moved = state();
    moved.state = Some("S04E06 · The Shape of Things to Come".into());
    assert!(client.needs_update(Some(&moved)));

    client.remember(None);
    assert!(!client.needs_update(None));
    assert!(client.needs_update(Some(&state())));
}

#[test]
fn a_change_in_any_field_is_a_change() {
    let mut client = PresenceClient::new();
    client.remember(Some(state()));
    let changes: [fn(&mut PresenceState); 8] = [
        |s| s.kind = PresenceKind::Listening,
        |s| s.name = "Movie".into(),
        |s| s.details = "Los".into(),
        |s| s.state = None,
        |s| s.large_image = Some("lumastra".into()),
        |s| s.large_text = None,
        |s| s.timestamps = None,
        |s| s.timestamps = Some(PresenceTimestamps { start: 100, end: Some(201) }),
    ];
    for change in changes {
        let mut next = state();
        change(&mut next);
        assert!(client.needs_update(Some(&next)));
    }
}

#[test]
fn reports_disconnected_before_any_connection_attempt() {
    assert!(!PresenceClient::new().is_connected());
}

#[test]
fn ensure_connected_does_not_disturb_an_already_connected_client() {
    let mut client = PresenceClient::new();
    client.ensure_connected(true);

    client.ensure_connected(false);

    // A live connection stays as it is, however another attempt would end.
    assert!(client.is_connected());
}

#[test]
fn connects_on_demand_and_then_sends() {
    let mut client = PresenceClient::default();
    let next = state();
    assert_eq!(client.apply(Some(&next), false), ApplyStep::Connect);
    client.ensure_connected(true);
    assert_eq!(client.apply(Some(&next), true), ApplyStep::Send);
    client.sent(Some(&next), true);
    assert_eq!(client.apply(Some(&next), false), ApplyStep::Done);
    assert_eq!(client.apply(None, false), ApplyStep::Send);
    assert!(client.is_connected());
}

#[test]
fn gives_up_until_the_next_time_when_discord_is_not_running() {
    let mut client = PresenceClient::new();
    client.ensure_connected(false);
    assert_eq!(client.apply(Some(&state()), true), ApplyStep::Done);
    assert_eq!(client.apply(Some(&state()), false), ApplyStep::Connect);
}

#[test]
fn a_failed_send_drops_the_connection_and_is_sent_again() {
    let mut client = PresenceClient::new();
    client.ensure_connected(true);
    client.sent(Some(&state()), true);
    let mut next = state();
    next.details = "Heat".into();
    assert_eq!(client.apply(Some(&next), false), ApplyStep::Send);
    client.sent(Some(&next), false);
    assert!(!client.is_connected());
    assert_eq!(client.apply(Some(&next), false), ApplyStep::Connect);
    assert_eq!(client.apply(Some(&state()), false), ApplyStep::Connect);
    assert_eq!(client.apply(None, false), ApplyStep::Done);
}

#[test]
fn connects_as_the_registered_application() {
    assert_eq!(DISCORD_APP_ID, "1534510021772054598");
}
