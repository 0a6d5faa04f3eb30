//! User settings.

use lumastra_discord_rpc::config::{Config, ConfigError, CONFIG_FILE};
use lumastra_discord_rpc::files::{next_stage, temp_name, SaveError, SaveStage, OWNER_ONLY_MODE};
use lumastra_discord_rpc::urls::check_server_url;

#[test]
fn defaults_enable_every_media_type_and_are_not_paused() {
    let config = Config::default();
    assert!(!config.paused);
    assert!(config.enable_movies);
    assert!(config.enable_series);
    assert!(config.enable_music);
    assert!(config.enable_audiobooks);
    assert!(config.enable_livetv);
    // Deep links leak the server hostname to profile viewers: opt-in only.
    assert!(!config.show_deep_links);
}

#[test]
fn maps_every_session_media_type_to_its_toggle() {
    let config = Config { enable_series: false, ..Default::default() };

    // All three spellings reach the same toggle: the wire emits `series`,
    // storage uses `tv`, and episodes arrive as `episode`.
    assert!(!config.is_type_enabled("series"));
    assert!(!config.is_type_enabled("tv"));
    assert!(!config.is_type_enabled("episode"));
    assert!(config.is_type_enabled("movie"));
}

#[test]
fn groups_live_broadcasts_under_the_livetv_toggle() {
    let config = Config { enable_livetv: false, ..Default::default() };
    assert!(!config.is_type_enabled("tvchannel"));
    assert!(!config.is_type_enabled("radio"));
}

#[test]
fn treats_unknown_media_types_as_disabled() {
    let config = Config::default();
    assert!(!config.is_type_enabled("manga"));
    assert!(!config.is_type_enabled(""));
}

#[test]
fn each_switch_governs_its_own_media_types_only() {
    let all = [
        "movie", "series", "tv", "episode", "season", "music", "track", "audio", "audiobook",
        "tvchannel", "radio",
    ];
    let groups: [(Config, &[&str]); 5] = [
        (Config { enable_movies: false, ..Default::default() }, &["movie"]),
        (
            Config { enable_series: false, ..Default::default() },
            &["series", "tv", "episode", "season"],
        ),
        (Config { enable_music: false, ..Default::default() }, &["music", "track", "audio"]),
        (Config { enable_audiobooks: false, ..Default::default() }, &["audiobook"]),
        (Config { enable_livetv: false, ..Default::default() }, &["tvchannel", "radio"]),
    ];
    for (config, group) in groups {
        for media_type in all {
            assert_eq!(config.is_type_enabled(media_type), !group.contains(&media_type));
        }
    }
    assert!(!Config::default().is_type_enabled("Movie"));
}

#[test]
fn loads_what_was_stored_and_defaults_otherwise() {
    let stored = Config {
        server_url: Some("https://media.example.com".into()),
        enable_music: false,
        ..Default::default()
    };
    let loaded = Config::load(Some(stored.clone()));
    assert_eq!(loaded, stored);
    assert_eq!(Config::load(None), Config::default());
    assert_eq!(CONFIG_FILE, "config.json");
}

#[test]
fn pausing_twice_changes_nothing() {
    let before = Config { server_url: Some("https://s".into()), ..Default::default() };
    let mut config = before.clone();
    config.toggle_pause();
    assert!(config.paused);
    assert_eq!(Config { paused: false, ..config.clone() }, before);
    config.toggle_pause();
    assert_eq!(config, before);
}

#[test]
fn says_why_the_settings_were_not_saved() {
    assert_eq!(Config::save(Ok(())), Ok(()));
    let io = Config::save(Err(SaveError::Io("disk full".into()))).unwrap_err();
    assert_eq!(io, ConfigError::Io("disk full".into()));
    assert_eq!(io.message(), "failed to write config: disk full");
    let words = Config::save(Err(SaveError::Serialize("odd key".into()))).unwrap_err();
    assert_eq!(words, ConfigError::Serialize("odd key".into()));
    assert_eq!(words.message(), "failed to serialize config: odd key");
}

/// The stages of a replacement in which the step `failing` fails, and how it
/// ends.
fn stages_of(owner_only: bool, failing: Option<SaveStage>) -> (String, Result<(), SaveError>) {
    let mut names = String::new();
    let mut stage = SaveStage::CreateDir;
    loop {
        let failed = failing.as_ref() == Some(&stage);
        names = format!("{names}{stage:?} ");
        match next_stage(stage, owner_only, if failed { Err("no".into()) } else { Ok(()) }) {
            SaveStage::Finished(outcome) => return (names, outcome),
            next => stage = next,
        }
    }
}

#[test]
fn replaces_a_file_by_way_of_a_temporary_one() {
    let (names, outcome) = stages_of(false, None);
    assert_eq!(names, "CreateDir Serialize WriteTemp Rename ");
    assert_eq!(outcome, Ok(()));
    let (names, outcome) = stages_of(true, None);
    assert_eq!(names, "CreateDir Serialize WriteTemp Restrict Rename ");
    assert_eq!(outcome, Ok(()));
}

#[test]
fn removes_the_temporary_file_on_any_failure_after_it_was_begun() {
    for failing in [SaveStage::WriteTemp, SaveStage::Restrict, SaveStage::Rename] {
        let (names, outcome) = stages_of(true, Some(failing));
        assert!(names.ends_with("Discard(Io(\"no\")) "));
        assert_eq!(outcome, Err(SaveError::Io("no".into())));
    }
}

#[test]
fn leaves_nothing_to_remove_before_the_temporary_file_is_begun() {
    let (names, outcome) = stages_of(false, Some(SaveStage::CreateDir));
    assert_eq!(names, "CreateDir ");
    assert_eq!(outcome, Err(SaveError::Io("no".into())));
    let (names, outcome) = stages_of(false, Some(SaveStage::Serialize));
    assert_eq!(names, "CreateDir Serialize ");
    assert_eq!(outcome, Err(SaveError::Serialize("no".into())));
}

#[test]
fn a_failed_removal_does_not_hide_the_first_error() {
    let stage = SaveStage::Discard(SaveError::Io("disk full".into()));
    assert_eq!(
        next_stage(stage, false, Err("busy".into())),
        SaveStage::Finished(Err(SaveError::Io("disk full".into())))
    );
}

#[test]
fn tells_concurrent_writes_apart_by_their_temporary_names() {
    assert_eq!(temp_name("config.json", 4711, 0), "config.json.4711.0.tmp");
    assert_eq!(
        temp_name("config.json", u32::MAX, u64::MAX),
        "config.json.4294967295.18446744073709551615.tmp"
    );
    assert_ne!(temp_name("f", 1, 11), temp_name("f", 11, 1));
    assert_eq!(OWNER_ONLY_MODE, 0o600);
}

/// What the settings page is told about a server URL.
fn verdict(url: Option<&str>) -> Result<(), String> {
    check_server_url(&Config { server_url: url.map(str::to_string), ..Default::default() })
}

#[test]
fn accepts_web_addresses_and_no_address_at_all() {
    assert_eq!(verdict(None), Ok(()));
    assert_eq!(verdict(Some("https://media.example.com")), Ok(()));
    assert_eq!(verdict(Some("http://192.168.1.2:8080/lumastra")), Ok(()));
    assert_eq!(verdict(Some("HTTPS://media.example.com")), Ok(()));
}

#[test]
fn turns_down_what_is_no_url() {
    let message = Err("Server URL is not a valid URL".to_string());
    assert_eq!(verdict(Some("media.example.com")), message);
    assert_eq!(verdict(Some("")), message);
}

#[test]
fn turns_down_other_schemes() {
    let message = Err("Server URL must start with http:// or https://".to_string());
    assert_eq!(verdict(Some("ftp://media.example.com")), message);
    assert_eq!(verdict(Some("localhost:8080")), message);
    assert_eq!(verdict(Some("httpx://media.example.com")), message);
}
