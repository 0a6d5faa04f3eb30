//! Which session is broadcast, and what it looks like.

use lumastra_discord_rpc::api::model::{Seconds, Session};
use lumastra_discord_rpc::config::Config;
use lumastra_discord_rpc::mapper::render::{clamp, join, validate_artwork_url};
use lumastra_discord_rpc::mapper::{
    can_map_presence, map_presence, try_map_presence, OutOfRange, PresenceKind, FALLBACK_ASSET_KEY,
};

const NOW: i64 = 1_700_000_000;

/// A reading as the server reports it.
fn seconds(reading: f64) -> Seconds {
    Seconds { whole: reading as i64, positive: reading > 0.0 }
}

/// Minimal session; tests override only what they exercise. Owned by
/// "denis" by default — the same username `map_presence` is called with
/// unless a test overrides it.
fn session(id: &str, media_type: &str, title: &str) -> Session {
    Session {
        id: id.into(),
        media_item_id: "media-uuid".into(),
        title: title.into(),
        media_type: media_type.into(),
        username: "denis".into(),
        year: None,
        season_number: None,
        episode_number: None,
        series_name: None,
        author: None,
        chapter: None,
        artist_name: None,
        album_name: None,
        live_tv_program_name: None,
        now_playing_track: None,
        now_playing_artist: None,
        artwork_public_url: None,
        play_is_playing: Some(true),
        play_current_time: Some(seconds(0.0)),
        play_item_duration: Some(seconds(100.0)),
        duration: None,
    }
}

// ── Empty and disabled ──────────────────────────────────────────────

#[test]
fn returns_none_for_an_empty_session_list() {
    assert!(map_presence(&[], &Config::default(), NOW, None, "denis").is_none());
}

#[test]
fn returns_none_when_globally_paused() {
    let config = Config { paused: true, ..Default::default() };
    let sessions = vec![session("a", "movie", "Heat")];
    assert!(map_presence(&sessions, &config, NOW, None, "denis").is_none());
}

#[test]
fn returns_none_when_the_media_type_is_disabled() {
    let config = Config { enable_movies: false, ..Default::default() };
    let sessions = vec![session("a", "movie", "Heat")];
    assert!(map_presence(&sessions, &config, NOW, None, "denis").is_none());
}

#[test]
fn returns_none_for_an_unrecognized_media_type() {
    let sessions = vec![session("a", "manga", "Berserk")];
    assert!(map_presence(&sessions, &Config::default(), NOW, None, "denis").is_none());
}

// ── Per-type mapping ────────────────────────────────────────────────

#[test]
fn maps_a_movie_with_its_year() {
    let mut movie = session("a", "movie", "Heat");
    movie.year = Some(1995);
    let (_, state) = map_presence(&[movie], &Config::default(), NOW, None, "denis").unwrap();

    assert_eq!(state.kind, PresenceKind::Watching);
    assert_eq!(state.name, "Movie");
    assert_eq!(state.details, "Heat (1995)");
    assert_eq!(state.state, None);
}

#[test]
fn maps_an_episode_to_series_plus_zero_padded_code() {
    let mut episode = session("a", "episode", "The Constant");
    episode.series_name = Some("Lost".into());
    episode.season_number = Some(4);
    episode.episode_number = Some(5);
    let (_, state) = map_presence(&[episode], &Config::default(), NOW, None, "denis").unwrap();

    assert_eq!(state.kind, PresenceKind::Watching);
    assert_eq!(state.details, "Lost");
    assert_eq!(state.state.as_deref(), Some("S04E05 · The Constant"));
}

#[test]
fn falls_back_to_the_episode_title_when_the_series_name_is_missing() {
    let mut episode = session("a", "episode", "The Constant");
    episode.season_number = Some(4);
    episode.episode_number = Some(5);
    let (_, state) = map_presence(&[episode], &Config::default(), NOW, None, "denis").unwrap();

    assert_eq!(state.details, "The Constant");
    assert_eq!(state.state.as_deref(), Some("S04E05"));
}

#[test]
fn maps_a_track_as_listening() {
    let mut track = session("a", "track", "Windowlicker");
    track.artist_name = Some("Aphex Twin".into());
    track.album_name = Some("Windowlicker".into());
    let (_, state) = map_presence(&[track], &Config::default(), NOW, None, "denis").unwrap();

    assert_eq!(state.kind, PresenceKind::Listening);
    assert_eq!(state.details, "Windowlicker");
    assert_eq!(state.state.as_deref(), Some("Aphex Twin · Windowlicker"));
}

#[test]
fn maps_an_audiobook_to_author_and_chapter() {
    let mut book = session("a", "audiobook", "Dune");
    book.author = Some("Frank Herbert".into());
    book.chapter = Some("Chapter 12".into());
    let (_, state) = map_presence(&[book], &Config::default(), NOW, None, "denis").unwrap();

    assert_eq!(state.kind, PresenceKind::Listening);
    assert_eq!(state.details, "Dune");
    assert_eq!(state.state.as_deref(), Some("Frank Herbert · Chapter 12"));
}

#[test]
fn maps_a_live_channel_with_its_programme_and_no_end_bound() {
    let mut channel = session("a", "tvchannel", "BBC One");
    channel.live_tv_program_name = Some("The News".into());
    channel.play_item_duration = None;
    let (_, state) = map_presence(&[channel], &Config::default(), NOW, None, "denis").unwrap();

    assert_eq!(state.kind, PresenceKind::Watching);
    assert_eq!(state.details, "BBC One");
    assert_eq!(state.state.as_deref(), Some("The News"));
    assert_eq!(state.timestamps.unwrap().end, None);
}

#[test]
fn maps_radio_to_the_now_playing_track() {
    let mut radio = session("a", "radio", "NTS 1");
    radio.now_playing_track = Some("Aisha".into());
    radio.now_playing_artist = Some("Death in Vegas".into());
    radio.play_item_duration = None;
    let (_, state) = map_presence(&[radio], &Config::default(), NOW, None, "denis").unwrap();

    assert_eq!(state.kind, PresenceKind::Listening);
    assert_eq!(state.details, "NTS 1");
    assert_eq!(state.state.as_deref(), Some("Death in Vegas · Aisha"));
}

// ── Timestamps ──────────────────────────────────────────────────────

#[test]
fn anchors_the_progress_bar_to_the_current_position() {
    let mut movie = session("a", "movie", "Heat");
    movie.play_current_time = Some(seconds(600.0));
    movie.play_item_duration = Some(seconds(9000.0));
    let (_, state) = map_presence(&[movie], &Config::default(), NOW, None, "denis").unwrap();

    let timestamps = state.timestamps.unwrap();
    assert_eq!(timestamps.start, NOW - 600);
    assert_eq!(timestamps.end, Some(NOW - 600 + 9000));
}

#[test]
fn omits_timestamps_while_paused_and_says_so() {
    let mut movie = session("a", "movie", "Heat");
    movie.play_is_playing = Some(false);
    let (_, state) = map_presence(&[movie], &Config::default(), NOW, None, "denis").unwrap();

    assert_eq!(state.timestamps, None);
    assert_eq!(state.state.as_deref(), Some("Paused"));
}

#[test]
fn appends_paused_to_an_existing_state_line() {
    let mut track = session("a", "track", "Windowlicker");
    track.artist_name = Some("Aphex Twin".into());
    track.play_is_playing = Some(false);
    let (_, state) = map_presence(&[track], &Config::default(), NOW, None, "denis").unwrap();

    assert_eq!(state.state.as_deref(), Some("Aphex Twin · Paused"));
}

#[test]
fn keeps_the_paused_marker_even_when_the_base_state_is_long_enough_to_truncate() {
    // The base state alone is well over the 120-char clamp limit. If the
    // marker were appended before clamping, it would be cut
    // off along with the tail of the state line, leaving the user with
    // no indication that playback is paused.
    let mut track = session("a", "track", "Windowlicker");
    track.artist_name = Some("a".repeat(200));
    track.play_is_playing = Some(false);
    let (_, state) = map_presence(&[track], &Config::default(), NOW, None, "denis").unwrap();

    assert!(state.state.as_deref().unwrap().ends_with(" · Paused"));
}

#[test]
fn omits_the_end_bound_when_the_duration_is_missing() {
    let mut movie = session("a", "movie", "Heat");
    movie.play_item_duration = None;
    let (_, state) = map_presence(&[movie], &Config::default(), NOW, None, "denis").unwrap();

    assert_eq!(state.timestamps.unwrap().end, None);
}

#[test]
fn omits_the_end_bound_when_the_duration_is_zero() {
    // A zero duration would make start == end and render a completed bar.
    let mut movie = session("a", "movie", "Heat");
    movie.play_item_duration = Some(seconds(0.0));
    let (_, state) = map_presence(&[movie], &Config::default(), NOW, None, "denis").unwrap();

    assert_eq!(state.timestamps.unwrap().end, None);
}

#[test]
fn derives_the_end_bound_from_play_item_duration_when_present() {
    // The playback-block duration is used when it is there.
    let mut movie = session("a", "movie", "Heat");
    movie.play_item_duration = Some(seconds(9000.0));
    movie.duration = Some(seconds(1234.0)); // must be ignored in favor of the above
    let (_, state) = map_presence(&[movie], &Config::default(), NOW, None, "denis").unwrap();

    assert_eq!(state.timestamps.unwrap().end, Some(NOW + 9000));
}

#[test]
fn falls_back_to_duration_when_play_item_duration_is_absent() {
    // Sessions can carry `duration` (identity block) without
    // `playItemDuration` (playback block).
    let mut movie = session("a", "movie", "Heat");
    movie.play_item_duration = None;
    movie.duration = Some(seconds(3600.0));
    let (_, state) = map_presence(&[movie], &Config::default(), NOW, None, "denis").unwrap();

    assert_eq!(state.timestamps.unwrap().end, Some(NOW + 3600));
}

#[test]
fn omits_the_end_bound_when_both_durations_are_absent() {
    // Open-ended stream, e.g. live TV: start-only, no bar.
    let mut movie = session("a", "movie", "Heat");
    movie.play_item_duration = None;
    movie.duration = None;
    let (_, state) = map_presence(&[movie], &Config::default(), NOW, None, "denis").unwrap();

    assert_eq!(state.timestamps.unwrap().end, None);
}

#[test]
fn falls_back_to_duration_when_play_item_duration_is_present_but_zero() {
    // A present `play_item_duration` of 0.0 is a meaningless value, not
    // an authoritative zero-length item, so this still falls through to
    // `duration` and keeps the progress bar. A bare `.or()` would get
    // this wrong: `Some(seconds(0.0)).or(Some(seconds(3600.0)))` evaluates to `Some(seconds(0.0))`,
    // losing the bar even though `duration` had a good value.
    let mut movie = session("a", "movie", "Heat");
    movie.play_item_duration = Some(seconds(0.0));
    movie.duration = Some(seconds(3600.0));
    let (_, state) = map_presence(&[movie], &Config::default(), NOW, None, "denis").unwrap();

    assert_eq!(state.timestamps.unwrap().end, Some(NOW + 3600));
}

// ── Artwork ─────────────────────────────────────────────────────────

#[test]
fn prefers_the_public_artwork_url() {
    let mut movie = session("a", "movie", "Heat");
    movie.artwork_public_url = Some("https://image.tmdb.org/t/p/w500/heat.jpg".into());
    let (_, state) = map_presence(&[movie], &Config::default(), NOW, None, "denis").unwrap();

    assert_eq!(
        state.large_image.as_deref(),
        Some("https://image.tmdb.org/t/p/w500/heat.jpg")
    );
}

#[test]
fn falls_back_to_the_bundled_asset_key_without_a_public_url() {
    let (_, state) =
        map_presence(&[session("a", "movie", "Heat")], &Config::default(), NOW, None, "denis").unwrap();

    assert_eq!(state.large_image.as_deref(), Some(FALLBACK_ASSET_KEY));
}

#[test]
fn falls_back_to_the_asset_key_when_the_artwork_url_is_not_https() {
    let mut movie = session("a", "movie", "Heat");
    movie.artwork_public_url = Some("http://image.tmdb.org/heat.jpg".into());
    let (_, state) = map_presence(&[movie], &Config::default(), NOW, None, "denis").unwrap();

    assert_eq!(state.large_image.as_deref(), Some(FALLBACK_ASSET_KEY));
}

#[test]
fn falls_back_to_the_asset_key_when_the_artwork_url_is_oversized() {
    let mut movie = session("a", "movie", "Heat");
    let huge = format!("https://example.com/{}", "a".repeat(600));
    movie.artwork_public_url = Some(huge);
    let (_, state) = map_presence(&[movie], &Config::default(), NOW, None, "denis").unwrap();

    assert_eq!(state.large_image.as_deref(), Some(FALLBACK_ASSET_KEY));
}

// ── Untrusted-string hardening ─────────────────────────────────────────

#[test]
fn truncates_an_overlong_title_with_an_ellipsis_at_a_straddled_byte_boundary() {
    // Mixed widths so no byte offset in the naive `&cleaned[..120]` slice
    // this guards against can land on a character boundary by luck: a
    // single 1-byte ASCII char followed by 3-byte "日" characters means
    // byte offset 120 falls mid-character no matter how you count. (An
    // all-"日" title would NOT catch this — 3 divides 120 evenly, so a
    // naive byte slice lands exactly on a boundary and never panics.)
    let long_title = format!("a{}", "日".repeat(200));
    let movie = session("a", "movie", &long_title);
    let (_, state) = map_presence(&[movie], &Config::default(), NOW, None, "denis").unwrap();

    assert_eq!(state.details.chars().count(), 121); // 120 kept + the ellipsis
    assert!(state.details.ends_with('…'));
}

#[test]
fn strips_control_characters_from_details() {
    let mut movie = session("a", "movie", "Heat");
    movie.title = "He\u{0000}at\n\r".into();
    let (_, state) = map_presence(&[movie], &Config::default(), NOW, None, "denis").unwrap();

    assert_eq!(state.details, "Heat");
}

#[test]
fn strips_a_right_to_left_override_from_details() {
    // U+202E is category Cf (format), not Cc — `is_control()` alone does
    // not catch it. Left uncaught, a hostile or careless server could
    // make text render reversed on the user's public Discord profile.
    let mut movie = session("a", "movie", "Heat");
    movie.title = "He\u{202E}at".into();
    let (_, state) = map_presence(&[movie], &Config::default(), NOW, None, "denis").unwrap();

    assert_eq!(state.details, "Heat");
    assert!(!state.details.contains('\u{202E}'));
}

// ── Selection ───────────────────────────────────────────────────────

#[test]
fn prefers_a_playing_session_over_a_paused_one() {
    let mut paused = session("a-paused", "movie", "Heat");
    paused.play_is_playing = Some(false);
    let playing = session("b-playing", "movie", "Collateral");

    let (id, _) =
        map_presence(&[paused, playing], &Config::default(), NOW, None, "denis").unwrap();

    assert_eq!(id, "b-playing");
}

#[test]
fn keeps_broadcasting_the_current_session_when_it_is_still_eligible() {
    // Both playing. Without stickiness the lexicographic tie-break would
    // switch to "a", flipping the user's status for no reason.
    let sessions = vec![
        session("a", "movie", "Heat"),
        session("z", "movie", "Collateral"),
    ];

    let (id, _) = map_presence(&sessions, &Config::default(), NOW, Some("z"), "denis").unwrap();
    assert_eq!(id, "z");
}

#[test]
fn drops_stickiness_when_the_current_session_stops_playing() {
    let mut current = session("z", "movie", "Collateral");
    current.play_is_playing = Some(false);
    let sessions = vec![session("a", "movie", "Heat"), current];

    let (id, _) = map_presence(&sessions, &Config::default(), NOW, Some("z"), "denis").unwrap();
    assert_eq!(id, "a");
}

#[test]
fn breaks_ties_lexicographically_so_the_result_never_flaps() {
    let sessions = vec![
        session("c", "movie", "Heat"),
        session("a", "movie", "Collateral"),
        session("b", "movie", "Thief"),
    ];

    let (id, _) = map_presence(&sessions, &Config::default(), NOW, None, "denis").unwrap();
    assert_eq!(id, "a");
}

#[test]
fn ignores_disabled_types_when_selecting() {
    let config = Config { enable_movies: false, ..Default::default() };

    let sessions = vec![
        session("a", "movie", "Heat"),
        session("b", "track", "Windowlicker"),
    ];

    let (id, state) = map_presence(&sessions, &config, NOW, None, "denis").unwrap();
    assert_eq!(id, "b");
    assert_eq!(state.kind, PresenceKind::Listening);
}

// ── Ownership ───────────────────────────────────────────────────────
// The session list can hold sessions the caller merely has permission to
// *see*. An unowned session is never broadcast, however it is dressed up.

#[test]
fn never_selects_another_users_session_even_when_it_is_the_only_one_playing() {
    let mut other = session("a", "movie", "The Mentalist");
    other.username = "someone-else".into();

    assert!(map_presence(&[other], &Config::default(), NOW, None, "denis").is_none());
}

#[test]
fn matches_the_owning_username_case_insensitively() {
    let mut mine = session("a", "movie", "Heat");
    mine.username = "Denis".into();

    let (id, _) = map_presence(&[mine], &Config::default(), NOW, None, "denis").unwrap();
    assert_eq!(id, "a");
}

#[test]
fn prefers_the_owned_session_even_when_the_tie_break_would_pick_the_other_users() {
    // Both playing, and "a-other" sorts before "z-own" lexicographically —
    // without the ownership filter, step 3 of `select` would pick the
    // other user's session outright.
    let mut mine = session("z-own", "movie", "Heat");
    mine.username = "denis".into();
    let mut other = session("a-other", "movie", "The Mentalist");
    other.username = "someone-else".into();

    let (id, _) =
        map_presence(&[other, mine], &Config::default(), NOW, None, "denis").unwrap();
    assert_eq!(id, "z-own");
}

#[test]
fn still_excludes_an_owned_session_disabled_by_media_type() {
    let config = Config { enable_movies: false, ..Default::default() };
    let mut mine = session("a", "movie", "Heat");
    mine.username = "denis".into();

    assert!(map_presence(&[mine], &config, NOW, None, "denis").is_none());
}

// ── Edges ───────────────────────────────────────────────────────────────

#[test]
fn shows_a_movie_without_a_year_by_its_title_alone() {
    let movie = session("a", "movie", "Heat");
    let (_, state) = map_presence(&[movie], &Config::default(), NOW, None, "denis").unwrap();
    assert_eq!(state.details, "Heat");
    assert_eq!(state.large_text.as_deref(), Some("Heat"));
}

#[test]
fn names_the_header_after_the_media_type() {
    let expected = [
        ("movie", "Movie"),
        ("series", "Series"),
        ("tv", "Series"),
        ("episode", "Series"),
        ("season", "Series"),
        ("music", "Music"),
        ("track", "Music"),
        ("audio", "Music"),
        ("audiobook", "Audiobook"),
        ("tvchannel", "Live TV"),
        ("radio", "Radio"),
    ];
    for (media_type, name) in expected {
        let item = session("a", media_type, "T");
        let (_, state) = map_presence(&[item], &Config::default(), NOW, None, "denis").unwrap();
        assert_eq!(state.name, name);
    }
}

#[test]
fn writes_large_season_and_episode_numbers_in_full() {
    let mut episode = session("a", "episode", "Pilot");
    episode.season_number = Some(10);
    episode.episode_number = Some(4294967295);
    let (_, state) = map_presence(&[episode], &Config::default(), NOW, None, "denis").unwrap();
    assert_eq!(state.state.as_deref(), Some("S10E4294967295"));
}

#[test]
fn leaves_out_the_code_when_a_number_is_missing() {
    let mut episode = session("a", "episode", "The Constant");
    episode.series_name = Some("Lost".into());
    episode.season_number = Some(4);
    let (_, state) = map_presence(&[episode], &Config::default(), NOW, None, "denis").unwrap();
    assert_eq!(state.state.as_deref(), Some("The Constant"));
}

#[test]
fn joins_only_segments_that_say_something() {
    assert_eq!(join(&[Some("a"), Some("b")]).as_deref(), Some("a · b"));
    assert_eq!(join(&[Some(""), Some("b")]).as_deref(), Some("b"));
    assert_eq!(join(&[Some("a"), None]).as_deref(), Some("a"));
    assert_eq!(join(&[None, Some("")]), None);
    assert_eq!(join(&[]), None);
}

#[test]
fn an_unknown_playing_state_counts_as_paused() {
    let mut movie = session("a", "movie", "Heat");
    movie.play_is_playing = None;
    let (_, state) = map_presence(&[movie], &Config::default(), NOW, None, "denis").unwrap();
    assert_eq!(state.timestamps, None);
    assert_eq!(state.state.as_deref(), Some("Paused"));
}

#[test]
fn a_negative_or_missing_position_counts_as_the_beginning() {
    for position in [Some(seconds(-5.0)), None] {
        let mut movie = session("a", "movie", "Heat");
        movie.play_current_time = position;
        let (_, state) = map_presence(&[movie], &Config::default(), NOW, None, "denis").unwrap();
        assert_eq!(state.timestamps.unwrap().start, NOW);
    }
}

#[test]
fn a_fraction_of_a_second_is_a_duration_that_rounds_to_nothing() {
    let mut movie = session("a", "movie", "Heat");
    movie.play_current_time = Some(seconds(1.9));
    movie.play_item_duration = Some(seconds(0.5));
    movie.duration = Some(seconds(3600.0));
    let (_, state) = map_presence(&[movie], &Config::default(), NOW, None, "denis").unwrap();
    let bounds = state.timestamps.unwrap();
    assert_eq!(bounds.start, NOW - 1);
    assert_eq!(bounds.end, Some(NOW - 1));
}

#[test]
fn a_negative_duration_has_no_end_bound() {
    let mut movie = session("a", "movie", "Heat");
    movie.play_item_duration = Some(seconds(-1.0));
    movie.duration = Some(seconds(-2.0));
    let (_, state) = map_presence(&[movie], &Config::default(), NOW, None, "denis").unwrap();
    assert_eq!(state.timestamps.unwrap().end, None);
}

#[test]
fn tells_when_a_bar_would_leave_the_clocks_range() {
    let config = Config::default();
    let mut movie = session("a", "movie", "Heat");
    assert!(can_map_presence(&[movie.clone()], &config, NOW, None, "denis"));
    movie.play_item_duration = Some(Seconds { whole: i64::MAX, positive: true });
    assert!(!can_map_presence(&[movie.clone()], &config, NOW, None, "denis"));
    assert_eq!(
        try_map_presence(&[movie.clone()], &config, NOW, None, "denis"),
        Err(OutOfRange)
    );
    movie.play_is_playing = Some(false);
    assert!(can_map_presence(&[movie.clone()], &config, NOW, None, "denis"));
    assert_eq!(
        try_map_presence(&[movie.clone()], &config, NOW, None, "denis"),
        Ok(map_presence(&[movie], &config, NOW, None, "denis"))
    );
    assert_eq!(try_map_presence(&[], &config, NOW, None, "denis"), Ok(None));
}

#[test]
fn keeps_a_text_of_exactly_the_limit_and_cuts_one_more() {
    let fits = "x".repeat(120);
    assert_eq!(clamp(&fits), fits);
    assert_eq!(clamp(&"x".repeat(121)), format!("{}…", "x".repeat(120)));
    assert_eq!(clamp(&clamp(&"x".repeat(500))).chars().count(), 121);
}

#[test]
fn strips_every_character_that_is_not_for_show() {
    let text = "a\u{0}\u{1F}\u{7F}\u{9F}\u{200B}\u{200F}\u{202A}\u{202E}\u{2066}\u{2069}\u{FEFF}b";
    assert_eq!(clamp(text), "ab");
    assert_eq!(clamp("\u{20}\u{A0}\u{2010}\u{202F}\u{206A}"), "\u{20}\u{A0}\u{2010}\u{202F}\u{206A}");
}

#[test]
fn a_long_paused_line_is_cut_to_what_discord_accepts() {
    let paused_line = |length: usize| {
        let mut track = session("a", "track", "Windowlicker");
        track.artist_name = Some("a".repeat(length));
        track.play_is_playing = Some(false);
        let (_, state) = map_presence(&[track], &Config::default(), NOW, None, "denis").unwrap();
        state.state.unwrap()
    };
    assert_eq!(paused_line(119), format!("{} · Paused", "a".repeat(119)));
    assert_eq!(paused_line(119).chars().count(), 128);
    for length in [120, 121, 200] {
        assert_eq!(paused_line(length), format!("{}… · Paused", "a".repeat(118)));
        assert_eq!(paused_line(length).chars().count(), 128);
    }
}

#[test]
fn open_ended_streams_have_no_end_whatever_they_carry() {
    for media_type in ["tvchannel", "radio"] {
        let mut stream = session("a", media_type, "BBC One");
        stream.play_current_time = Some(seconds(60.0));
        stream.duration = Some(seconds(3600.0));
        let (_, state) = map_presence(&[stream], &Config::default(), NOW, None, "denis").unwrap();
        let bounds = state.timestamps.unwrap();
        assert_eq!(bounds.start, NOW - 60);
        assert_eq!(bounds.end, None);
    }
}

#[test]
fn other_users_sessions_make_no_difference() {
    let mut other = session("a", "movie", "The Mentalist");
    other.username = "someone-else".into();
    let mut paused = session("c", "movie", "Heat");
    paused.play_is_playing = Some(false);
    let mut late = session("b", "movie", "Thief");
    late.play_is_playing = Some(false);
    let config = Config::default();
    let all = vec![other.clone(), paused.clone(), other, late.clone()];
    for current_id in [None, Some("a"), Some("c")] {
        assert_eq!(
            map_presence(&all, &config, NOW, current_id, "denis"),
            map_presence(&[paused.clone(), late.clone()], &config, NOW, current_id, "denis")
        );
    }
}

#[test]
fn accepts_artwork_up_to_the_size_limit() {
    assert!(validate_artwork_url(&format!("https://{}", "a".repeat(503))));
    assert!(!validate_artwork_url(&format!("https://{}", "a".repeat(504))));
    assert!(!validate_artwork_url(&format!("https://{}", "é".repeat(252))));
    assert!(!validate_artwork_url("HTTPS://example.com/a.jpg"));
}

#[test]
fn stays_on_a_paused_session_while_nothing_plays() {
    let mut first = session("a", "movie", "Heat");
    first.play_is_playing = Some(false);
    let mut second = session("z", "movie", "Collateral");
    second.play_is_playing = Some(false);
    let sessions = vec![first, second];
    let config = Config::default();
    let (id, _) = map_presence(&sessions, &config, NOW, Some("z"), "denis").unwrap();
    assert_eq!(id, "z");
    let (id, _) = map_presence(&sessions, &config, NOW, Some(&id), "denis").unwrap();
    assert_eq!(id, "z");
    let (id, _) = map_presence(&sessions, &config, NOW, Some("gone"), "denis").unwrap();
    assert_eq!(id, "a");
}

#[test]
fn the_order_of_the_list_makes_no_difference() {
    let sessions = vec![
        session("b", "movie", "Heat"),
        session("a", "track", "Windowlicker"),
        session("c", "radio", "NTS 1"),
    ];
    let mut reversed = sessions.clone();
    reversed.reverse();
    let config = Config::default();
    assert_eq!(
        map_presence(&sessions, &config, NOW, None, "denis"),
        map_presence(&reversed, &config, NOW, None, "denis")
    );
}

#[test]
fn only_ascii_letters_are_matched_without_their_case() {
    let mut mine = session("a", "movie", "Heat");
    mine.username = "ÉMILE".into();
    assert!(map_presence(&[mine.clone()], &Config::default(), NOW, None, "émile").is_none());
    assert!(map_presence(&[mine], &Config::default(), NOW, None, "Émile").is_some());
}
