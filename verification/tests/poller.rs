//! The background poll.

use lumastra_discord_rpc::api::client::ApiError;
use lumastra_discord_rpc::api::model::{Seconds, Session};
use lumastra_discord_rpc::auth::tokens::{AuthError, TokenResponse};
use lumastra_discord_rpc::config::Config;
use lumastra_discord_rpc::mapper::{PresenceKind, PresenceState};
use lumastra_discord_rpc::poller::{presence_status, Poller, Status, Step, TickEnd};

const SERVER: &str = "https://s.example";

/// How the outside world answers during one cycle.
struct World {
    auth_dirty: bool,
    handed: Option<TokenResponse>,
    config: Option<Config>,
    stored: Option<TokenResponse>,
    sessions: Result<Vec<Session>, ApiError>,
    reloaded: Option<TokenResponse>,
    refreshed: Result<TokenResponse, AuthError>,
    persisted: bool,
    username: Result<String, ApiError>,
    connected: bool,
}

/// What one cycle did.
#[derive(Debug, PartialEq)]
struct Record {
    calls: Vec<String>,
    sent: Option<PresenceState>,
    silenced: bool,
    end: TickEnd,
}

fn tokens(name: &str) -> TokenResponse {
    TokenResponse {
        access_token: format!("{name}-access"),
        refresh_token: Some(format!("{name}-refresh")),
        expires_in: Some(900),
    }
}

fn playing(id: &str, username: &str) -> Session {
    Session {
        id: id.into(),
        media_item_id: "m".into(),
        title: "Heat".into(),
        media_type: "movie".into(),
        username: username.into(),
        year: None,
        season_number: None,
        episode_number: None,
        series_name: None,
        author: None,
        chapter: None,
        artist_name: None,
        album_name: None,
        live_tv_program_name: None,
        now_playing_track: None,
        now_playing_artist: None,
        artwork_public_url: None,
        play_is_playing: Some(true),
        play_current_time: Some(Seconds { whole: 60, positive: true }),
        play_item_duration: None,
        duration: None,
    }
}

/// A world in which everything works and the user plays something.
fn healthy() -> World {
    World {
        auth_dirty: false,
        handed: None,
        config: Some(Config { server_url: Some(SERVER.into()), ..Default::default() }),
        stored: Some(tokens("stored")),
        sessions: Ok(vec![playing("a", "denis")]),
        reloaded: Some(tokens("stored")),
        refreshed: Ok(tokens("fresh")),
        persisted: true,
        username: Ok("denis".into()),
        connected: true,
    }
}

/// Run one cycle against a world.
fn run(poller: &mut Poller, world: World) -> Record {
    let World {
        auth_dirty,
        handed,
        config,
        stored,
        sessions,
        reloaded,
        refreshed,
        persisted,
        username,
        connected,
    } = world;
    let (mut stored, mut sessions, mut reloaded) = (Some(stored), Some(sessions), Some(reloaded));
    let (mut refreshed, mut username) = (Some(refreshed), Some(username));
    let mut calls: Vec<String> = vec![];
    let mut sent = None;
    let mut silenced = false;
    let mut step = poller.begin(auth_dirty, handed, config);
    loop {
        step = match step {
            Step::LoadTokens(wait) => {
                calls.push("load".into());
                poller.tokens_loaded(wait, stored.take().unwrap())
            }
            Step::FetchSessions(wait) => {
                calls.push(format!("sessions {} {}", wait.base_url, wait.access_token));
                poller.sessions_fetched(wait, sessions.take().unwrap())
            }
            Step::ReloadTokens(wait) => {
                calls.push("reload".into());
                poller.tokens_reloaded(wait, reloaded.take().unwrap())
            }
            Step::ClearTokens => {
                calls.push("clear".into());
                poller.tokens_cleared()
            }
            Step::Refresh(wait) => {
                calls.push(format!("refresh {} {}", wait.base_url, wait.refresh_token));
                poller.tokens_refreshed(wait, refreshed.take().unwrap())
            }
            Step::StoreTokens(wait) => {
                calls.push(format!("store {}", wait.fresh.access_token));
                poller.tokens_stored(wait, persisted)
            }
            Step::FetchUsername(wait) => {
                calls.push(format!("username {} {}", wait.base_url, wait.access_token));
                poller.username_fetched(wait, username.take().unwrap())
            }
            Step::Connect(wait) => poller.connected(wait, 1000),
            Step::Broadcast(wait) => {
                sent = Some(wait.state.clone());
                Step::Finish(poller.broadcast_done(wait, connected))
            }
            Step::Silence => {
                silenced = true;
                Step::Finish(poller.silence_done(connected))
            }
            Step::Finish(end) => return Record { calls, sent, silenced, end },
        };
    }
}

/// A poller that has been through one healthy cycle.
fn settled() -> Poller {
    let mut poller = Poller::new();
    run(&mut poller, healthy());
    poller
}

fn end(first: Option<Status>, clear: bool, last: Option<Status>, delay: u64) -> TickEnd {
    TickEnd { status_first: first, clear_presence: clear, status_last: last, delay_seconds: delay }
}

#[test]
fn the_first_cycle_reads_the_tokens_and_learns_the_username() {
    let mut poller = Poller::new();
    let record = run(&mut poller, healthy());
    assert_eq!(
        record.calls,
        vec![
            "load".to_string(),
            "sessions https://s.example stored-access".to_string(),
            "username https://s.example stored-access".to_string(),
        ]
    );
    let state = record.sent.unwrap();
    assert_eq!(state.details, "Heat");
    assert_eq!(state.timestamps.unwrap().start, 940);
    assert_eq!(
        record.end,
        end(None, false, Some(Status::Broadcasting(PresenceKind::Watching, "Heat".into())), 15)
    );
    assert_eq!(poller.current_id.as_deref(), Some("a"));
    assert_eq!(poller.current_username.as_deref(), Some("denis"));
    assert_eq!(poller.cached_tokens, Some(tokens("stored")));
}

#[test]
fn the_steady_state_asks_for_sessions_and_nothing_else() {
    let mut poller = settled();
    let record = run(&mut poller, healthy());
    assert_eq!(record.calls, vec!["sessions https://s.example stored-access".to_string()]);
}

#[test]
fn pausing_clears_the_presence_without_a_call() {
    let mut poller = settled();
    let config = Some(Config {
        server_url: Some(SERVER.into()),
        paused: true,
        ..Default::default()
    });
    let record = run(&mut poller, World { config, ..healthy() });
    assert!(record.calls.is_empty());
    assert_eq!(record.end, end(None, true, Some(Status::Paused), 15));
    assert_eq!(poller.current_id, None);
    // Unpausing goes on without signing in again.
    assert_eq!(run(&mut poller, healthy()).calls.len(), 1);
}

#[test]
fn without_a_server_nothing_is_called() {
    let mut poller = settled();
    let record = run(&mut poller, World { config: Some(Config::default()), ..healthy() });
    assert!(record.calls.is_empty());
    assert_eq!(record.end, end(None, true, Some(Status::NoServer), 15));
    assert_eq!(poller.current_username, None);
}

#[test]
fn without_tokens_the_user_is_signed_out() {
    let mut poller = Poller::new();
    let record = run(&mut poller, World { stored: None, ..healthy() });
    assert_eq!(record.calls, vec!["load".to_string()]);
    assert_eq!(record.end, end(None, true, Some(Status::SignedOut), 15));
}

#[test]
fn touched_tokens_are_read_again_in_the_next_cycle() {
    let mut poller = settled();
    let record = run(
        &mut poller,
        World { auth_dirty: true, stored: Some(tokens("new")), ..healthy() },
    );
    assert_eq!(
        record.calls,
        vec![
            "load".to_string(),
            "sessions https://s.example new-access".to_string(),
            "username https://s.example new-access".to_string(),
        ]
    );
    let record = run(&mut poller, World { auth_dirty: true, stored: None, ..healthy() });
    assert_eq!(record.calls, vec!["load".to_string()]);
    assert_eq!(record.end, end(None, true, Some(Status::SignedOut), 15));
    assert_eq!(poller.current_username, None);
}

#[test]
fn another_account_is_never_shown_under_the_old_name() {
    let mut poller = settled();
    let record = run(
        &mut poller,
        World {
            auth_dirty: true,
            stored: Some(tokens("new")),
            sessions: Ok(vec![playing("old", "denis"), playing("new", "other")]),
            username: Ok("other".into()),
            ..healthy()
        },
    );
    assert_eq!(poller.current_username.as_deref(), Some("other"));
    assert_eq!(poller.current_id.as_deref(), Some("new"));
    assert!(record.sent.is_some());
}

#[test]
fn what_was_shown_goes_while_the_new_account_is_not_confirmed() {
    let unconfirmed = [
        World { username: Err(ApiError::Status(500)), ..healthy() },
        World { sessions: Err(ApiError::Network("timed out".into())), ..healthy() },
        World { sessions: Err(ApiError::Unauthorized), persisted: false, ..healthy() },
        World { sessions: Err(ApiError::Unauthorized), ..healthy() },
        World { config: None, ..healthy() },
    ];
    for world in unconfirmed {
        let mut poller = settled();
        let record = run(&mut poller, World { auth_dirty: true, ..world });
        assert_eq!(record.sent, None);
        assert!(record.end.clear_presence);
        assert_eq!(poller.current_id, None);
        assert_eq!(poller.current_username, None);
    }
}

#[test]
fn a_sign_in_that_no_store_holds_works_for_this_run() {
    let mut poller = Poller::new();
    let record = run(
        &mut poller,
        World { auth_dirty: true, handed: Some(tokens("memory")), stored: None, ..healthy() },
    );
    assert_eq!(
        record.calls,
        vec![
            "sessions https://s.example memory-access".to_string(),
            "username https://s.example memory-access".to_string(),
        ]
    );
    assert!(record.sent.is_some());
    let record = run(&mut poller, World { stored: None, ..healthy() });
    assert_eq!(record.calls, vec!["sessions https://s.example memory-access".to_string()]);
}

#[test]
fn an_expired_access_token_is_refreshed_with_the_stored_refresh_token() {
    let mut poller = settled();
    let record =
        run(&mut poller, World { sessions: Err(ApiError::Unauthorized), ..healthy() });
    assert_eq!(
        record.calls,
        vec![
            "sessions https://s.example stored-access".to_string(),
            "reload".to_string(),
            "refresh https://s.example stored-refresh".to_string(),
            "store fresh-access".to_string(),
        ]
    );
    assert_eq!(record.end, end(None, false, None, 1));
    assert_eq!(poller.consecutive_failures, 1);
    let record = run(&mut poller, healthy());
    assert_eq!(record.calls, vec!["sessions https://s.example fresh-access".to_string()]);
    assert_eq!(poller.consecutive_failures, 0);
}

#[test]
fn another_pair_in_the_store_is_used_and_its_owner_asked_for() {
    let mut poller = settled();
    let reloaded = Some(tokens("reloaded"));
    let record = run(
        &mut poller,
        World { sessions: Err(ApiError::Unauthorized), reloaded, ..healthy() },
    );
    assert_eq!(record.calls[2], "refresh https://s.example reloaded-refresh");
    assert_eq!(record.end, end(None, true, None, 1));
    assert_eq!(poller.current_id, None);
    let record = run(&mut poller, healthy());
    assert_eq!(
        record.calls,
        vec![
            "sessions https://s.example fresh-access".to_string(),
            "username https://s.example fresh-access".to_string(),
        ]
    );
}

#[test]
fn a_sign_out_in_the_meantime_is_not_undone_by_a_refresh() {
    let mut poller = settled();
    let record = run(
        &mut poller,
        World { sessions: Err(ApiError::Unauthorized), reloaded: None, ..healthy() },
    );
    assert_eq!(
        record.calls,
        vec!["sessions https://s.example stored-access".to_string(), "reload".to_string()]
    );
    assert_eq!(record.end, end(None, true, Some(Status::SignedOut), 15));
    assert_eq!(poller.cached_tokens, None);
}

#[test]
fn a_pair_that_cannot_be_refreshed_is_dropped() {
    let mut poller = settled();
    let bare = TokenResponse { refresh_token: None, ..tokens("bare") };
    let record = run(
        &mut poller,
        World { sessions: Err(ApiError::Unauthorized), reloaded: Some(bare), ..healthy() },
    );
    assert_eq!(record.calls[2], "clear");
    assert_eq!(record.end, end(None, true, Some(Status::SignedOut), 15));
    assert_eq!(poller.cached_tokens, None);
}

#[test]
fn a_rejected_refresh_signs_out_and_is_not_repeated() {
    let mut poller = settled();
    let record = run(
        &mut poller,
        World {
            sessions: Err(ApiError::Unauthorized),
            refreshed: Err(AuthError::RefreshRejected),
            ..healthy()
        },
    );
    assert_eq!(record.calls.last().map(String::as_str), Some("clear"));
    assert_eq!(record.end, end(None, true, Some(Status::SignedOut), 15));
    let record = run(&mut poller, World { stored: None, ..healthy() });
    assert_eq!(record.calls, vec!["load".to_string()]);
}

#[test]
fn a_rejected_pair_that_could_not_be_removed_is_not_exchanged_again() {
    let mut poller = settled();
    let rejecting = || World {
        sessions: Err(ApiError::Unauthorized),
        refreshed: Err(AuthError::RefreshRejected),
        ..healthy()
    };
    run(&mut poller, rejecting());
    for _ in 0..2 {
        let record = run(&mut poller, rejecting());
        assert_eq!(record.calls, vec!["load".to_string(), "clear".to_string()]);
        assert_eq!(record.end, end(None, true, Some(Status::SignedOut), 15));
    }
    // A pair in memory is used; the one in the store still is not.
    let record = run(
        &mut poller,
        World { auth_dirty: true, handed: Some(tokens("memory")), ..rejecting() },
    );
    assert_eq!(
        record.calls,
        vec![
            "sessions https://s.example memory-access".to_string(),
            "reload".to_string(),
            "clear".to_string(),
        ]
    );
    // Signing in anew works.
    let record = run(
        &mut poller,
        World { auth_dirty: true, stored: Some(tokens("new")), ..healthy() },
    );
    assert!(record.sent.is_some());
}

#[test]
fn a_refresh_that_cannot_be_saved_is_used_and_announced() {
    let mut poller = settled();
    let record = run(
        &mut poller,
        World { sessions: Err(ApiError::Unauthorized), persisted: false, ..healthy() },
    );
    assert_eq!(record.end, end(None, false, Some(Status::NotSaved), 1));
    assert_eq!(poller.consecutive_failures, 0);
    assert_eq!(poller.cached_tokens, Some(tokens("fresh")));
}

#[test]
fn a_refresh_that_cannot_be_saved_is_no_failed_poll() {
    let mut poller = settled();
    poller.consecutive_failures = 5;
    let record = run(
        &mut poller,
        World { sessions: Err(ApiError::Unauthorized), persisted: false, ..healthy() },
    );
    assert_eq!(record.end, end(None, false, Some(Status::NotSaved), 1));
    assert_eq!(poller.current_id.as_deref(), Some("a"));
    assert_eq!(poller.consecutive_failures, 5);
}

#[test]
fn a_server_that_keeps_rejecting_fresh_tokens_is_backed_off_from() {
    let mut poller = settled();
    let rejecting = |poller: &Poller| World {
        sessions: Err(ApiError::Unauthorized),
        reloaded: poller.cached_tokens.clone(),
        ..healthy()
    };
    for delay in [1, 1] {
        let world = rejecting(&poller);
        assert_eq!(run(&mut poller, world).end, end(None, false, None, delay));
    }
    let world = rejecting(&poller);
    assert_eq!(run(&mut poller, world).end, end(None, true, Some(Status::Unreachable), 60));
    assert_eq!(poller.current_id, None);
}

#[test]
fn an_outage_keeps_the_presence_twice_and_then_clears_it() {
    let mut poller = settled();
    for clear in [false, false, true, true] {
        let record = run(
            &mut poller,
            World { sessions: Err(ApiError::Network("timed out".into())), ..healthy() },
        );
        assert_eq!(record.end, end(Some(Status::Unreachable), clear, None, 60));
        assert_eq!(poller.current_id.is_none(), clear);
    }
    let record = run(&mut poller, healthy());
    assert!(record.sent.is_some());
    assert_eq!(poller.consecutive_failures, 0);
}

#[test]
fn denied_access_is_not_refreshed() {
    let mut poller = settled();
    let record = run(&mut poller, World { sessions: Err(ApiError::Forbidden), ..healthy() });
    assert_eq!(record.calls, vec!["sessions https://s.example stored-access".to_string()]);
    assert_eq!(record.end, end(Some(Status::Unreachable), false, None, 60));
}

#[test]
fn a_refresh_that_fails_otherwise_is_an_outage() {
    let mut poller = settled();
    let record = run(
        &mut poller,
        World {
            sessions: Err(ApiError::Unauthorized),
            refreshed: Err(AuthError::Status(500)),
            ..healthy()
        },
    );
    assert_eq!(record.end, end(Some(Status::Unreachable), false, None, 60));
    assert_eq!(poller.cached_tokens, Some(tokens("stored")));
}

#[test]
fn a_missing_config_directory_counts_as_a_failure() {
    let mut poller = settled();
    for clear in [false, false, true] {
        let record = run(&mut poller, World { config: None, ..healthy() });
        assert!(record.calls.is_empty());
        assert_eq!(record.end, end(None, clear, None, 60));
    }
}

#[test]
fn nothing_is_broadcast_while_the_username_is_unknown() {
    let mut poller = Poller::new();
    for _ in 0..4 {
        let record = run(
            &mut poller,
            World { username: Err(ApiError::Status(500)), ..healthy() },
        );
        assert_eq!(record.sent, None);
        assert_eq!(record.end, end(Some(Status::Unreachable), true, None, 60));
        assert_eq!(poller.current_id, None);
        assert_eq!(poller.consecutive_failures, 1);
    }
}

#[test]
fn another_users_session_silences_the_presence() {
    let mut poller = settled();
    let record = run(
        &mut poller,
        World { sessions: Ok(vec![playing("b", "someone-else")]), ..healthy() },
    );
    assert_eq!(record.sent, None);
    assert!(record.silenced);
    assert_eq!(record.end, end(None, false, Some(Status::NothingPlaying), 15));
    assert_eq!(poller.current_id, None);
}

#[test]
fn stays_on_the_session_that_is_being_broadcast() {
    let mut poller = Poller::new();
    run(&mut poller, World { sessions: Ok(vec![playing("z", "denis")]), ..healthy() });
    let sessions = Ok(vec![playing("a", "denis"), playing("z", "denis")]);
    run(&mut poller, World { sessions, ..healthy() });
    assert_eq!(poller.current_id.as_deref(), Some("z"));
}

#[test]
fn says_so_when_discord_is_not_running() {
    let mut poller = settled();
    let record = run(&mut poller, World { connected: false, ..healthy() });
    assert_eq!(record.end, end(None, false, Some(Status::DiscordNotRunning), 15));
    let record = run(&mut poller, World { connected: false, sessions: Ok(vec![]), ..healthy() });
    assert_eq!(record.end, end(None, false, Some(Status::DiscordNotRunning), 15));
}

#[test]
fn the_failure_count_does_not_wrap() {
    let mut poller = Poller::new();
    poller.current_username = Some("denis".into());
    poller.consecutive_failures = u32::MAX;
    assert!(poller.note_failure());
    assert_eq!(poller.consecutive_failures, u32::MAX);
    poller.consecutive_failures = 1;
    assert!(!poller.note_failure());
    assert!(poller.note_failure());
    poller.current_username = None;
    poller.consecutive_failures = 0;
    assert!(poller.note_failure());
}

#[test]
fn an_absurd_duration_does_not_stop_the_poll() {
    let mut poller = settled();
    let mut absurd = playing("a", "denis");
    absurd.play_item_duration = Some(Seconds { whole: i64::MAX, positive: true });
    let record = run(&mut poller, World { sessions: Ok(vec![absurd]), ..healthy() });
    assert!(record.silenced);
    assert_eq!(record.end, end(None, false, Some(Status::NothingPlaying), 15));
    assert!(run(&mut poller, healthy()).sent.is_some());
}

#[test]
fn puts_each_status_into_words() {
    let listening = Status::Broadcasting(PresenceKind::Listening, "Dune".into());
    let watching = Status::Broadcasting(PresenceKind::Watching, "Heat (1995)".into());
    let cases = [
        (Status::Paused, "Paused"),
        (Status::NoServer, "No server configured"),
        (Status::SignedOut, "Signed out"),
        (Status::Unreachable, "Server unreachable"),
        (Status::NotSaved, "Sign-in not saved — will be needed again after restart"),
        (Status::NothingPlaying, "Nothing playing"),
        (Status::DiscordNotRunning, "Discord not running"),
        (listening, "Listening to Dune"),
        (watching, "Watching Heat (1995)"),
    ];
    for (status, words) in cases {
        assert_eq!(status.words(), words);
    }
}

#[test]
fn claims_to_show_only_what_reached_discord() {
    let mut poller = Poller::new();
    let state = run(&mut poller, healthy()).sent.unwrap();
    assert_eq!(presence_status(false, &state), Status::DiscordNotRunning);
    assert_eq!(presence_status(true, &state).words(), "Watching Heat");
}
