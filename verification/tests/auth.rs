//! Signing in, staying signed in, and signing out.

use lumastra_discord_rpc::api::client::FormRequest;
use lumastra_discord_rpc::auth::device_flow::{
    before_deadline, device_outcome, device_request, poll_for_token, poll_request, DeviceCodeResponse, PollStep,
};
use lumastra_discord_rpc::auth::dirty::{AuthDirty, TokenNews};
use lumastra_discord_rpc::auth::login::{
    browser_tried, device_obtained, signed_out, token_polled, tokens_kept, DeviceNotice, LoginResult,
    LoginStep, PersistOutcome,
};
use lumastra_discord_rpc::auth::tokens::{
    clear, config_dir_from, file_dropped, file_written, keychain_active_after, keychain_dropped,
    keychain_read_back, keychain_written, load, refresh_outcome, refresh_request, store, verify_round_trip, AuthError, Backend, ConfigDir,
    EnvValue, Holder, Platform, Removal, StoreStep, TokenResponse, APP_IDENTIFIER,
};
use lumastra_discord_rpc::files::SaveError;

fn sample() -> TokenResponse {
    TokenResponse {
        access_token: "access-123".into(),
        refresh_token: Some("refresh-456".into()),
        expires_in: Some(3600),
    }
}

// ── Reading back what was stored ────────────────────────────────────────

#[test]
fn true_when_the_read_back_matches_what_was_stored() {
    let stored = sample();
    let loaded = sample();
    assert!(verify_round_trip(&stored, Some(&loaded)));
}

#[test]
fn false_when_nothing_reads_back() {
    // An unsigned build: storing reports success, but the entry it wrote
    // isn't readable under this process's signature.
    let stored = sample();
    assert!(!verify_round_trip(&stored, None));
}

#[test]
fn false_when_the_read_back_is_a_stale_value() {
    // Not just "nothing there": a signature mismatch can also resolve to a
    // leftover entry from a previous install/signature.
    let stored = sample();
    let stale = TokenResponse {
        access_token: "old-access".into(),
        ..sample()
    };
    assert!(!verify_round_trip(&stored, Some(&stale)));
}

#[test]
fn every_part_of_the_pair_has_to_read_back() {
    let no_refresh = TokenResponse { refresh_token: None, ..sample() };
    let other_lifetime = TokenResponse { expires_in: Some(3601), ..sample() };
    let no_lifetime = TokenResponse { expires_in: None, ..sample() };
    for other in [no_refresh, other_lifetime, no_lifetime] {
        assert!(!verify_round_trip(&sample(), Some(&other)));
        assert!(verify_round_trip(&other, Some(&other)));
    }
}

// ── The token stores ────────────────────────────────────────────────────

#[test]
fn a_release_build_trusts_the_keychain_once_it_reads_back() {
    assert_eq!(store(Backend::Keychain), StoreStep::WriteKeychain);
    assert_eq!(keychain_written(Ok(())), StoreStep::ReadBack);
    assert_eq!(keychain_read_back(&sample(), Some(&sample())), StoreStep::DropFile);
    assert_eq!(file_dropped(), StoreStep::Finished(Ok(Holder::Keychain)));
}

#[test]
fn a_keychain_that_does_not_read_back_gives_way_to_the_file() {
    assert_eq!(
        keychain_read_back(&sample(), None),
        StoreStep::WriteFile { stale_entry: false }
    );
    assert_eq!(file_written(false, Some(Ok(()))), StoreStep::Finished(Ok(Holder::File)));
}

#[test]
fn a_stale_entry_is_removed_so_that_the_file_is_read() {
    let stale = TokenResponse { access_token: "old".into(), ..sample() };
    assert_eq!(
        keychain_read_back(&sample(), Some(&stale)),
        StoreStep::WriteFile { stale_entry: true }
    );
    assert_eq!(file_written(true, Some(Ok(()))), StoreStep::DropKeychain);
    for gone in [Removal::Removed, Removal::Absent] {
        assert_eq!(keychain_dropped(gone), StoreStep::Finished(Ok(Holder::File)));
    }
    assert_eq!(
        keychain_dropped(Removal::Failed("locked".into())),
        StoreStep::Finished(Err(AuthError::Keyring("locked".into())))
    );
    // What is loaded then, in this run and in the next.
    assert_eq!(load(false, None, Some(sample())), Some(sample()));
    assert_eq!(load(true, None, Some(sample())), Some(sample()));
}

#[test]
fn a_debug_build_writes_the_file_alone() {
    assert_eq!(store(Backend::File), StoreStep::WriteFile { stale_entry: false });
}

#[test]
fn reports_each_way_of_failing_to_store() {
    assert_eq!(
        keychain_written(Err("locked".into())),
        StoreStep::Finished(Err(AuthError::Keyring("locked".into())))
    );
    assert_eq!(file_written(false, None), StoreStep::Finished(Err(AuthError::NoConfigDir)));
    assert_eq!(
        file_written(true, Some(Err(SaveError::Io("full".into())))),
        StoreStep::Finished(Err(AuthError::Io("full".into())))
    );
    assert_eq!(
        file_written(true, Some(Err(SaveError::Serialize("odd".into())))),
        StoreStep::Finished(Err(AuthError::Serde("odd".into())))
    );
}

#[test]
fn reads_the_keychain_first_and_the_file_where_it_has_to() {
    let other = || TokenResponse { access_token: "file".into(), ..sample() };
    assert_eq!(load(true, Some(sample()), Some(other())), Some(sample()));
    assert_eq!(load(true, None, Some(other())), Some(other()));
    assert_eq!(load(false, Some(sample()), Some(other())), Some(other()));
    assert_eq!(load(false, Some(sample()), None), None);
    assert_eq!(load(true, None, None), None);
}

#[test]
fn reads_the_keychain_first_as_long_as_it_holds_the_tokens() {
    for active in [true, false] {
        assert!(keychain_active_after(active, &Ok(Holder::Keychain)));
        assert!(!keychain_active_after(active, &Ok(Holder::File)));
        assert_eq!(keychain_active_after(active, &Err(AuthError::NoConfigDir)), active);
    }
}

#[test]
fn clearing_an_absent_entry_is_no_error() {
    for backend in [Backend::Keychain, Backend::File] {
        assert_eq!(clear(backend, Removal::Absent, Some(Removal::Absent)), Ok(()));
        assert_eq!(clear(backend, Removal::Removed, Some(Removal::Absent)), Ok(()));
        assert_eq!(clear(backend, Removal::Absent, Some(Removal::Removed)), Ok(()));
        assert_eq!(
            clear(backend, Removal::Failed("locked".into()), Some(Removal::Removed)),
            Err(AuthError::Keyring("locked".into()))
        );
        assert_eq!(
            clear(backend, Removal::Absent, Some(Removal::Failed("denied".into()))),
            Err(AuthError::Io("denied".into()))
        );
    }
}

#[test]
fn clearing_without_any_store_is_an_error() {
    assert_eq!(clear(Backend::File, Removal::Absent, None), Err(AuthError::NoConfigDir));
    assert_eq!(clear(Backend::Keychain, Removal::Removed, None), Ok(()));
}

// ── The config directory ────────────────────────────────────────────────

fn set(value: &str) -> Option<EnvValue<&str>> {
    Some(EnvValue { value, is_empty: value.is_empty() })
}

fn path(dir: &ConfigDir<&str>, separator: &str) -> String {
    let mut path = dir.base.to_string();
    for segment in &dir.segments {
        path = format!("{path}{separator}{segment}");
    }
    path
}

#[test]
fn resolves_under_library_application_support_on_macos() {
    let dir = config_dir_from(Platform::MacOs, set("/Users/test"), None, None).unwrap();

    assert!(path(&dir, "/").ends_with(APP_IDENTIFIER));
    assert!(path(&dir, "/").contains("Library/Application Support"));
}

#[test]
fn returns_none_without_home_on_macos() {
    assert_eq!(config_dir_from::<&str>(Platform::MacOs, None, None, None), None);
}

#[test]
fn resolves_under_appdata_on_windows() {
    let dir =
        config_dir_from(Platform::Windows, None, set(r"C:\Users\test\AppData\Roaming"), None)
            .unwrap();

    assert!(path(&dir, r"\").ends_with(APP_IDENTIFIER));
    assert!(!path(&dir, "/").contains("Library/Application Support"));
}

#[test]
fn returns_none_without_appdata_on_windows_even_when_home_is_set() {
    // Git for Windows sets HOME; it must never be used as a fallback for the
    // Windows config directory.
    assert_eq!(config_dir_from(Platform::Windows, set(r"C:\Users\test"), None, None), None);
}

#[test]
fn resolves_under_xdg_config_home_on_linux() {
    let dir =
        config_dir_from(Platform::Unix, set("/home/test"), None, set("/home/test/.config"))
            .unwrap();

    assert!(path(&dir, "/").ends_with(APP_IDENTIFIER));
}

#[test]
fn falls_back_to_home_dot_config_when_xdg_config_home_is_unset_or_empty() {
    let via_unset = config_dir_from(Platform::Unix, set("/home/test"), None, None).unwrap();
    assert!(path(&via_unset, "/").ends_with(APP_IDENTIFIER));
    assert!(path(&via_unset, "/").contains(".config"));

    let via_empty =
        config_dir_from(Platform::Unix, set("/home/test"), None, set("")).unwrap();
    assert_eq!(via_unset, via_empty);
}

#[test]
fn returns_none_without_home_or_xdg_config_home_on_linux() {
    assert_eq!(config_dir_from::<&str>(Platform::Unix, None, None, None), None);
}

#[test]
fn spells_out_each_platforms_directory() {
    let home = set("/h");
    assert_eq!(
        path(&config_dir_from(Platform::MacOs, home, set("/a"), set("/x")).unwrap(), "/"),
        "/h/Library/Application Support/org.lumastra.discord-rpc"
    );
    assert_eq!(
        path(&config_dir_from(Platform::Windows, home, set(r"C:\a"), set("/x")).unwrap(), r"\"),
        r"C:\a\org.lumastra.discord-rpc"
    );
    assert_eq!(
        path(&config_dir_from(Platform::Unix, home, set("/a"), set("/x")).unwrap(), "/"),
        "/x/org.lumastra.discord-rpc"
    );
    assert_eq!(
        path(&config_dir_from(Platform::Unix, home, None, None).unwrap(), "/"),
        "/h/.config/org.lumastra.discord-rpc"
    );
}

// ── Requests and their outcomes ─────────────────────────────────────────

fn form(url: &str, fields: &[(&'static str, &str)]) -> FormRequest {
    FormRequest {
        url: url.into(),
        fields: fields.iter().map(|(name, value)| (*name, value.to_string())).collect(),
    }
}

#[test]
fn asks_for_a_device_code_with_the_client_id_and_media_scope() {
    assert_eq!(
        device_request("https://s.example").unwrap(),
        form(
            "https://s.example/oauth/device",
            &[
                ("client_id", "lumastra-discord-rpc"),
                ("scope", "media"),
                ("device_name", "Lumastra Discord RPC"),
            ]
        )
    );
    assert_eq!(device_outcome(200), Ok(()));
    assert_eq!(device_outcome(400), Err(AuthError::Status(400)));
    assert_eq!(device_outcome(204), Err(AuthError::Status(204)));
}

#[test]
fn polls_with_the_device_code() {
    assert_eq!(
        poll_request("https://s.example/lumastra/", "dc").unwrap(),
        form(
            "https://s.example/lumastra/oauth/token",
            &[
                ("grant_type", "urn:ietf:params:oauth:grant-type:device_code"),
                ("device_code", "dc"),
                ("client_id", "lumastra-discord-rpc"),
            ]
        )
    );
}

#[test]
fn exchanges_the_refresh_token() {
    assert_eq!(
        refresh_request("https://s.example", "rt").unwrap(),
        form(
            "https://s.example/oauth/token",
            &[
                ("grant_type", "refresh_token"),
                ("refresh_token", "rt"),
                ("client_id", "lumastra-discord-rpc"),
            ]
        )
    );
    assert_eq!(refresh_outcome(200), Ok(()));
    assert_eq!(refresh_outcome(400), Err(AuthError::RefreshRejected));
    assert_eq!(refresh_outcome(401), Err(AuthError::RefreshRejected));
    assert_eq!(refresh_outcome(403), Err(AuthError::Status(403)));
    assert_eq!(refresh_outcome(500), Err(AuthError::Status(500)));
}

#[test]
fn a_bad_server_url_fails_every_form() {
    let error = AuthError::Url("relative URL without a base".into());
    assert_eq!(device_request("nowhere").unwrap_err(), error);
    assert_eq!(poll_request("nowhere", "dc").unwrap_err(), error);
    assert_eq!(refresh_request("nowhere", "rt").unwrap_err(), error);
}

#[test]
fn waits_while_the_user_has_not_approved_yet() {
    let pending = Some("authorization_pending");
    assert_eq!(poll_for_token(0, 3600, 0, 400, pending), PollStep::Wait(0));
    assert_eq!(poll_for_token(5, 3600, 3594, 400, pending), PollStep::Wait(5));
    assert_eq!(poll_for_token(5, 3600, 0, 200, None), PollStep::Granted);
    assert_eq!(poll_for_token(5, 3600, 0, 299, pending), PollStep::Granted);
}

#[test]
fn slows_down_for_good_when_the_server_asks() {
    assert_eq!(poll_for_token(5, 3600, 10, 400, Some("slow_down")), PollStep::Wait(10));
    assert_eq!(poll_for_token(10, 3600, 20, 429, Some("slow_down")), PollStep::Wait(15));
    assert_eq!(poll_for_token(15, 3600, 35, 400, Some("authorization_pending")), PollStep::Wait(15));
}

#[test]
fn gives_up_on_a_denial_an_expiry_and_anything_unknown() {
    let failed = |error| poll_for_token(0, 3600, 0, 400, error);
    assert_eq!(failed(Some("access_denied")), PollStep::Failed(AuthError::Denied));
    assert_eq!(failed(Some("expired_token")), PollStep::Failed(AuthError::Expired));
    assert_eq!(failed(Some("unknown")), PollStep::Failed(AuthError::Status(400)));
    assert_eq!(failed(None), PollStep::Failed(AuthError::Status(400)));
    assert_eq!(
        poll_for_token(0, 3600, 0, 300, None),
        PollStep::Failed(AuthError::Status(400))
    );
}

#[test]
fn gives_up_once_the_deadline_passes_whatever_the_server_says() {
    for error in ["authorization_pending", "slow_down"] {
        assert_eq!(
            poll_for_token(0, 0, 0, 400, Some(error)),
            PollStep::Failed(AuthError::Expired)
        );
        assert_eq!(
            poll_for_token(5, 600, 601, 400, Some(error)),
            PollStep::Failed(AuthError::Expired)
        );
    }
    assert_eq!(poll_for_token(5, 600, 601, 200, None), PollStep::Granted);
}

#[test]
fn begins_no_wait_that_would_reach_the_deadline() {
    let pending = Some("authorization_pending");
    let expired = PollStep::Failed(AuthError::Expired);
    assert_eq!(poll_for_token(5, 3600, 3595, 400, pending), expired);
    assert_eq!(poll_for_token(5, 3600, 3599, 400, pending), expired);
    assert_eq!(poll_for_token(5, 600, 589, 400, Some("slow_down")), PollStep::Wait(10));
    assert_eq!(poll_for_token(5, 600, 590, 400, Some("slow_down")), expired);
    assert_eq!(poll_for_token(u64::MAX, u64::MAX, 0, 400, Some("slow_down")), expired);
    assert_eq!(poll_for_token(u64::MAX, u64::MAX, 0, 400, pending), expired);
    assert_eq!(before_deadline(600, 599), Ok(()));
    assert_eq!(before_deadline(600, 600), Err(AuthError::Expired));
    assert_eq!(before_deadline(0, 0), Err(AuthError::Expired));
}

#[test]
fn puts_sign_in_errors_into_words() {
    let cases = [
        (AuthError::Network("timed out".into()), "network error: timed out"),
        (AuthError::Url("odd".into()), "invalid server URL: odd"),
        (AuthError::Keyring("locked".into()), "keychain error: locked"),
        (AuthError::Serde("eof".into()), "serialization error: eof"),
        (AuthError::Denied, "authorization denied"),
        (AuthError::Expired, "device code expired"),
        (AuthError::RefreshRejected, "refresh rejected"),
        (AuthError::Status(503), "server returned 503"),
        (AuthError::BlockingTaskFailed, "keychain task did not complete"),
        (AuthError::Io("full".into()), "dev token file io error: full"),
        (AuthError::NoConfigDir, "could not resolve app config directory"),
    ];
    for (error, words) in cases {
        assert_eq!(error.message(), words);
    }
}

// ── The whole sign-in ───────────────────────────────────────────────────

fn device() -> DeviceCodeResponse {
    DeviceCodeResponse {
        device_code: "dc".into(),
        user_code: "ABCD-EFGH".into(),
        verification_uri: "https://s/device".into(),
        verification_uri_complete: Some("https://s/device?code=ABCD-EFGH".into()),
        expires_in: 600,
        interval: Some(7),
    }
}

#[test]
fn signs_in_step_by_step() {
    let opening = match device_obtained(Ok(device())) {
        LoginStep::Open(opening) => opening,
        other => panic!("{other:?}"),
    };
    assert_eq!(opening.target, "https://s/device?code=ABCD-EFGH");
    let polling = browser_tried(opening, false);
    assert_eq!(
        polling.notice,
        DeviceNotice {
            user_code: "ABCD-EFGH".into(),
            verification_uri: "https://s/device".into(),
            browser_opened: false,
        }
    );
    assert_eq!(polling.interval_seconds, 7);
    assert_eq!(polling.device, device());
    let storing = match token_polled(polling, Ok(sample())) {
        LoginStep::Store(storing) => storing,
        other => panic!("{other:?}"),
    };
    assert_eq!(storing.tokens, sample());
    let mut news = TokenNews::new();
    let result = tokens_kept(storing, &Ok(Holder::Keychain), &mut news);
    assert_eq!(
        result,
        LoginResult { user_code: "ABCD-EFGH".into(), persist: PersistOutcome::Keychain }
    );
    assert_eq!(news.take(), (true, None));
}

#[test]
fn opens_the_plain_page_and_polls_at_the_default_pace_if_the_server_says_no_more() {
    let bare = DeviceCodeResponse { verification_uri_complete: None, interval: None, ..device() };
    let opening = match device_obtained(Ok(bare)) {
        LoginStep::Open(opening) => opening,
        other => panic!("{other:?}"),
    };
    assert_eq!(opening.target, "https://s/device");
    let polling = browser_tried(opening, true);
    assert!(polling.notice.browser_opened);
    assert_eq!(polling.interval_seconds, 5);
}

#[test]
fn a_failed_sign_in_says_why() {
    assert!(matches!(
        device_obtained(Err(AuthError::Status(500))),
        LoginStep::Failed(words) if words == "server returned 500"
    ));
    let opening = match device_obtained(Ok(device())) {
        LoginStep::Open(opening) => opening,
        other => panic!("{other:?}"),
    };
    assert!(matches!(
        token_polled(browser_tried(opening, true), Err(AuthError::Denied)),
        LoginStep::Failed(words) if words == "authorization denied"
    ));
}

#[test]
fn failing_to_store_the_tokens_does_not_fail_the_sign_in() {
    let outcomes = [
        (Ok(Holder::File), PersistOutcome::FileFallback, None),
        (Err(AuthError::Keyring("locked".into())), PersistOutcome::NotPersisted, Some(sample())),
        (Err(AuthError::NoConfigDir), PersistOutcome::NotPersisted, Some(sample())),
    ];
    for (stored, persist, handed) in outcomes {
        let opening = match device_obtained(Ok(device())) {
            LoginStep::Open(opening) => opening,
            other => panic!("{other:?}"),
        };
        let storing = match token_polled(browser_tried(opening, true), Ok(sample())) {
            LoginStep::Store(storing) => storing,
            other => panic!("{other:?}"),
        };
        let mut news = TokenNews::default();
        assert_eq!(tokens_kept(storing, &stored, &mut news).persist, persist);
        assert_eq!(news.take(), (true, handed));
        assert_eq!(news.take(), (false, None));
    }
}

#[test]
fn signing_out_tells_the_poller_once() {
    let mut news = TokenNews::new();
    assert_eq!(news.take(), (false, None));
    assert_eq!(signed_out(Ok(()), &mut news), Ok(()));
    assert_eq!(news.take(), (true, None));
    assert_eq!(news.take(), (false, None));
}

#[test]
fn signing_out_voids_tokens_that_were_handed_on() {
    let mut news = TokenNews::new();
    news.signed_in(Some(sample()));
    assert_eq!(signed_out(Ok(()), &mut news), Ok(()));
    assert_eq!(news.take(), (true, None));
}

#[test]
fn a_failed_sign_out_leaves_the_poller_alone() {
    let mut news = TokenNews::new();
    assert_eq!(
        signed_out(Err(AuthError::Keyring("locked".into())), &mut news),
        Err("keychain error: locked".to_string())
    );
    assert_eq!(news.take(), (false, None));
}

#[test]
fn the_flag_is_consumed_once() {
    let mut flag = AuthDirty::default();
    assert!(!flag.take());
    flag.mark();
    flag.mark();
    assert!(flag.take());
    assert!(!flag.take());
}
