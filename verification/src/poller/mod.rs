//! The background poll, as a sequence of decisions.
//!
//! One poll cycle starts with [`Poller::begin`]. Each [`Step`] says what to do
//! next and carries what the cycle needs to go on; the method named at the
//! step takes in the outcome. The cycle is over with [`Step::Finish`].

pub mod laws;
pub mod outcomes;
pub mod step_laws;

use crate::api::client::ApiError;
use crate::api::model::Session;
use crate::auth::tokens::{verify_round_trip, AuthError, TokenResponse};
use crate::config::Config;
use crate::mapper;
use crate::mapper::render;
use crate::mapper::try_map_presence;
use crate::mapper::types::{PresenceKind, PresenceState};
use crate::text;
use crate::text::same_text;
use vstd::prelude::*;
use vstd::string::*;

verus! {

/// Poll cadence. Matches Discord's activity-update rate limit: polling faster
/// cannot produce a faster status change, only more load.
pub const POLL_INTERVAL_SECONDS: u64 = 15;

/// Backoff after a network failure, so an offline server is not hammered.
pub const ERROR_BACKOFF_SECONDS: u64 = 60;

/// Delay after a refresh: come straight back rather than waiting a full
/// interval.
pub const RETRY_SECONDS: u64 = 1;

/// Clear presence after this many consecutive failed polls. One transient blip
/// should not flicker the user's status; a server that has been down for
/// minutes should not leave a stale "watching" forever.
pub const MAX_FAILURES_BEFORE_CLEAR: u32 = 3;

/// What the status line of the tray says.
#[derive(Debug, PartialEq, Eq)]
pub enum Status {
    Paused,
    NoServer,
    SignedOut,
    Unreachable,
    NotSaved,
    NothingPlaying,
    DiscordNotRunning,
    /// Broadcasting an item, by the verb and the top line.
    Broadcasting(PresenceKind, String),
}

/// The words for an item being broadcast.
pub open spec fn broadcast_text(kind: PresenceKind, details: Seq<char>) -> Seq<char> {
    match kind {
        PresenceKind::Watching => "Watching "@ + details,
        PresenceKind::Listening => "Listening to "@ + details,
    }
}

impl Status {
    /// The words of a status.
    pub open spec fn text(self) -> Seq<char> {
        match self {
            Status::Paused => "Paused"@,
            Status::NoServer => "No server configured"@,
            Status::SignedOut => "Signed out"@,
            Status::Unreachable => "Server unreachable"@,
            Status::NotSaved => "Sign-in not saved — will be needed again after restart"@,
            Status::NothingPlaying => "Nothing playing"@,
            Status::DiscordNotRunning => "Discord not running"@,
            Status::Broadcasting(kind, details) => broadcast_text(kind, details@),
        }
    }

    /// The words for the status line.
    pub fn words(&self) -> (words: String)
        ensures
            words@ == self.text(),
    {
        match self {
            Status::Paused => "Paused".to_string(),
            Status::NoServer => "No server configured".to_string(),
            Status::SignedOut => "Signed out".to_string(),
            Status::Unreachable => "Server unreachable".to_string(),
            Status::NotSaved =>
                "Sign-in not saved — will be needed again after restart".to_string(),
            Status::NothingPlaying => "Nothing playing".to_string(),
            Status::DiscordNotRunning => "Discord not running".to_string(),
            Status::Broadcasting(kind, details) => match kind {
                PresenceKind::Watching => "Watching ".to_string().concat(details.as_str()),
                PresenceKind::Listening => "Listening to ".to_string().concat(details.as_str()),
            },
        }
    }
}

/// What the tray says of a presence that was brought to Discord, or was not.
pub open spec fn status_of(connected: bool, state: PresenceState) -> Status {
    if connected {
        Status::Broadcasting(state.kind, state.details)
    } else {
        Status::DiscordNotRunning
    }
}

/// What the tray should say for a session that is being broadcast. "Discord
/// not running" when the presence did not reach a connected client, or the
/// tray would claim to be showing something Discord never received.
pub fn presence_status(connected: bool, state: &PresenceState) -> (status: Status)
    ensures
        status == status_of(connected, *state),
{
    if !connected {
        return Status::DiscordNotRunning;
    }
    Status::Broadcasting(state.kind, state.details.clone())
}

/// The end of a poll cycle: what is left to do, in this order.
#[derive(Debug, PartialEq, Eq)]
pub struct TickEnd {
    /// Show this status first.
    pub status_first: Option<Status>,
    /// Then clear the presence.
    pub clear_presence: bool,
    /// Then show this status.
    pub status_last: Option<Status>,
    /// Then wait this long before the next cycle.
    pub delay_seconds: u64,
}

/// Waiting for the stored tokens.
#[derive(Debug)]
pub struct AwaitTokens {
    pub config: Config,
    pub base_url: String,
}

/// Waiting for the session list.
#[derive(Debug)]
pub struct AwaitSessions {
    pub config: Config,
    pub base_url: String,
    pub access_token: String,
}

/// Waiting for the stored tokens again, after the access token was rejected.
#[derive(Debug)]
pub struct AwaitReload {
    pub base_url: String,
}

/// Waiting for a fresh token pair.
#[derive(Debug)]
pub struct AwaitRefresh {
    pub base_url: String,
    pub refresh_token: String,
}

/// Waiting for a fresh token pair to be stored.
#[derive(Debug)]
pub struct AwaitStore {
    pub fresh: TokenResponse,
}

/// Waiting for the caller's own username.
#[derive(Debug)]
pub struct AwaitUsername {
    pub config: Config,
    pub base_url: String,
    pub access_token: String,
    pub sessions: Vec<Session>,
}

/// Waiting for a connection to Discord to be tried.
#[derive(Debug)]
pub struct AwaitConnection {
    pub config: Config,
    pub sessions: Vec<Session>,
    pub username: String,
}

/// Waiting for a presence to be brought to Discord.
#[derive(Debug)]
pub struct AwaitBroadcast {
    pub id: String,
    pub state: PresenceState,
}

/// What a poll cycle does next.
#[derive(Debug)]
pub enum Step {
    /// Read the stored tokens, then [`Poller::tokens_loaded`].
    LoadTokens(AwaitTokens),
    /// Fetch the session list, then [`Poller::sessions_fetched`].
    FetchSessions(AwaitSessions),
    /// Read the stored tokens, then [`Poller::tokens_reloaded`].
    ReloadTokens(AwaitReload),
    /// Remove the stored tokens, then [`Poller::tokens_cleared`].
    ClearTokens,
    /// Exchange the refresh token, then [`Poller::tokens_refreshed`].
    Refresh(AwaitRefresh),
    /// Persist the fresh pair, then [`Poller::tokens_stored`].
    StoreTokens(AwaitStore),
    /// Fetch the caller's username, then [`Poller::username_fetched`].
    FetchUsername(AwaitUsername),
    /// Make sure of the connection to Discord, then [`Poller::connected`].
    Connect(AwaitConnection),
    /// Show the presence, then [`Poller::broadcast_done`].
    Broadcast(AwaitBroadcast),
    /// Clear the presence, then [`Poller::silence_done`].
    Silence,
    /// The cycle is over.
    Finish(TickEnd),
}

/// What the poll remembers from cycle to cycle.
#[derive(Debug)]
pub struct Poller {
    /// Id of the session being broadcast.
    pub current_id: Option<String>,
    /// The caller's own username, fetched once and kept for as long as the
    /// token pair is the one it was fetched with, or refreshed from that. `None`
    /// forces a fetch: in the first cycle, and again after a sign-in or a
    /// sign-out. While it is `None`, nothing is shown.
    pub current_username: Option<String>,
    /// The token pair, read once and kept. `None` forces a read: in the first
    /// cycle, and again after a sign-out or a rejected refresh.
    pub cached_tokens: Option<TokenResponse>,
    /// The refresh token that the server has rejected last. It is not exchanged
    /// again, even if it could not be removed from the token store.
    pub rejected: Option<String>,
    pub consecutive_failures: u32,
}

/// Is this the pair whose refresh token the server has rejected?
pub open spec fn is_rejected(rejected: Option<String>, tokens: TokenResponse) -> bool {
    rejected is Some && tokens.refresh_token is Some && rejected->0@ == tokens.refresh_token->0@
}

/// Is `found` the pair that is in use?
pub open spec fn same_pair(in_use: Option<TokenResponse>, found: Option<TokenResponse>) -> bool {
    in_use is Some && found is Some && in_use->0@ == found->0@
}

/// One failure more, up to the largest number there is.
pub open spec fn one_more(failures: u32) -> u32 {
    if failures < u32::MAX {
        (failures + 1) as u32
    } else {
        failures
    }
}

impl Poller {
    /// A poll that knows nothing yet.
    pub open spec fn unknowing() -> Poller {
        Poller {
            current_id: None,
            current_username: None,
            cached_tokens: None,
            rejected: None,
            consecutive_failures: 0,
        }
    }

    /// Are there so many failures in a row that presence is cleared?
    pub open spec fn gives_up(self) -> bool {
        self.consecutive_failures >= MAX_FAILURES_BEFORE_CLEAR
    }

    /// Is presence cleared when a cycle fails? It is after so many failures in a
    /// row, and at once while it is not known who the user is: what is still
    /// shown may be another's.
    pub open spec fn hides(self) -> bool {
        self.gives_up() || self.current_username is None
    }

    /// After one more failed poll.
    pub open spec fn failed(self) -> Poller {
        let counted = Poller { consecutive_failures: one_more(self.consecutive_failures), ..self };
        if counted.hides() {
            Poller { current_id: None, ..counted }
        } else {
            counted
        }
    }

    /// After a cycle that had nobody to ask for, or no server to ask: nothing is
    /// shown, and who the user is has to be found out again.
    pub open spec fn signed_out(self) -> Poller {
        Poller {
            current_id: None,
            current_username: None,
            cached_tokens: self.cached_tokens,
            rejected: self.rejected,
            consecutive_failures: 0,
        }
    }
}

/// The end of a cycle that clears the presence and says why.
pub open spec fn cleared_end(status: Status) -> TickEnd {
    TickEnd {
        status_first: None,
        clear_presence: true,
        status_last: Some(status),
        delay_seconds: POLL_INTERVAL_SECONDS,
    }
}

/// The end of a cycle that could not reach the server.
pub open spec fn unreachable_end(after: Poller) -> TickEnd {
    TickEnd {
        status_first: Some(Status::Unreachable),
        clear_presence: after.hides(),
        status_last: None,
        delay_seconds: ERROR_BACKOFF_SECONDS,
    }
}

/// Go on with a token pair.
pub open spec fn fetch_with(config: Config, base_url: String, tokens: TokenResponse) -> Step {
    Step::FetchSessions(AwaitSessions { config, base_url, access_token: tokens.access_token })
}

/// The state and step after a cycle begins. Touched tokens may be another
/// account's: neither the pair nor the name of the user is kept.
pub open spec fn after_begin(
    poller: Poller,
    auth_dirty: bool,
    handed: Option<TokenResponse>,
    config: Option<Config>,
) -> (Poller, Step) {
    let p = if auth_dirty {
        Poller { cached_tokens: handed, current_username: None, ..poller }
    } else {
        poller
    };
    match config {
        None => (
            p.failed(),
            Step::Finish(
                TickEnd {
                    status_first: None,
                    clear_presence: p.failed().hides(),
                    status_last: None,
                    delay_seconds: ERROR_BACKOFF_SECONDS,
                },
            ),
        ),
        Some(config) => if config.paused {
            (
                Poller { current_id: None, consecutive_failures: 0, ..p },
                Step::Finish(cleared_end(Status::Paused)),
            )
        } else {
            match config.server_url {
                None => (p.signed_out(), Step::Finish(cleared_end(Status::NoServer))),
                Some(base_url) => match p.cached_tokens {
                    None => (p, Step::LoadTokens(AwaitTokens { config, base_url })),
                    Some(tokens) => (p, fetch_with(config, base_url, tokens)),
                },
            }
        },
    }
}

/// The state and step after the stored tokens were read.
pub open spec fn after_tokens(
    poller: Poller,
    wait: AwaitTokens,
    loaded: Option<TokenResponse>,
) -> (Poller, Step) {
    let p = Poller { cached_tokens: loaded, ..poller };
    match loaded {
        None => (p.signed_out(), Step::Finish(cleared_end(Status::SignedOut))),
        Some(tokens) => if is_rejected(p.rejected, tokens) {
            (p, Step::ClearTokens)
        } else {
            (p, fetch_with(wait.config, wait.base_url, tokens))
        },
    }
}

/// The state and step after the session list was asked for.
pub open spec fn after_sessions(
    poller: Poller,
    wait: AwaitSessions,
    result: Result<Vec<Session>, ApiError>,
) -> (Poller, Step) {
    match result {
        Err(ApiError::Unauthorized) => (
            poller,
            Step::ReloadTokens(AwaitReload { base_url: wait.base_url }),
        ),
        Err(_) => (poller.failed(), Step::Finish(unreachable_end(poller.failed()))),
        Ok(sessions) => {
            let p = Poller { consecutive_failures: 0, ..poller };
            match p.current_username {
                None => (
                    p,
                    Step::FetchUsername(
                        AwaitUsername {
                            config: wait.config,
                            base_url: wait.base_url,
                            access_token: wait.access_token,
                            sessions,
                        },
                    ),
                ),
                Some(username) => (
                    p,
                    Step::Connect(AwaitConnection { config: wait.config, sessions, username }),
                ),
            }
        },
    }
}

/// The state and step after the stored tokens were read again. A pair other
/// than the one in use may be another account's: who the user is has to be
/// found out again.
pub open spec fn after_reload(
    poller: Poller,
    wait: AwaitReload,
    loaded: Option<TokenResponse>,
) -> (Poller, Step) {
    let p = Poller {
        cached_tokens: loaded,
        current_username: if same_pair(poller.cached_tokens, loaded) {
            poller.current_username
        } else {
            None
        },
        ..poller
    };
    match loaded {
        None => (p.signed_out(), Step::Finish(cleared_end(Status::SignedOut))),
        Some(tokens) => match tokens.refresh_token {
            None => (p, Step::ClearTokens),
            Some(refresh_token) => if is_rejected(p.rejected, tokens) {
                (p, Step::ClearTokens)
            } else {
                (p, Step::Refresh(AwaitRefresh { base_url: wait.base_url, refresh_token }))
            },
        },
    }
}

/// The state and step after the stored tokens were removed.
pub open spec fn after_clear(poller: Poller) -> (Poller, Step) {
    (
        Poller { cached_tokens: None, ..poller }.signed_out(),
        Step::Finish(cleared_end(Status::SignedOut)),
    )
}

/// The state and step after a refresh.
pub open spec fn after_refresh(
    poller: Poller,
    wait: AwaitRefresh,
    result: Result<TokenResponse, AuthError>,
) -> (Poller, Step) {
    match result {
        Ok(fresh) => (poller, Step::StoreTokens(AwaitStore { fresh })),
        Err(AuthError::RefreshRejected) => (
            Poller { rejected: Some(wait.refresh_token), ..poller },
            Step::ClearTokens,
        ),
        Err(_) => (poller.failed(), Step::Finish(unreachable_end(poller.failed()))),
    }
}

/// The state and step after a fresh pair was persisted, or was not. A pair that
/// was not is no failed poll: what is shown stays, unless it is not known who
/// the user is.
pub open spec fn after_store(poller: Poller, wait: AwaitStore, persisted: bool) -> (Poller, Step) {
    let p = Poller { cached_tokens: Some(wait.fresh), ..poller };
    if !persisted {
        (
            if p.current_username is None {
                Poller { current_id: None, ..p }
            } else {
                p
            },
            Step::Finish(
                TickEnd {
                    status_first: None,
                    clear_presence: p.current_username is None,
                    status_last: Some(Status::NotSaved),
                    delay_seconds: RETRY_SECONDS,
                },
            ),
        )
    } else if p.failed().gives_up() {
        (
            p.failed(),
            Step::Finish(
                TickEnd {
                    status_first: None,
                    clear_presence: true,
                    status_last: Some(Status::Unreachable),
                    delay_seconds: ERROR_BACKOFF_SECONDS,
                },
            ),
        )
    } else {
        (
            p.failed(),
            Step::Finish(
                TickEnd {
                    status_first: None,
                    clear_presence: p.failed().hides(),
                    status_last: None,
                    delay_seconds: RETRY_SECONDS,
                },
            ),
        )
    }
}

/// The state and step after the caller's username was asked for.
pub open spec fn after_username(
    poller: Poller,
    wait: AwaitUsername,
    result: Result<String, ApiError>,
) -> (Poller, Step) {
    match result {
        Err(_) => (poller.failed(), Step::Finish(unreachable_end(poller.failed()))),
        Ok(username) => (
            Poller { current_username: Some(username), ..poller },
            Step::Connect(
                AwaitConnection { config: wait.config, sessions: wait.sessions, username },
            ),
        ),
    }
}

/// The session to broadcast, from what a cycle has gathered.
pub open spec fn picked(poller: Poller, wait: AwaitConnection) -> Option<Session> {
    mapper::broadcast_session(
        wait.sessions@,
        wait.config,
        text::option_text(poller.current_id),
        wait.username@,
    )
}

/// The session to show: the picked one, unless its progress bar would leave the
/// clock's range.
pub open spec fn to_show(poller: Poller, wait: AwaitConnection, now_unix: i64) -> Option<Session> {
    match picked(poller, wait) {
        Some(session) => if render::renderable(session@, now_unix) {
            Some(session)
        } else {
            None
        },
        None => None,
    }
}

/// Does this step show the session, or nothing where there is none?
pub open spec fn shows(step: Step, session: Option<Session>, now_unix: i64) -> bool {
    match session {
        Some(session) => step matches Step::Broadcast(wait) && wait.id == session.id
            && wait.state@ == render::presence_of(session@, now_unix),
        None => step is Silence,
    }
}

/// The state and end of a cycle that showed a presence.
pub open spec fn after_broadcast(poller: Poller, wait: AwaitBroadcast, connected: bool) -> (
    Poller,
    TickEnd,
) {
    (
        Poller { current_id: Some(wait.id), ..poller },
        TickEnd {
            status_first: None,
            clear_presence: false,
            status_last: Some(
                if connected {
                    Status::Broadcasting(wait.state.kind, wait.state.details)
                } else {
                    Status::DiscordNotRunning
                },
            ),
            delay_seconds: POLL_INTERVAL_SECONDS,
        },
    )
}

/// The state and end of a cycle that found nothing to show.
pub open spec fn after_silence(poller: Poller, connected: bool) -> (Poller, TickEnd) {
    (
        Poller { current_id: None, ..poller },
        TickEnd {
            status_first: None,
            clear_presence: false,
            status_last: Some(
                if connected {
                    Status::NothingPlaying
                } else {
                    Status::DiscordNotRunning
                },
            ),
            delay_seconds: POLL_INTERVAL_SECONDS,
        },
    )
}

impl Poller {
    /// A poll that knows nothing yet.
    pub fn new() -> (poller: Self)
        ensures
            poller == Poller::unknowing(),
    {
        Poller {
            current_id: None,
            current_username: None,
            cached_tokens: None,
            rejected: None,
            consecutive_failures: 0,
        }
    }

    /// Record a failed poll. Once failures have piled up enough to indicate a
    /// real outage rather than a transient blip, presence is to be cleared
    /// rather than leaving a frozen status behind; this says whether it is. It is
    /// at once while it is not known who the user is.
    pub fn note_failure(&mut self) -> (clear_presence: bool)
        ensures
            *final(self) == old(self).failed(),
            clear_presence == final(self).hides(),
    {
        self.consecutive_failures = self.consecutive_failures.saturating_add(1);
        if self.consecutive_failures >= MAX_FAILURES_BEFORE_CLEAR
            || self.current_username.is_none() {
            self.current_id = None;
            return true;
        }
        false
    }

    fn unreachable(&mut self) -> (step: Step)
        ensures
            *final(self) == old(self).failed(),
            step == Step::Finish(unreachable_end(old(self).failed())),
    {
        let clear_presence = self.note_failure();
        Step::Finish(
            TickEnd {
                status_first: Some(Status::Unreachable),
                clear_presence,
                status_last: None,
                delay_seconds: ERROR_BACKOFF_SECONDS,
            },
        )
    }

    fn end_signed_out(&mut self, status: Status) -> (step: Step)
        ensures
            *final(self) == old(self).signed_out(),
            step == Step::Finish(cleared_end(status)),
    {
        self.current_id = None;
        self.current_username = None;
        self.consecutive_failures = 0;
        Step::Finish(
            TickEnd {
                status_first: None,
                clear_presence: true,
                status_last: Some(status),
                delay_seconds: POLL_INTERVAL_SECONDS,
            },
        )
    }

    /// Begin a cycle. `auth_dirty` says that the tokens were touched since the
    /// last one, and `handed` holds those of a sign-in that no store could hold;
    /// `config` is `None` when there is no config directory to read from.
    pub fn begin(
        &mut self,
        auth_dirty: bool,
        handed: Option<TokenResponse>,
        config: Option<Config>,
    ) -> (step: Step)
        ensures
            (*final(self), step) == after_begin(*old(self), auth_dirty, handed, config),
    {
        if auth_dirty {
            self.cached_tokens = handed;
            self.current_username = None;
        }
        let config = match config {
            Some(config) => config,
            None => {
                let clear_presence = self.note_failure();
                return Step::Finish(
                    TickEnd {
                        status_first: None,
                        clear_presence,
                        status_last: None,
                        delay_seconds: ERROR_BACKOFF_SECONDS,
                    },
                );
            },
        };
        if config.paused {
            self.current_id = None;
            self.consecutive_failures = 0;
            return Step::Finish(
                TickEnd {
                    status_first: None,
                    clear_presence: true,
                    status_last: Some(Status::Paused),
                    delay_seconds: POLL_INTERVAL_SECONDS,
                },
            );
        }
        let base_url = match &config.server_url {
            Some(base_url) => base_url.clone(),
            None => return self.end_signed_out(Status::NoServer),
        };
        match &self.cached_tokens {
            None => Step::LoadTokens(AwaitTokens { config, base_url }),
            Some(tokens) => Step::FetchSessions(
                AwaitSessions { config, base_url, access_token: tokens.access_token.clone() },
            ),
        }
    }

    /// Is this the pair whose refresh token the server has rejected?
    fn was_rejected(&self, tokens: &TokenResponse) -> (answer: bool)
        ensures
            answer == is_rejected(self.rejected, *tokens),
    {
        match (&self.rejected, &tokens.refresh_token) {
            (Some(rejected), Some(refresh_token)) => same_text(
                rejected.as_str(),
                refresh_token.as_str(),
            ),
            _ => false,
        }
    }

    /// Go on with the stored tokens, `None` when there are none. A pair that the
    /// server has turned down, and that could not be removed, is tried to be
    /// removed again.
    pub fn tokens_loaded(&mut self, wait: AwaitTokens, loaded: Option<TokenResponse>) -> (step:
        Step)
        ensures
            (*final(self), step) == after_tokens(*old(self), wait, loaded),
    {
        self.cached_tokens = loaded;
        match &self.cached_tokens {
            None => self.end_signed_out(Status::SignedOut),
            Some(tokens) => if self.was_rejected(tokens) {
                Step::ClearTokens
            } else {
                Step::FetchSessions(
                    AwaitSessions {
                        config: wait.config,
                        base_url: wait.base_url,
                        access_token: tokens.access_token.clone(),
                    },
                )
            },
        }
    }

    /// Go on with the session list, or with the reason why there is none.
    ///
    /// A rejected access token makes the stored tokens be read again instead
    /// of trusting the kept pair: signing out removes them without this
    /// noticing, and refreshing with the kept pair would undo the sign-out.
    /// Access that is denied for good is not refreshed: that would use up a
    /// refresh token with every poll.
    pub fn sessions_fetched(
        &mut self,
        wait: AwaitSessions,
        result: Result<Vec<Session>, ApiError>,
    ) -> (step: Step)
        ensures
            (*final(self), step) == after_sessions(*old(self), wait, result),
    {
        let sessions = match result {
            Ok(sessions) => sessions,
            Err(ApiError::Unauthorized) => {
                return Step::ReloadTokens(AwaitReload { base_url: wait.base_url });
            },
            Err(_) => return self.unreachable(),
        };
        self.consecutive_failures = 0;
        match &self.current_username {
            None => Step::FetchUsername(
                AwaitUsername {
                    config: wait.config,
                    base_url: wait.base_url,
                    access_token: wait.access_token,
                    sessions,
                },
            ),
            Some(username) => Step::Connect(
                AwaitConnection { config: wait.config, sessions, username: username.clone() },
            ),
        }
    }

    /// Go on with the stored tokens, read again after the access token was
    /// rejected.
    pub fn tokens_reloaded(&mut self, wait: AwaitReload, loaded: Option<TokenResponse>) -> (step:
        Step)
        ensures
            (*final(self), step) == after_reload(*old(self), wait, loaded),
    {
        let unchanged = match &self.cached_tokens {
            Some(in_use) => verify_round_trip(in_use, loaded.as_ref()),
            None => false,
        };
        if !unchanged {
            self.current_username = None;
        }
        self.cached_tokens = loaded;
        match &self.cached_tokens {
            None => self.end_signed_out(Status::SignedOut),
            Some(tokens) => match &tokens.refresh_token {
                None => Step::ClearTokens,
                Some(refresh_token) => if self.was_rejected(tokens) {
                    Step::ClearTokens
                } else {
                    Step::Refresh(
                        AwaitRefresh {
                            base_url: wait.base_url,
                            refresh_token: refresh_token.clone(),
                        },
                    )
                },
            },
        }
    }

    /// Go on after the stored tokens were removed, or could not be.
    pub fn tokens_cleared(&mut self) -> (step: Step)
        ensures
            (*final(self), step) == after_clear(*old(self)),
    {
        self.cached_tokens = None;
        self.end_signed_out(Status::SignedOut)
    }

    /// Go on with a fresh token pair, or with the reason why there is none.
    ///
    /// A rejected refresh means that the device session is gone: the tokens
    /// are dropped, and the refresh is not tried again, whether or not they can
    /// be removed from the store.
    pub fn tokens_refreshed(
        &mut self,
        wait: AwaitRefresh,
        result: Result<TokenResponse, AuthError>,
    ) -> (step: Step)
        ensures
            (*final(self), step) == after_refresh(*old(self), wait, result),
    {
        match result {
            Ok(fresh) => Step::StoreTokens(AwaitStore { fresh }),
            Err(AuthError::RefreshRejected) => {
                self.rejected = Some(wait.refresh_token);
                Step::ClearTokens
            },
            Err(_) => self.unreachable(),
        }
    }

    /// Go on once the fresh pair is persisted, or could not be.
    ///
    /// The pair is kept for this run either way, and failing to persist it is no
    /// failed poll. A successful refresh still counts as one: if the server keeps rejecting the access token
    /// while refreshing keeps succeeding, polling must slow down too.
    pub fn tokens_stored(&mut self, wait: AwaitStore, persisted: bool) -> (step: Step)
        ensures
            (*final(self), step) == after_store(*old(self), wait, persisted),
    {
        self.cached_tokens = Some(wait.fresh);
        if !persisted {
            let clear_presence = self.current_username.is_none();
            if clear_presence {
                self.current_id = None;
            }
            return Step::Finish(
                TickEnd {
                    status_first: None,
                    clear_presence,
                    status_last: Some(Status::NotSaved),
                    delay_seconds: RETRY_SECONDS,
                },
            );
        }
        let clear_presence = self.note_failure();
        if self.consecutive_failures >= MAX_FAILURES_BEFORE_CLEAR {
            Step::Finish(
                TickEnd {
                    status_first: None,
                    clear_presence,
                    status_last: Some(Status::Unreachable),
                    delay_seconds: ERROR_BACKOFF_SECONDS,
                },
            )
        } else {
            Step::Finish(
                TickEnd {
                    status_first: None,
                    clear_presence,
                    status_last: None,
                    delay_seconds: RETRY_SECONDS,
                },
            )
        }
    }

    /// Go on with the caller's own username, or with the reason why it is not
    /// known. Without it nothing is broadcast, and nothing stays shown.
    pub fn username_fetched(
        &mut self,
        wait: AwaitUsername,
        result: Result<String, ApiError>,
    ) -> (step: Step)
        ensures
            (*final(self), step) == after_username(*old(self), wait, result),
    {
        match result {
            Err(_) => self.unreachable(),
            Ok(username) => {
                self.current_username = Some(username.clone());
                Step::Connect(
                    AwaitConnection { config: wait.config, sessions: wait.sessions, username },
                )
            },
        }
    }

    /// Pick what to show, once a connection to Discord was tried. A session
    /// whose progress bar would leave the clock's range is not shown.
    pub fn connected(&mut self, wait: AwaitConnection, now_unix: i64) -> (step: Step)
        ensures
            *final(self) == *old(self),
            shows(step, to_show(*old(self), wait, now_unix), now_unix),
    {
        let outcome = try_map_presence(
            wait.sessions.as_slice(),
            &wait.config,
            now_unix,
            match &self.current_id {
                Some(id) => Some(id.as_str()),
                None => None,
            },
            wait.username.as_str(),
        );
        match outcome {
            Ok(Some((id, state))) => Step::Broadcast(AwaitBroadcast { id, state }),
            Ok(None) => Step::Silence,
            Err(_) => Step::Silence,
        }
    }

    /// End a cycle that showed a presence; `connected` says whether there is a
    /// connection to Discord now.
    pub fn broadcast_done(&mut self, wait: AwaitBroadcast, connected: bool) -> (end: TickEnd)
        ensures
            (*final(self), end) == after_broadcast(*old(self), wait, connected),
    {
        let status = presence_status(connected, &wait.state);
        self.current_id = Some(wait.id);
        TickEnd {
            status_first: None,
            clear_presence: false,
            status_last: Some(status),
            delay_seconds: POLL_INTERVAL_SECONDS,
        }
    }

    /// End a cycle that found nothing to show; `connected` says whether there
    /// is a connection to Discord now.
    pub fn silence_done(&mut self, connected: bool) -> (end: TickEnd)
        ensures
            (*final(self), end) == after_silence(*old(self), connected),
    {
        self.current_id = None;
        TickEnd {
            status_first: None,
            clear_presence: false,
            status_last: Some(
                if connected {
                    Status::NothingPlaying
                } else {
                    Status::DiscordNotRunning
                },
            ),
            delay_seconds: POLL_INTERVAL_SECONDS,
        }
    }
}

} // verus!
