//! What each step of a poll cycle does, whatever came before it.

use crate::api::client::ApiError;
use crate::api::model::Session;
use crate::auth::tokens::{AuthError, TokenResponse};
use crate::config::Config;
use crate::poller;
use crate::poller::laws;
use crate::poller::outcomes;
use crate::poller::{
    AwaitBroadcast, AwaitConnection, AwaitRefresh, AwaitReload, AwaitSessions, AwaitStore,
    AwaitTokens, AwaitUsername, Poller, Step, TickEnd,
};
use vstd::prelude::*;

verus! {

/// Does the cycle end with these words before and after clearing the presence,
/// or leaving it, and with this wait?
pub open spec fn end_says(
    end: TickEnd,
    first: Option<Seq<char>>,
    clears: bool,
    last: Option<Seq<char>>,
    seconds: int,
) -> bool {
    &&& laws::words(end.status_first) == first
    &&& end.clear_presence == clears
    &&& laws::words(end.status_last) == last
    &&& end.delay_seconds == seconds
}

/// Is the cycle over, with such an end?
pub open spec fn is_over(
    step: Step,
    first: Option<Seq<char>>,
    clears: bool,
    last: Option<Seq<char>>,
    seconds: int,
) -> bool {
    step is Finish && end_says(step->Finish_0, first, clears, last, seconds)
}

/// Is one failure more counted, the session forgotten where the presence goes,
/// and nothing else changed?
pub open spec fn counts_a_failure(before: Poller, after: Poller) -> bool {
    &&& after.consecutive_failures == outcomes::counted(before.consecutive_failures)
    &&& after.current_username == before.current_username
    &&& after.cached_tokens == before.cached_tokens
    &&& after.rejected == before.rejected
    &&& if keeps_showing(before) {
        after.current_id == before.current_id
    } else {
        after.current_id is None
    }
}

/// Does what is shown outlast one failure more?
pub open spec fn keeps_showing(before: Poller) -> bool {
    outcomes::may_stay(before.consecutive_failures, before.current_username)
}

/// Is the server given up on for now: words first, then a cleared presence where
/// it does not outlast the failure, and a minute's wait?
pub open spec fn backs_off(before: Poller, after: Poller, step: Step) -> bool {
    counts_a_failure(before, after) && is_over(
        step,
        Some("Server unreachable"@),
        !keeps_showing(before),
        None,
        60,
    )
}

/// Is the user signed out, with nothing of theirs kept but the refresh token
/// that was turned down?
pub open spec fn signs_out(rejected: Option<String>, after: Poller, step: Step) -> bool {
    &&& after.current_id is None
    &&& after.current_username is None
    &&& after.cached_tokens is None
    &&& after.rejected == rejected
    &&& after.consecutive_failures == 0
    &&& is_over(step, None, true, Some("Signed out"@), 15)
}

/// A cycle with a server begins with the tokens that are at hand, or by reading
/// them. Touched tokens make it forget the pair and the name that it had, and
/// nothing else.
pub proof fn law_beginning(
    poller: Poller,
    auth_dirty: bool,
    handed: Option<TokenResponse>,
    config: Config,
)
    requires
        !config.paused,
        config.server_url is Some,
    ensures
        ({
            let (after, step) = poller::after_begin(poller, auth_dirty, handed, Some(config));
            let at_hand = if auth_dirty {
                handed
            } else {
                poller.cached_tokens
            };
            &&& after.cached_tokens == at_hand
            &&& auth_dirty ==> after.current_username is None
            &&& !auth_dirty ==> after.current_username == poller.current_username
            &&& after.current_id == poller.current_id
            &&& after.rejected == poller.rejected
            &&& after.consecutive_failures == poller.consecutive_failures
            &&& at_hand is None ==> step == Step::LoadTokens(
                AwaitTokens { config, base_url: config.server_url->0 },
            )
            &&& at_hand is Some ==> step == Step::FetchSessions(
                AwaitSessions {
                    config,
                    base_url: config.server_url->0,
                    access_token: at_hand->0.access_token,
                },
            )
        }),
{
}

/// Stored tokens are used, unless the server has turned them down, which has
/// them removed; without any, the user is signed out.
pub proof fn law_stored_tokens(poller: Poller, wait: AwaitTokens, loaded: Option<TokenResponse>)
    ensures
        ({
            let (after, step) = poller::after_tokens(poller, wait, loaded);
            &&& loaded is None ==> signs_out(poller.rejected, after, step)
            &&& loaded is Some ==> after == (Poller { cached_tokens: loaded, ..poller })
            &&& loaded is Some && laws::turned_down(poller.rejected, loaded->0) ==> step
                is ClearTokens
            &&& loaded is Some && !laws::turned_down(poller.rejected, loaded->0) ==> step
                == Step::FetchSessions(
                AwaitSessions {
                    config: wait.config,
                    base_url: wait.base_url,
                    access_token: loaded->0.access_token,
                },
            )
        }),
{
}

/// An expired access token is looked up again. Every other error is an outage,
/// of whatever status, and however many there were before it.
pub proof fn law_session_errors(poller: Poller, wait: AwaitSessions, error: ApiError)
    ensures
        ({
            let (after, step) = poller::after_sessions(poller, wait, Err(error));
            &&& error is Unauthorized ==> after == poller && step == Step::ReloadTokens(
                AwaitReload { base_url: wait.base_url },
            )
            &&& !(error is Unauthorized) ==> backs_off(poller, after, step)
        }),
{
}

/// A session list ends a row of failures. Who the user is is asked where it is
/// not known, and the list is gone on with as it came.
pub proof fn law_session_list(poller: Poller, wait: AwaitSessions, sessions: Vec<Session>)
    ensures
        ({
            let (after, step) = poller::after_sessions(poller, wait, Ok(sessions));
            &&& after == (Poller { consecutive_failures: 0, ..poller })
            &&& poller.current_username is None ==> step == Step::FetchUsername(
                AwaitUsername {
                    config: wait.config,
                    base_url: wait.base_url,
                    access_token: wait.access_token,
                    sessions,
                },
            )
            &&& poller.current_username is Some ==> step == Step::Connect(
                AwaitConnection {
                    config: wait.config,
                    sessions,
                    username: poller.current_username->0,
                },
            )
        }),
{
}

/// What the token store holds when it is read again takes the place of the pair
/// in use, and the name goes with a pair that is another. Its refresh token is
/// exchanged, unless it has none or one that was turned down, which has the pair
/// removed; without any pair, the user is signed out.
pub proof fn law_tokens_read_again(
    poller: Poller,
    wait: AwaitReload,
    loaded: Option<TokenResponse>,
)
    ensures
        ({
            let (after, step) = poller::after_reload(poller, wait, loaded);
            &&& loaded is None ==> signs_out(poller.rejected, after, step)
            &&& loaded is Some ==> {
                &&& after.cached_tokens == loaded
                &&& laws::unchanged(poller.cached_tokens, loaded) ==> after.current_username
                    == poller.current_username
                &&& !laws::unchanged(poller.cached_tokens, loaded) ==> after.current_username
                    is None
                &&& after.current_id == poller.current_id
                &&& after.rejected == poller.rejected
                &&& after.consecutive_failures == poller.consecutive_failures
            }
            &&& loaded is Some && (loaded->0.refresh_token is None || laws::turned_down(
                poller.rejected,
                loaded->0,
            )) ==> step is ClearTokens
            &&& loaded is Some && loaded->0.refresh_token is Some && !laws::turned_down(
                poller.rejected,
                loaded->0,
            ) ==> step == Step::Refresh(
                AwaitRefresh {
                    base_url: wait.base_url,
                    refresh_token: loaded->0.refresh_token->0,
                },
            )
        }),
{
}

/// Once the tokens were removed, the user is signed out.
pub proof fn law_removed_tokens(poller: Poller)
    ensures
        signs_out(
            poller.rejected,
            poller::after_clear(poller).0,
            poller::after_clear(poller).1,
        ),
{
}

/// A fresh pair is stored. A rejected refresh token is remembered as such, and
/// removed; every other error is an outage.
pub proof fn law_refreshed(
    poller: Poller,
    wait: AwaitRefresh,
    fresh: TokenResponse,
    error: AuthError,
)
    ensures
        poller::after_refresh(poller, wait, Ok(fresh)) == (
            poller,
            Step::StoreTokens(AwaitStore { fresh }),
        ),
        ({
            let (after, step) = poller::after_refresh(poller, wait, Err(error));
            &&& error is RefreshRejected ==> after == (Poller {
                rejected: Some(wait.refresh_token),
                ..poller
            }) && step is ClearTokens
            &&& !(error is RefreshRejected) ==> backs_off(poller, after, step)
        }),
{
}

/// A fresh pair is kept, stored or not. Stored, it is tried a second later,
/// though the cycle counts as failed, so that after three the server is given up
/// on for now. Not stored, the cycle does not count, and the tray says so.
pub proof fn law_stored(poller: Poller, wait: AwaitStore)
    ensures
        ({
            let (after, step) = poller::after_store(poller, wait, true);
            let kept = Poller { cached_tokens: Some(wait.fresh), ..poller };
            &&& counts_a_failure(kept, after)
            &&& poller.consecutive_failures + 1 < 3 ==> is_over(
                step,
                None,
                !keeps_showing(poller),
                None,
                1,
            )
            &&& poller.consecutive_failures + 1 >= 3 ==> is_over(
                step,
                None,
                true,
                Some("Server unreachable"@),
                60,
            )
        }),
        ({
            let (after, step) = poller::after_store(poller, wait, false);
            &&& after.cached_tokens == Some(wait.fresh)
            &&& after.current_username == poller.current_username
            &&& after.rejected == poller.rejected
            &&& after.consecutive_failures == poller.consecutive_failures
            &&& poller.current_username is Some ==> after.current_id == poller.current_id
            &&& poller.current_username is None ==> after.current_id is None
            &&& is_over(
                step,
                None,
                poller.current_username is None,
                Some("Sign-in not saved — will be needed again after restart"@),
                1,
            )
        }),
{
}

/// A name is kept, and the list gone on with as it came; any error is an
/// outage.
pub proof fn law_username(poller: Poller, wait: AwaitUsername, username: String, error: ApiError)
    ensures
        poller::after_username(poller, wait, Ok(username)) == (
            Poller { current_username: Some(username), ..poller },
            Step::Connect(
                AwaitConnection { config: wait.config, sessions: wait.sessions, username },
            ),
        ),
        backs_off(
            poller,
            poller::after_username(poller, wait, Err(error)).0,
            poller::after_username(poller, wait, Err(error)).1,
        ),
{
}

/// What was shown is remembered, whether or not it reached Discord, and the tray
/// says which.
pub proof fn law_after_showing(poller: Poller, wait: AwaitBroadcast, connected: bool)
    ensures
        ({
            let (after, end) = poller::after_broadcast(poller, wait, connected);
            &&& after == (Poller { current_id: Some(wait.id), ..poller })
            &&& !connected ==> end_says(end, None, false, Some("Discord not running"@), 15)
            &&& connected && wait.state.kind is Watching ==> end_says(
                end,
                None,
                false,
                Some("Watching "@ + wait.state.details@),
                15,
            )
            &&& connected && wait.state.kind is Listening ==> end_says(
                end,
                None,
                false,
                Some("Listening to "@ + wait.state.details@),
                15,
            )
        }),
{
}

/// Where nothing was shown, no session is remembered, and the tray says that
/// nothing plays, or that Discord is not running.
pub proof fn law_after_showing_nothing(poller: Poller, connected: bool)
    ensures
        ({
            let (after, end) = poller::after_silence(poller, connected);
            &&& after == (Poller { current_id: None, ..poller })
            &&& connected ==> end_says(end, None, false, Some("Nothing playing"@), 15)
            &&& !connected ==> end_says(end, None, false, Some("Discord not running"@), 15)
        }),
{
}

} // verus!
