//! How each kind of poll cycle ends: the calls it makes, what becomes of the
//! presence, what the tray says, how long the poll waits, and what it remembers.

use crate::api::model::Session;
use crate::auth::tokens::TokenResponse;
use crate::mapper;
use crate::mapper::laws::plays;
use crate::mapper::render;
use crate::mapper::types::{PresenceKind, PresenceState};
use crate::poller;
use crate::poller::laws;
use crate::poller::laws::{Answers, Cycle, Shown};
use crate::poller::{
    AwaitConnection, AwaitRefresh, AwaitReload, AwaitSessions, AwaitStore, AwaitTokens,
    AwaitUsername, Poller, Status, Step,
};
use vstd::prelude::*;

verus! {

/// What the tray says in each state.
pub proof fn law_status_words(details: String)
    ensures
        Status::Paused.text() == "Paused"@,
        Status::NoServer.text() == "No server configured"@,
        Status::SignedOut.text() == "Signed out"@,
        Status::Unreachable.text() == "Server unreachable"@,
        Status::NotSaved.text() == "Sign-in not saved — will be needed again after restart"@,
        Status::NothingPlaying.text() == "Nothing playing"@,
        Status::DiscordNotRunning.text() == "Discord not running"@,
        Status::Broadcasting(PresenceKind::Watching, details).text() == "Watching "@ + details@,
        Status::Broadcasting(PresenceKind::Listening, details).text() == "Listening to "@
            + details@,
{
}

/// What the tray says of a presence: the verb and the top line where it reached
/// Discord, and that Discord is not running where it did not.
pub proof fn law_status_of_a_presence(state: PresenceState)
    ensures
        poller::status_of(false, state) is DiscordNotRunning,
        state.kind is Watching ==> poller::status_of(true, state).text() == "Watching "@
            + state.details@,
        state.kind is Listening ==> poller::status_of(true, state).text() == "Listening to "@
            + state.details@,
{
}

/// A poll that has just begun remembers nothing, and has not failed yet.
pub proof fn law_first_cycle_starts_from_nothing()
    ensures
        Poller::unknowing().current_id is None,
        Poller::unknowing().current_username is None,
        Poller::unknowing().cached_tokens is None,
        Poller::unknowing().rejected is None,
        Poller::unknowing().consecutive_failures == 0,
{
}

/// One failure more than before, as far as can be counted.
pub open spec fn counted(failures: u32) -> int {
    if failures == u32::MAX {
        failures as int
    } else {
        failures + 1
    }
}

/// The name that a failed cycle goes on with is known, and failures are few.
pub open spec fn may_stay(failures: u32, username: Option<String>) -> bool {
    username is Some && failures + 1 < 3
}

/// Does the presence stay as it is, and the remembered session with it?
pub open spec fn stays(poller: Poller, whole: Cycle) -> bool {
    whole.shown is Kept && whole.after.current_id == poller.current_id
}

/// Is the presence cleared, and no session remembered?
pub open spec fn goes(whole: Cycle) -> bool {
    whole.shown is Cleared && whole.after.current_id is None
}

/// The tokens and the name that a cycle begins with.
pub open spec fn carries_on(poller: Poller, answers: Answers, whole: Cycle) -> bool {
    &&& whole.after.cached_tokens == laws::tokens_at_hand(poller, answers)
    &&& whole.after.current_username == laws::known_username(poller, answers)
    &&& whole.after.rejected == poller.rejected
}

/// Is the user signed out: nothing shown, nobody known, no tokens kept, no
/// failures counted, and a full interval to wait?
pub open spec fn is_signed_out(whole: Cycle) -> bool {
    &&& goes(whole)
    &&& whole.after.cached_tokens is None
    &&& whole.after.current_username is None
    &&& whole.after.consecutive_failures == 0
    &&& whole.said_first is None
    &&& whole.said_last == Some("Signed out"@)
    &&& whole.delay_seconds == 15
}

/// Without a config directory a cycle asks nobody, says nothing, and counts as
/// failed.
pub proof fn law_without_a_config_directory(poller: Poller, answers: Answers)
    requires
        answers.config is None,
    ensures
        ({
            let whole = laws::cycle(poller, answers);
            &&& whole.calls == Seq::<Step>::empty()
            &&& whole.said_first is None
            &&& whole.said_last is None
            &&& whole.delay_seconds == 60
            &&& whole.after.consecutive_failures == counted(poller.consecutive_failures)
            &&& carries_on(poller, answers, whole)
            &&& if may_stay(poller.consecutive_failures, laws::known_username(poller, answers)) {
                stays(poller, whole)
            } else {
                goes(whole)
            }
        }),
{
}

/// While paused, a cycle asks nobody and shows nothing, and goes on with what it
/// knows once presence is switched on again.
pub proof fn law_while_paused(poller: Poller, answers: Answers)
    requires
        answers.config is Some,
        answers.config->0.paused,
    ensures
        ({
            let whole = laws::cycle(poller, answers);
            &&& whole.calls == Seq::<Step>::empty()
            &&& whole.said_first is None
            &&& whole.said_last == Some("Paused"@)
            &&& whole.delay_seconds == 15
            &&& whole.after.consecutive_failures == 0
            &&& carries_on(poller, answers, whole)
            &&& goes(whole)
        }),
{
}

/// Without a server, a cycle asks nobody, shows nothing, and forgets who the
/// user is.
pub proof fn law_without_a_server(poller: Poller, answers: Answers)
    requires
        answers.config is Some,
        !answers.config->0.paused,
        answers.config->0.server_url is None,
    ensures
        ({
            let whole = laws::cycle(poller, answers);
            &&& whole.calls == Seq::<Step>::empty()
            &&& whole.said_first is None
            &&& whole.said_last == Some("No server configured"@)
            &&& whole.delay_seconds == 15
            &&& whole.after.consecutive_failures == 0
            &&& whole.after.cached_tokens == laws::tokens_at_hand(poller, answers)
            &&& whole.after.current_username is None
            &&& whole.after.rejected == poller.rejected
            &&& goes(whole)
        }),
{
}

/// Is presence on, and a server set?
pub open spec fn at_work(answers: Answers) -> bool {
    answers.config is Some && !answers.config->0.paused && answers.config->0.server_url is Some
}

/// The call that reads the token store.
pub open spec fn reading_tokens(answers: Answers) -> Step {
    Step::LoadTokens(
        AwaitTokens { config: answers.config->0, base_url: answers.config->0.server_url->0 },
    )
}

/// The call that asks for the session list with a token pair.
pub open spec fn asking_for_sessions(answers: Answers, tokens: TokenResponse) -> Step {
    Step::FetchSessions(
        AwaitSessions {
            config: answers.config->0,
            base_url: answers.config->0.server_url->0,
            access_token: tokens.access_token,
        },
    )
}

/// The call that reads the token store again.
pub open spec fn reading_tokens_again(answers: Answers) -> Step {
    Step::ReloadTokens(AwaitReload { base_url: answers.config->0.server_url->0 })
}

/// The call that exchanges the refresh token of a pair.
pub open spec fn exchanging(answers: Answers, tokens: TokenResponse) -> Step {
    Step::Refresh(
        AwaitRefresh {
            base_url: answers.config->0.server_url->0,
            refresh_token: tokens.refresh_token->0,
        },
    )
}

/// The call that asks who the user is.
pub open spec fn asking_who(answers: Answers, tokens: TokenResponse) -> Step {
    Step::FetchUsername(
        AwaitUsername {
            config: answers.config->0,
            base_url: answers.config->0.server_url->0,
            access_token: tokens.access_token,
            sessions: answers.sessions->Ok_0,
        },
    )
}

/// The calls up to the session list: the token store is read only where no
/// tokens are at hand.
pub open spec fn opening(poller: Poller, answers: Answers, tokens: TokenResponse) -> Seq<Step> {
    if laws::tokens_at_hand(poller, answers) is Some {
        seq![asking_for_sessions(answers, tokens)]
    } else {
        seq![reading_tokens(answers), asking_for_sessions(answers, tokens)]
    }
}

/// With no tokens at hand and none in the store, the user is signed out.
pub proof fn law_no_tokens_is_signed_out(poller: Poller, answers: Answers)
    requires
        at_work(answers),
        laws::tokens_at_hand(poller, answers) is None,
        answers.stored is None,
    ensures
        is_signed_out(laws::cycle(poller, answers)),
        laws::cycle(poller, answers).calls == seq![reading_tokens(answers)],
        laws::cycle(poller, answers).after.rejected == poller.rejected,
{
    reveal_with_fuel(laws::cycle_from, 3);
}

/// A stored pair that the server has turned down is removed, not used.
pub proof fn law_a_pair_turned_down_is_not_used(poller: Poller, answers: Answers)
    requires
        at_work(answers),
        laws::tokens_at_hand(poller, answers) is None,
        answers.stored is Some,
        laws::turned_down(poller.rejected, answers.stored->0),
    ensures
        is_signed_out(laws::cycle(poller, answers)),
        laws::cycle(poller, answers).calls == seq![reading_tokens(answers), Step::ClearTokens],
        laws::cycle(poller, answers).after.rejected == poller.rejected,
{
    reveal_with_fuel(laws::cycle_from, 3);
}

/// Whatever error the request for the session list ends in, but for one that
/// says the access token has expired, the tray says that the server cannot be
/// reached, and the poll backs off, however many failures there were.
pub proof fn law_unreachable_server(poller: Poller, answers: Answers)
    requires
        laws::asks(poller, answers),
        answers.sessions is Err,
        !(answers.sessions->Err_0 is Unauthorized),
    ensures
        ({
            let whole = laws::cycle(poller, answers);
            let tokens = laws::tokens_for(poller, answers)->0;
            &&& whole.calls == opening(poller, answers, tokens)
            &&& whole.status == Some("Server unreachable"@)
            &&& whole.said_first == whole.status
            &&& whole.said_last is None
            &&& whole.delay_seconds == 60
            &&& whole.after.consecutive_failures == counted(poller.consecutive_failures)
            &&& whole.after.cached_tokens == Some(tokens)
            &&& whole.after.current_username == laws::known_username(poller, answers)
            &&& whole.after.rejected == poller.rejected
            &&& if may_stay(poller.consecutive_failures, laws::known_username(poller, answers)) {
                stays(poller, whole)
            } else {
                goes(whole)
            }
        }),
{
    reveal_with_fuel(laws::cycle_from, 4);
}

/// Has the access token expired?
pub open spec fn has_expired(poller: Poller, answers: Answers) -> bool {
    laws::asks(poller, answers) && answers.sessions is Err && answers.sessions->Err_0
        is Unauthorized
}

/// The name that is still known once the token store was read again: not if it
/// holds another pair.
pub open spec fn name_after_reading_again(poller: Poller, answers: Answers) -> Option<String> {
    if laws::unchanged(laws::tokens_for(poller, answers), answers.reloaded) {
        laws::known_username(poller, answers)
    } else {
        None
    }
}

/// With the access token expired and nothing in the store, the user is signed
/// out.
pub proof fn law_expired_without_stored_tokens(poller: Poller, answers: Answers)
    requires
        has_expired(poller, answers),
        answers.reloaded is None,
    ensures
        is_signed_out(laws::cycle(poller, answers)),
        laws::cycle(poller, answers).calls == opening(
            poller,
            answers,
            laws::tokens_for(poller, answers)->0,
        ) + seq![reading_tokens_again(answers)],
        laws::cycle(poller, answers).after.rejected == poller.rejected,
{
    reveal_with_fuel(laws::cycle_from, 5);
}

/// With the access token expired and no refresh token to exchange, or only one
/// that was turned down before, the stored pair is removed and the user signed
/// out.
pub proof fn law_expired_without_a_refresh_token(poller: Poller, answers: Answers)
    requires
        has_expired(poller, answers),
        answers.reloaded is Some,
        answers.reloaded->0.refresh_token is None || laws::turned_down(
            poller.rejected,
            answers.reloaded->0,
        ),
    ensures
        is_signed_out(laws::cycle(poller, answers)),
        laws::cycle(poller, answers).calls == opening(
            poller,
            answers,
            laws::tokens_for(poller, answers)->0,
        ) + seq![reading_tokens_again(answers), Step::ClearTokens],
        laws::cycle(poller, answers).after.rejected == poller.rejected,
{
    reveal_with_fuel(laws::cycle_from, 6);
}

/// Is the refresh token of the stored pair exchanged?
pub open spec fn exchanges_the_stored_token(poller: Poller, answers: Answers) -> bool {
    &&& has_expired(poller, answers)
    &&& answers.reloaded is Some
    &&& answers.reloaded->0.refresh_token is Some
    &&& !laws::turned_down(poller.rejected, answers.reloaded->0)
}

/// The calls up to the exchange.
pub open spec fn up_to_the_exchange(poller: Poller, answers: Answers) -> Seq<Step> {
    opening(poller, answers, laws::tokens_for(poller, answers)->0) + seq![
        reading_tokens_again(answers),
        exchanging(answers, answers.reloaded->0),
    ]
}

/// A refresh token that is rejected is remembered as such, the stored pair is
/// removed, and the user signed out.
pub proof fn law_rejected_exchange(poller: Poller, answers: Answers)
    requires
        exchanges_the_stored_token(poller, answers),
        answers.refreshed is Err,
        answers.refreshed->Err_0 is RefreshRejected,
    ensures
        is_signed_out(laws::cycle(poller, answers)),
        laws::cycle(poller, answers).calls == up_to_the_exchange(poller, answers) + seq![
            Step::ClearTokens,
        ],
        laws::cycle(poller, answers).after.rejected == answers.reloaded->0.refresh_token,
{
    reveal_with_fuel(laws::cycle_from, 6);
}

/// An exchange that fails otherwise is an outage like any other.
pub proof fn law_failed_exchange(poller: Poller, answers: Answers)
    requires
        exchanges_the_stored_token(poller, answers),
        answers.refreshed is Err,
        !(answers.refreshed->Err_0 is RefreshRejected),
    ensures
        ({
            let whole = laws::cycle(poller, answers);
            &&& whole.calls == up_to_the_exchange(poller, answers)
            &&& whole.status == Some("Server unreachable"@)
            &&& whole.said_first == whole.status
            &&& whole.said_last is None
            &&& whole.delay_seconds == 60
            &&& whole.after.consecutive_failures == counted(poller.consecutive_failures)
            &&& whole.after.cached_tokens == answers.reloaded
            &&& whole.after.current_username == name_after_reading_again(poller, answers)
            &&& whole.after.rejected == poller.rejected
            &&& if may_stay(
                poller.consecutive_failures,
                name_after_reading_again(poller, answers),
            ) {
                stays(poller, whole)
            } else {
                goes(whole)
            }
        }),
{
    reveal_with_fuel(laws::cycle_from, 6);
}

/// A fresh pair is stored and kept, and tried again a second later. The cycle
/// still counts as failed, so that a server that keeps turning fresh pairs down
/// is backed off from, which the tray then says.
pub proof fn law_saved_exchange(poller: Poller, answers: Answers)
    requires
        exchanges_the_stored_token(poller, answers),
        answers.refreshed is Ok,
        answers.persisted,
    ensures
        ({
            let whole = laws::cycle(poller, answers);
            let fresh = answers.refreshed->Ok_0;
            &&& whole.calls == up_to_the_exchange(poller, answers) + seq![
                Step::StoreTokens(AwaitStore { fresh }),
            ]
            &&& whole.after.consecutive_failures == counted(poller.consecutive_failures)
            &&& whole.after.cached_tokens == Some(fresh)
            &&& whole.after.current_username == name_after_reading_again(poller, answers)
            &&& whole.after.rejected == poller.rejected
            &&& whole.said_first is None
            &&& poller.consecutive_failures + 1 < 3 ==> whole.said_last is None
                && whole.delay_seconds == 1
            &&& poller.consecutive_failures + 1 >= 3 ==> whole.said_last == Some(
                "Server unreachable"@,
            ) && whole.delay_seconds == 60
            &&& if may_stay(
                poller.consecutive_failures,
                name_after_reading_again(poller, answers),
            ) {
                stays(poller, whole)
            } else {
                goes(whole)
            }
        }),
{
    reveal_with_fuel(laws::cycle_from, 6);
}

/// A fresh pair that cannot be stored is kept all the same, and the tray says
/// that it is not saved. The cycle does not count as failed: what is shown
/// stays, unless it is not known who the user is.
pub proof fn law_unsaved_exchange(poller: Poller, answers: Answers)
    requires
        exchanges_the_stored_token(poller, answers),
        answers.refreshed is Ok,
        !answers.persisted,
    ensures
        ({
            let whole = laws::cycle(poller, answers);
            let fresh = answers.refreshed->Ok_0;
            &&& whole.calls == up_to_the_exchange(poller, answers) + seq![
                Step::StoreTokens(AwaitStore { fresh }),
            ]
            &&& whole.said_first is None
            &&& whole.said_last == Some("Sign-in not saved — will be needed again after restart"@)
            &&& whole.delay_seconds == 1
            &&& whole.after.consecutive_failures == poller.consecutive_failures
            &&& whole.after.cached_tokens == Some(fresh)
            &&& whole.after.current_username == name_after_reading_again(poller, answers)
            &&& whole.after.rejected == poller.rejected
            &&& if name_after_reading_again(poller, answers) is Some {
                stays(poller, whole)
            } else {
                goes(whole)
            }
        }),
{
    reveal_with_fuel(laws::cycle_from, 6);
}

/// Where it cannot be found out who the user is, nothing is shown, the tray says
/// that the server cannot be reached, and the poll backs off.
pub proof fn law_unknown_user(poller: Poller, answers: Answers)
    requires
        laws::asks(poller, answers),
        answers.sessions is Ok,
        laws::known_username(poller, answers) is None,
        answers.username is Err,
    ensures
        ({
            let whole = laws::cycle(poller, answers);
            let tokens = laws::tokens_for(poller, answers)->0;
            &&& whole.calls == opening(poller, answers, tokens) + seq![asking_who(answers, tokens)]
            &&& whole.status == Some("Server unreachable"@)
            &&& whole.said_first == whole.status
            &&& whole.said_last is None
            &&& whole.delay_seconds == 60
            &&& whole.after.consecutive_failures == 1
            &&& whole.after.cached_tokens == Some(tokens)
            &&& whole.after.current_username is None
            &&& whole.after.rejected == poller.rejected
            &&& goes(whole)
        }),
{
    reveal_with_fuel(laws::cycle_from, 5);
}

/// Is everything known that it takes to show a session?
pub open spec fn ready(poller: Poller, answers: Answers) -> bool {
    laws::asks(poller, answers) && answers.sessions is Ok && laws::username_for(poller, answers)
        is Some
}

/// The calls of a cycle that gets as far as showing a session: who the user is
/// is asked only where it is not known.
pub open spec fn calls_of_a_working_cycle(poller: Poller, answers: Answers) -> Seq<Step> {
    let tokens = laws::tokens_for(poller, answers)->0;
    if laws::known_username(poller, answers) is Some {
        opening(poller, answers, tokens)
    } else {
        opening(poller, answers, tokens) + seq![asking_who(answers, tokens)]
    }
}

/// What a cycle that gets as far as showing a session remembers besides it.
pub open spec fn all_is_well(poller: Poller, answers: Answers, whole: Cycle) -> bool {
    &&& whole.said_first is None
    &&& whole.delay_seconds == 15
    &&& whole.after.consecutive_failures == 0
    &&& whole.after.cached_tokens == laws::tokens_for(poller, answers)
    &&& whole.after.current_username == laws::username_for(poller, answers)
    &&& whole.after.rejected == poller.rejected
}

/// The session that a cycle picks: from the list that it got, by the settings
/// that it read, staying on the session it showed, and for the user it knows.
pub open spec fn pick(poller: Poller, answers: Answers) -> Option<Session> {
    mapper::broadcast_session(
        answers.sessions->Ok_0@,
        answers.config->0,
        match poller.current_id {
            Some(id) => Some(id@),
            None => None,
        },
        laws::username_for(poller, answers)->0@,
    )
}

/// What is known by the time a session is picked.
pub open spec fn ready_state(poller: Poller, answers: Answers) -> Poller {
    Poller {
        current_id: poller.current_id,
        current_username: laws::username_for(poller, answers),
        cached_tokens: laws::tokens_for(poller, answers),
        rejected: poller.rejected,
        consecutive_failures: 0,
    }
}

/// What a session is picked from.
pub open spec fn ready_wait(poller: Poller, answers: Answers) -> AwaitConnection {
    AwaitConnection {
        config: answers.config->0,
        sessions: answers.sessions->Ok_0,
        username: laws::username_for(poller, answers)->0,
    }
}

proof fn lemma_ready_cycle(poller: Poller, answers: Answers)
    requires
        ready(poller, answers),
    ensures
        laws::cycle(poller, answers).calls =~= calls_of_a_working_cycle(poller, answers),
        laws::cycle(poller, answers) == (Cycle {
            calls: laws::cycle(poller, answers).calls,
            ..laws::showing(ready_state(poller, answers), ready_wait(poller, answers), answers)
        }),
{
    reveal_with_fuel(laws::cycle_from, 5);
}

/// The session that is picked is shown and remembered, and the tray says what is
/// played, or that Discord is not running.
pub proof fn law_picked_session_is_shown(poller: Poller, answers: Answers)
    requires
        ready(poller, answers),
        pick(poller, answers) is Some,
        plays(pick(poller, answers)->0) ==> render::bounds_fit(
            pick(poller, answers)->0@,
            answers.now_unix,
        ),
    ensures
        ({
            let whole = laws::cycle(poller, answers);
            let session = pick(poller, answers)->0;
            let presence = render::presence_of(session@, answers.now_unix);
            &&& all_is_well(poller, answers, whole)
            &&& whole.calls == calls_of_a_working_cycle(poller, answers)
            &&& whole.shown == Shown::Sent(presence)
            &&& whole.after.current_id == Some(session.id)
            &&& !answers.connected ==> whole.said_last == Some("Discord not running"@)
            &&& answers.connected && presence.kind is Watching ==> whole.said_last == Some(
                "Watching "@ + presence.details,
            )
            &&& answers.connected && presence.kind is Listening ==> whole.said_last == Some(
                "Listening to "@ + presence.details,
            )
        }),
{
    lemma_ready_cycle(poller, answers);
}

/// Where no session is picked, or one whose bar would leave the clock's range,
/// the presence is cleared, and the tray says that nothing plays, or that
/// Discord is not running.
pub proof fn law_nothing_to_show(poller: Poller, answers: Answers)
    requires
        ready(poller, answers),
        pick(poller, answers) is None || (plays(pick(poller, answers)->0) && !render::bounds_fit(
            pick(poller, answers)->0@,
            answers.now_unix,
        )),
    ensures
        ({
            let whole = laws::cycle(poller, answers);
            &&& all_is_well(poller, answers, whole)
            &&& whole.calls == calls_of_a_working_cycle(poller, answers)
            &&& goes(whole)
            &&& !answers.connected ==> whole.said_last == Some("Discord not running"@)
            &&& answers.connected ==> whole.said_last == Some("Nothing playing"@)
        }),
{
    lemma_ready_cycle(poller, answers);
}

/// The step that follows a try at connecting shows the session that is picked,
/// under its own id and with the presence of that session, or nothing where
/// none can be shown.
pub proof fn law_step_after_connecting(
    poller: Poller,
    wait: AwaitConnection,
    step: Step,
    now_unix: i64,
)
    requires
        poller::shows(step, poller::to_show(poller, wait, now_unix), now_unix),
    ensures
        ({
            let pick = mapper::broadcast_session(
                wait.sessions@,
                wait.config,
                match poller.current_id {
                    Some(id) => Some(id@),
                    None => None,
                },
                wait.username@,
            );
            let can_be_shown = pick is Some && (plays(pick->0) ==> render::bounds_fit(
                pick->0@,
                now_unix,
            ));
            &&& can_be_shown ==> (step matches Step::Broadcast(next) && next.id == pick->0.id
                && next.state@ == render::presence_of(pick->0@, now_unix))
            &&& !can_be_shown ==> step is Silence
        }),
{
}

/// What a failed poll changes: one failure more, and the remembered session,
/// which is forgotten after three failures, or where it is not known who the
/// user is.
pub proof fn law_failed_poll(poller: Poller)
    ensures
        poller.failed().consecutive_failures == counted(poller.consecutive_failures),
        poller.failed().current_username == poller.current_username,
        poller.failed().cached_tokens == poller.cached_tokens,
        poller.failed().rejected == poller.rejected,
        poller.failed().hides() <==> !may_stay(
            poller.consecutive_failures,
            poller.current_username,
        ),
        may_stay(poller.consecutive_failures, poller.current_username)
            ==> poller.failed().current_id == poller.current_id,
        !may_stay(poller.consecutive_failures, poller.current_username)
            ==> poller.failed().current_id is None,
{
}

} // verus!
