//! What holds of every poll cycle.
//!
//! A whole cycle is what the steps of [`Poller`] add up to, given how each
//! outside call ends. The laws speak of that.

use crate::api::client::ApiError;
use crate::api::model::Session;
use crate::auth::tokens::{AuthError, TokenResponse};
use crate::config::Config;
use crate::mapper;
use crate::mapper::render;
use crate::mapper::select;
use crate::mapper::types::PresenceView;
use crate::poller;
use crate::poller::{
    AwaitConnection, Poller, Status, Step, TickEnd, ERROR_BACKOFF_SECONDS,
    MAX_FAILURES_BEFORE_CLEAR, POLL_INTERVAL_SECONDS, RETRY_SECONDS,
};
use crate::text;
use vstd::prelude::*;

verus! {

/// How the outside calls of one cycle end, should the cycle make them.
pub struct Answers {
    pub auth_dirty: bool,
    /// Tokens of a sign-in that no store could hold.
    pub handed: Option<TokenResponse>,
    pub config: Option<Config>,
    /// What the token store holds when it is read first.
    pub stored: Option<TokenResponse>,
    pub sessions: Result<Vec<Session>, ApiError>,
    /// What the token store holds when it is read again.
    pub reloaded: Option<TokenResponse>,
    pub refreshed: Result<TokenResponse, AuthError>,
    pub persisted: bool,
    pub username: Result<String, ApiError>,
    pub now_unix: i64,
    /// Is there a connection to Discord once the presence was brought there?
    pub connected: bool,
}

/// What a cycle does to the user's presence.
pub enum Shown {
    /// It stays as it is.
    Kept,
    Cleared,
    Sent(PresenceView),
}

/// What a cycle amounts to.
pub struct Cycle {
    /// The calls to the server and to the token store, in order.
    pub calls: Seq<Step>,
    pub shown: Shown,
    /// The words put on the status line before the presence is cleared.
    pub said_first: Option<Seq<char>>,
    /// The words put on the status line after that.
    pub said_last: Option<Seq<char>>,
    /// The last words put on the status line, if any were.
    pub status: Option<Seq<char>>,
    pub delay_seconds: u64,
    /// What is remembered for the next cycle.
    pub after: Poller,
}

/// The words of an optional status.
pub open spec fn words(status: Option<Status>) -> Option<Seq<char>> {
    match status {
        Some(status) => Some(status.text()),
        None => None,
    }
}

/// What is left to do at the end of a cycle.
pub open spec fn ended(poller: Poller, end: TickEnd) -> Cycle {
    Cycle {
        calls: Seq::empty(),
        shown: if end.clear_presence {
            Shown::Cleared
        } else {
            Shown::Kept
        },
        said_first: words(end.status_first),
        said_last: words(end.status_last),
        status: if end.status_last is Some {
            words(end.status_last)
        } else {
            words(end.status_first)
        },
        delay_seconds: end.delay_seconds,
        after: poller,
    }
}

/// What the status line says while a presence is shown.
pub open spec fn said_of(presence: PresenceView, connected: bool) -> Option<Seq<char>> {
    Some(
        if connected {
            poller::broadcast_text(presence.kind, presence.details)
        } else {
            Status::DiscordNotRunning.text()
        },
    )
}

/// What the status line says while nothing is shown.
pub open spec fn said_of_nothing(connected: bool) -> Option<Seq<char>> {
    Some(
        if connected {
            Status::NothingPlaying.text()
        } else {
            Status::DiscordNotRunning.text()
        },
    )
}

/// A cycle that ends by showing the picked session, or nothing.
pub open spec fn showing(poller: Poller, wait: AwaitConnection, answers: Answers) -> Cycle {
    match poller::to_show(poller, wait, answers.now_unix) {
        Some(session) => {
            let presence = render::presence_of(session@, answers.now_unix);
            Cycle {
                calls: Seq::empty(),
                shown: Shown::Sent(presence),
                said_first: None,
                said_last: said_of(presence, answers.connected),
                status: said_of(presence, answers.connected),
                delay_seconds: POLL_INTERVAL_SECONDS,
                after: Poller { current_id: Some(session.id), ..poller },
            }
        },
        None => Cycle {
            calls: Seq::empty(),
            shown: Shown::Cleared,
            said_first: None,
            said_last: said_of_nothing(answers.connected),
            status: said_of_nothing(answers.connected),
            delay_seconds: POLL_INTERVAL_SECONDS,
            after: Poller { current_id: None, ..poller },
        },
    }
}

/// Steps that can still follow a step.
pub open spec fn steps_left(step: Step) -> nat {
    match step {
        Step::LoadTokens(_) => 7,
        Step::FetchSessions(_) => 6,
        Step::ReloadTokens(_) => 5,
        Step::Refresh(_) => 4,
        Step::StoreTokens(_) => 3,
        Step::FetchUsername(_) => 3,
        Step::ClearTokens => 2,
        Step::Connect(_) => 2,
        Step::Broadcast(_) => 1,
        Step::Silence => 1,
        Step::Finish(_) => 0,
    }
}

/// Is the step a call to the server or to the token store?
pub open spec fn is_call(step: Step) -> bool {
    !(step is Connect || step is Broadcast || step is Silence || step is Finish)
}

/// The state and step that follow a call.
pub open spec fn after_call(poller: Poller, step: Step, answers: Answers) -> (Poller, Step) {
    match step {
        Step::LoadTokens(wait) => poller::after_tokens(poller, wait, answers.stored),
        Step::FetchSessions(wait) => poller::after_sessions(poller, wait, answers.sessions),
        Step::ReloadTokens(wait) => poller::after_reload(poller, wait, answers.reloaded),
        Step::Refresh(wait) => poller::after_refresh(poller, wait, answers.refreshed),
        Step::StoreTokens(wait) => poller::after_store(poller, wait, answers.persisted),
        Step::FetchUsername(wait) => poller::after_username(poller, wait, answers.username),
        Step::ClearTokens => poller::after_clear(poller),
        _ => (poller, step),
    }
}

/// A cycle from `step` to its end.
pub open spec fn cycle_from(poller: Poller, step: Step, answers: Answers) -> Cycle
    decreases steps_left(step),
{
    match step {
        Step::Connect(wait) => showing(poller, wait, answers),
        Step::Broadcast(wait) => Cycle {
            shown: Shown::Sent(wait.state@),
            ..ended(
                poller::after_broadcast(poller, wait, answers.connected).0,
                poller::after_broadcast(poller, wait, answers.connected).1,
            )
        },
        Step::Silence => Cycle {
            shown: Shown::Cleared,
            ..ended(
                poller::after_silence(poller, answers.connected).0,
                poller::after_silence(poller, answers.connected).1,
            )
        },
        Step::Finish(end) => ended(poller, end),
        _ => {
            let (next, follows) = after_call(poller, step, answers);
            called(step, cycle_from(next, follows, answers))
        },
    }
}

/// A cycle that begins with a call.
pub open spec fn called(step: Step, rest: Cycle) -> Cycle {
    Cycle { calls: seq![step] + rest.calls, ..rest }
}

/// A whole cycle.
pub open spec fn cycle(poller: Poller, answers: Answers) -> Cycle {
    cycle_from(
        poller::after_begin(poller, answers.auth_dirty, answers.handed, answers.config).0,
        poller::after_begin(poller, answers.auth_dirty, answers.handed, answers.config).1,
        answers,
    )
}

/// Is the refresh token of this pair the one that the server has turned down?
pub open spec fn turned_down(rejected: Option<String>, tokens: TokenResponse) -> bool {
    rejected is Some && tokens.refresh_token is Some && rejected->0@ == tokens.refresh_token->0@
}

/// Is `found` the pair that is in use, in every part of it?
pub open spec fn unchanged(in_use: Option<TokenResponse>, found: Option<TokenResponse>) -> bool {
    &&& in_use is Some && found is Some
    &&& in_use->0.access_token@ == found->0.access_token@
    &&& in_use->0.expires_in == found->0.expires_in
    &&& in_use->0.refresh_token is Some <==> found->0.refresh_token is Some
    &&& in_use->0.refresh_token is Some ==> in_use->0.refresh_token->0@
        == found->0.refresh_token->0@
}

/// The tokens that are at hand when a cycle begins, without the token store.
pub open spec fn tokens_at_hand(poller: Poller, answers: Answers) -> Option<TokenResponse> {
    if answers.auth_dirty {
        answers.handed
    } else {
        poller.cached_tokens
    }
}

/// The tokens a cycle starts out with, once it has looked for them. A stored
/// pair that the server has turned down does not count.
pub open spec fn tokens_for(poller: Poller, answers: Answers) -> Option<TokenResponse> {
    match tokens_at_hand(poller, answers) {
        Some(tokens) => Some(tokens),
        None => match answers.stored {
            Some(tokens) => if turned_down(poller.rejected, tokens) {
                None
            } else {
                Some(tokens)
            },
            None => None,
        },
    }
}

/// Does a cycle get as far as asking for the session list?
pub open spec fn asks(poller: Poller, answers: Answers) -> bool {
    &&& answers.config matches Some(config)
    &&& !config.paused
    &&& config.server_url is Some
    &&& tokens_for(poller, answers) is Some
}

/// The username that is still known when a cycle begins.
pub open spec fn known_username(poller: Poller, answers: Answers) -> Option<String> {
    if answers.auth_dirty {
        None
    } else {
        poller.current_username
    }
}

/// The username a cycle goes by, once it has looked for it.
pub open spec fn username_for(poller: Poller, answers: Answers) -> Option<String> {
    match known_username(poller, answers) {
        Some(username) => Some(username),
        None => match answers.username {
            Ok(username) => Some(username),
            Err(_) => None,
        },
    }
}

/// Carrying a cycle on from the step that [`Poller::connected`] returns shows
/// what was picked, or nothing where nothing was.
pub proof fn law_connected_step_shows_the_pick(
    poller: Poller,
    wait: AwaitConnection,
    step: Step,
    answers: Answers,
)
    requires
        poller::shows(step, poller::to_show(poller, wait, answers.now_unix), answers.now_unix),
    ensures
        cycle_from(poller, step, answers) == showing(poller, wait, answers),
{
}

/// While paused, a cycle clears the presence and calls neither the server nor
/// the token store.
pub proof fn law_paused_cycle_is_silent(poller: Poller, answers: Answers)
    requires
        answers.config matches Some(config) && config.paused,
    ensures
        cycle(poller, answers).calls == Seq::<Step>::empty(),
        cycle(poller, answers).shown is Cleared,
        cycle(poller, answers).after.current_id is None,
        cycle(poller, answers).after.consecutive_failures == 0,
        cycle(poller, answers).status == Some("Paused"@),
        cycle(poller, answers).delay_seconds == POLL_INTERVAL_SECONDS,
{
}

/// Without a server, a cycle clears the presence and makes no call.
pub proof fn law_cycle_without_a_server_is_silent(poller: Poller, answers: Answers)
    requires
        answers.config matches Some(config) && !config.paused && config.server_url is None,
    ensures
        cycle(poller, answers).calls == Seq::<Step>::empty(),
        cycle(poller, answers).shown is Cleared,
        cycle(poller, answers).after.current_id is None,
        cycle(poller, answers).after.current_username is None,
        cycle(poller, answers).status == Some("No server configured"@),
        cycle(poller, answers).delay_seconds == POLL_INTERVAL_SECONDS,
{
}

/// Whatever is shown is a session of the user whose name is known, of a media
/// type that is switched on, and its id is remembered.
pub proof fn law_only_a_known_users_sessions_are_shown(poller: Poller, answers: Answers)
    ensures
        cycle(poller, answers).shown matches Shown::Sent(presence) ==> {
            &&& answers.config matches Some(config)
            &&& !config.paused
            &&& answers.sessions matches Ok(sessions)
            &&& username_for(poller, answers) matches Some(username)
            &&& cycle(poller, answers).after.current_username == Some(username)
            &&& exists|session: Session| #[trigger]
                sessions@.contains(session) && select::eligible(session, config, username@)
                    && cycle(poller, answers).after.current_id == Some(session.id) && presence
                    == render::presence_of(session@, answers.now_unix)
        },
{
    reveal_with_fuel(cycle_from, 6);
    if cycle(poller, answers).shown is Sent {
        let sessions = answers.sessions->Ok_0@;
        let username = username_for(poller, answers)->0@;
        let id = text::option_text(poller.current_id);
        let config = answers.config->0;
        mapper::laws::law_only_own_enabled_sessions_are_broadcast(sessions, config, id, username);
        let session = mapper::broadcast_session(sessions, config, id, username)->0;
        assert(sessions.contains(session) && select::eligible(session, config, username));
    }
}

/// After a sign-in or a sign-out, whatever is shown is shown under the name
/// that the server gives in this very cycle, asked with the tokens that are now
/// in use: the name of an account that was left is never gone by.
pub proof fn law_account_is_confirmed_after_a_sign_in(poller: Poller, answers: Answers)
    ensures
        answers.auth_dirty && cycle(poller, answers).shown is Sent ==> {
            &&& answers.username is Ok
            &&& cycle(poller, answers).after.current_username == Some(answers.username->Ok_0)
            &&& tokens_for(poller, answers) is Some
            &&& cycle(poller, answers).calls.last() matches Step::FetchUsername(wait)
            &&& wait.access_token == tokens_for(poller, answers)->0.access_token
        },
        answers.auth_dirty && !(cycle(poller, answers).shown is Sent) ==> cycle(
            poller,
            answers,
        ).shown is Cleared,
{
    reveal_with_fuel(cycle_from, 6);
}

/// Is the name that is known after a cycle the one that the cycle has fetched?
pub open spec fn name_was_fetched(whole: Cycle, answers: Answers) -> bool {
    &&& whole.calls.len() > 0
    &&& whole.calls.last() is FetchUsername
    &&& whole.after.current_username is Some
    &&& answers.username == Ok::<String, ApiError>(whole.after.current_username->0)
}

/// Is the name that is known after a cycle the one that was known before, and
/// are the tokens those that were in use, or refreshed from exactly those?
pub open spec fn name_was_kept(before: Poller, after: Poller, answers: Answers) -> bool {
    &&& !answers.auth_dirty
    &&& after.current_username == before.current_username
    &&& after.cached_tokens is Some
    &&& after.cached_tokens == before.cached_tokens || (unchanged(
        before.cached_tokens,
        answers.reloaded,
    ) && (after.cached_tokens == answers.reloaded || answers.refreshed == Ok::<
        TokenResponse,
        AuthError,
    >(after.cached_tokens->0)))
}

/// A name that is not fetched in a cycle is kept through it only with the token
/// pair that was in use before, or with one refreshed from exactly that pair.
pub proof fn law_name_is_kept_only_with_its_tokens(poller: Poller, answers: Answers)
    requires
        well_kept(poller),
        cycle(poller, answers).after.current_username is Some,
    ensures
        name_was_fetched(cycle(poller, answers), answers) || name_was_kept(
            poller,
            cycle(poller, answers).after,
            answers,
        ),
{
    let (next, step) = poller::after_begin(
        poller,
        answers.auth_dirty,
        answers.handed,
        answers.config,
    );
    lemma_name_is_kept_from(poller, next, step, answers);
}

/// Has the cycle that began with `before` reached a state in which a known name
/// still goes with the tokens?
spec fn name_is_good(before: Poller, poller: Poller, step: Step, answers: Answers) -> bool {
    poller.current_username is Some ==> {
        &&& name_was_kept(before, poller, answers)
        &&& step is FetchSessions || step is ReloadTokens ==> poller.cached_tokens
            == before.cached_tokens
        &&& step is Refresh ==> unchanged(before.cached_tokens, answers.reloaded)
        &&& step matches Step::StoreTokens(wait) ==> unchanged(
            before.cached_tokens,
            answers.reloaded,
        ) && answers.refreshed == Ok::<TokenResponse, AuthError>(wait.fresh)
        &&& !(step is LoadTokens)
    }
}

proof fn lemma_name_is_kept_from(before: Poller, poller: Poller, step: Step, answers: Answers)
    requires
        name_is_good(before, poller, step, answers) || step is Connect || step is Finish,
        !is_call(step) && poller.current_username is Some ==> name_was_kept(
            before,
            poller,
            answers,
        ),
        cycle_from(poller, step, answers).after.current_username is Some,
    ensures
        name_was_fetched(cycle_from(poller, step, answers), answers) || name_was_kept(
            before,
            cycle_from(poller, step, answers).after,
            answers,
        ),
    decreases steps_left(step),
{
    if is_call(step) {
        let (next, follows) = after_call(poller, step, answers);
        if step is FetchUsername {
            assert(!is_call(follows));
            assert(cycle_from(next, follows, answers).calls.len() == 0);
            assert(cycle_from(next, follows, answers).after.current_username
                == next.current_username);
        } else {
            lemma_name_is_kept_from(before, next, follows, answers);
        }
    }
}

/// Once the session list and the user's name are there, something is shown
/// exactly when some session may be; otherwise the presence is cleared. (The
/// progress bar of what is to be shown must fit the clock's range.)
pub proof fn law_shown_exactly_when_something_may_be(poller: Poller, answers: Answers)
    requires
        asks(poller, answers),
        answers.sessions is Ok,
        username_for(poller, answers) is Some,
        mapper::mappable(
            answers.sessions->Ok_0@,
            answers.config->0,
            answers.now_unix,
            text::option_text(poller.current_id),
            username_for(poller, answers)->0@,
        ),
    ensures
        ({
            let config = answers.config->0;
            let username = username_for(poller, answers)->0@;
            let sessions = answers.sessions->Ok_0@;
            if forall|session: Session| #[trigger]
                sessions.contains(session) ==> !select::eligible(session, config, username) {
                &&& cycle(poller, answers).shown is Cleared
                &&& cycle(poller, answers).after.current_id is None
                &&& cycle(poller, answers).status == Some(
                    if answers.connected {
                        "Nothing playing"@
                    } else {
                        "Discord not running"@
                    },
                )
            } else {
                cycle(poller, answers).shown is Sent
            }
        }),
        cycle(poller, answers).after.consecutive_failures == 0,
        cycle(poller, answers).delay_seconds == POLL_INTERVAL_SECONDS,
{
    reveal_with_fuel(cycle_from, 6);
    mapper::laws::law_silent_only_without_an_eligible_session(
        answers.sessions->Ok_0@,
        answers.config->0,
        text::option_text(poller.current_id),
        username_for(poller, answers)->0@,
    );
}

/// A user whose name cannot be found out has nothing shown: what still is gets
/// cleared.
pub proof fn law_nothing_is_shown_for_an_unknown_user(poller: Poller, answers: Answers)
    requires
        username_for(poller, answers) is None,
    ensures
        cycle(poller, answers).shown is Cleared,
        cycle(poller, answers).after.current_username is None,
        cycle(poller, answers).after.current_id is None,
{
    reveal_with_fuel(cycle_from, 6);
}

/// Does the remembered id of a session follow what is shown?
pub open spec fn id_follows(before: Option<String>, whole: Cycle) -> bool {
    match whole.shown {
        Shown::Kept => whole.after.current_id == before,
        Shown::Cleared => whole.after.current_id is None,
        Shown::Sent(_) => whole.after.current_id is Some,
    }
}

/// The remembered id follows the presence: kept with it, forgotten with it,
/// and set with it.
pub proof fn law_remembered_id_follows_the_presence(poller: Poller, answers: Answers)
    ensures
        id_follows(poller.current_id, cycle(poller, answers)),
{
    let (next, step) = poller::after_begin(
        poller,
        answers.auth_dirty,
        answers.handed,
        answers.config,
    );
    lemma_id_follows_from(poller.current_id, next, step, answers);
}

proof fn lemma_id_follows_from(
    before: Option<String>,
    poller: Poller,
    step: Step,
    answers: Answers,
)
    requires
        step matches Step::Finish(end) && end.clear_presence ==> poller.current_id is None,
        step matches Step::Finish(end) && !end.clear_presence ==> poller.current_id == before,
        is_call(step) ==> poller.current_id == before,
    ensures
        id_follows(before, cycle_from(poller, step, answers)),
    decreases steps_left(step),
{
    if is_call(step) {
        let (next, follows) = after_call(poller, step, answers);
        lemma_id_follows_from(before, next, follows, answers);
    }
}

/// What the poll remembers between cycles fits together: nobody is known
/// without tokens, and nothing is shown of nobody.
pub open spec fn well_kept(poller: Poller) -> bool {
    &&& poller.cached_tokens is None ==> poller.current_username is None
    &&& poller.current_username is None ==> poller.current_id is None
}

/// That nobody is known without tokens, and nothing shown of nobody, holds at
/// the start, and every cycle keeps it.
pub proof fn law_every_cycle_keeps_unknown_users_hidden(poller: Poller, answers: Answers)
    requires
        well_kept(poller),
    ensures
        well_kept(cycle(poller, answers).after),
        well_kept(
            Poller {
                current_id: None,
                current_username: None,
                cached_tokens: None,
                rejected: None,
                consecutive_failures: 0,
            },
        ),
{
    reveal_with_fuel(cycle_from, 6);
}

/// Does a cycle count as failed? Without a config directory it does, and when
/// the session list cannot be had, unless that leads to signing out. A refresh
/// that works counts too, unless its tokens could not be saved.
pub open spec fn fails(poller: Poller, answers: Answers) -> bool {
    ||| answers.config is None
    ||| {
        &&& asks(poller, answers)
        &&& answers.sessions matches Err(error)
        &&& error is Unauthorized ==> {
            &&& answers.reloaded matches Some(tokens)
            &&& tokens.refresh_token is Some
            &&& !turned_down(poller.rejected, tokens)
            &&& match answers.refreshed {
                Ok(_) => answers.persisted,
                Err(error) => !(error is RefreshRejected),
            }
        }
    }
}

/// Is the user still known when a failed cycle ends? Not after a sign-in or a
/// sign-out, nor when the store holds another pair than the one in use.
pub open spec fn stays_known(poller: Poller, answers: Answers) -> bool {
    &&& known_username(poller, answers) is Some
    &&& answers.config is Some && answers.sessions == Err::<Vec<Session>, ApiError>(
        ApiError::Unauthorized,
    ) ==> unchanged(tokens_for(poller, answers), answers.reloaded)
}

/// A failed cycle keeps the presence of a known user until failures have piled
/// up, and clears it from then on, backing off.
pub proof fn law_failed_cycle_clears_only_after_a_row_of_failures(poller: Poller, answers: Answers)
    requires
        fails(poller, answers),
    ensures
        cycle(poller, answers).after.consecutive_failures == poller::one_more(
            poller.consecutive_failures,
        ),
        stays_known(poller, answers) ==> cycle(poller, answers).after.current_username
            == poller.current_username,
        cycle(poller, answers).shown is Cleared <==> poller.consecutive_failures + 1
            >= MAX_FAILURES_BEFORE_CLEAR || !stays_known(poller, answers),
        cycle(poller, answers).shown is Kept <==> poller.consecutive_failures + 1
            < MAX_FAILURES_BEFORE_CLEAR && stays_known(poller, answers),
        poller.consecutive_failures + 1 >= MAX_FAILURES_BEFORE_CLEAR ==> cycle(
            poller,
            answers,
        ).delay_seconds == ERROR_BACKOFF_SECONDS,
{
    reveal_with_fuel(cycle_from, 6);
}

/// The state after a number of cycles.
pub open spec fn after_cycles(poller: Poller, answers: Seq<Answers>) -> Poller
    decreases answers.len(),
{
    if answers.len() == 0 {
        poller
    } else {
        cycle(after_cycles(poller, answers.drop_last()), answers.last()).after
    }
}

/// An outage that begins after a cycle that worked, during which the user stays
/// known, keeps the presence for exactly as many failed cycles as are
/// tolerated, and then clears it in each one after.
pub proof fn law_outage_keeps_then_clears_the_presence(poller: Poller, outage: Seq<Answers>)
    requires
        poller.consecutive_failures == 0,
        0 < outage.len() <= u32::MAX,
        forall|k: int|
            0 <= k < outage.len() ==> fails(
                #[trigger] after_cycles(poller, outage.take(k)),
                outage[k],
            ) && stays_known(after_cycles(poller, outage.take(k)), outage[k]),
    ensures
        after_cycles(poller, outage).consecutive_failures == outage.len(),
        cycle(after_cycles(poller, outage.drop_last()), outage.last()).shown is Cleared
            <==> outage.len() >= MAX_FAILURES_BEFORE_CLEAR,
        cycle(after_cycles(poller, outage.drop_last()), outage.last()).shown is Kept
            <==> outage.len() < MAX_FAILURES_BEFORE_CLEAR,
        outage.len() >= MAX_FAILURES_BEFORE_CLEAR ==> after_cycles(poller, outage).current_id
            is None,
        outage.len() < MAX_FAILURES_BEFORE_CLEAR ==> after_cycles(poller, outage).current_id
            == poller.current_id,
    decreases outage.len(),
{
    let before = outage.drop_last();
    let state = after_cycles(poller, before);
    if before.len() > 0 {
        assert forall|k: int| 0 <= k < before.len() implies fails(
            #[trigger] after_cycles(poller, before.take(k)),
            before[k],
        ) && stays_known(after_cycles(poller, before.take(k)), before[k]) by {
            assert(before.take(k) =~= outage.take(k));
        }
        law_outage_keeps_then_clears_the_presence(poller, before);
    }
    assert(before =~= outage.take(outage.len() - 1));
    assert(fails(after_cycles(poller, outage.take(outage.len() - 1)), outage.last()));
    law_failed_cycle_clears_only_after_a_row_of_failures(state, outage.last());
    law_remembered_id_follows_the_presence(state, outage.last());
}

/// May a cycle make this call? Only a refresh token that was just read from the
/// store is exchanged, after the access token was turned down, and it is not
/// one that was rejected; only tokens that were just received are stored.
pub open spec fn may_call(rejected: Option<String>, answers: Answers, call: Step) -> bool {
    match call {
        Step::Refresh(wait) => {
            &&& answers.sessions == Err::<Vec<Session>, ApiError>(ApiError::Unauthorized)
            &&& answers.reloaded matches Some(tokens)
            &&& tokens.refresh_token == Some(wait.refresh_token)
            &&& !turned_down(rejected, tokens)
        },
        Step::StoreTokens(wait) => {
            &&& answers.sessions == Err::<Vec<Session>, ApiError>(ApiError::Unauthorized)
            &&& answers.reloaded is Some
            &&& answers.refreshed == Ok::<TokenResponse, AuthError>(wait.fresh)
        },
        Step::ReloadTokens(_) => answers.sessions == Err::<Vec<Session>, ApiError>(
            ApiError::Unauthorized,
        ),
        _ => true,
    }
}

/// Only a refresh token that was just read from the store is ever exchanged,
/// and only tokens that were just received are stored. So a sign-out between
/// two cycles is never undone.
pub proof fn law_refresh_never_undoes_a_sign_out(poller: Poller, answers: Answers)
    ensures
        forall|i: int|
            0 <= i < cycle(poller, answers).calls.len() ==> may_call(
                poller.rejected,
                answers,
                #[trigger] cycle(poller, answers).calls[i],
            ),
        asks(poller, answers) && answers.sessions == Err::<Vec<Session>, ApiError>(
            ApiError::Unauthorized,
        ) && answers.reloaded is None ==> {
            &&& cycle(poller, answers).shown is Cleared
            &&& cycle(poller, answers).after.cached_tokens is None
            &&& cycle(poller, answers).after.current_username is None
            &&& cycle(poller, answers).status == Some("Signed out"@)
        },
{
    let (next, step) = poller::after_begin(
        poller,
        answers.auth_dirty,
        answers.handed,
        answers.config,
    );
    lemma_calls_are_allowed_from(poller.rejected, next, step, answers);
    assert(asks(poller, answers) && answers.sessions == Err::<Vec<Session>, ApiError>(
        ApiError::Unauthorized,
    ) && answers.reloaded is None ==> {
        &&& cycle(poller, answers).shown is Cleared
        &&& cycle(poller, answers).after.cached_tokens is None
        &&& cycle(poller, answers).after.current_username is None
        &&& cycle(poller, answers).status == Some("Signed out"@)
    }) by {
        reveal_with_fuel(cycle_from, 4);
    }
}

proof fn lemma_calls_are_allowed_from(
    rejected: Option<String>,
    poller: Poller,
    step: Step,
    answers: Answers,
)
    requires
        may_call(rejected, answers, step),
        is_call(step) && !(step is ClearTokens) ==> poller.rejected == rejected,
    ensures
        forall|i: int|
            0 <= i < cycle_from(poller, step, answers).calls.len() ==> may_call(
                rejected,
                answers,
                #[trigger] cycle_from(poller, step, answers).calls[i],
            ),
    decreases steps_left(step),
{
    if is_call(step) {
        let (next, follows) = after_call(poller, step, answers);
        lemma_calls_are_allowed_from(rejected, next, follows, answers);
        let whole = cycle_from(poller, step, answers);
        let rest = cycle_from(next, follows, answers);
        assert forall|i: int| 0 <= i < whole.calls.len() implies may_call(
            rejected,
            answers,
            #[trigger] whole.calls[i],
        ) by {
            if i > 0 {
                assert(whole.calls[i] == rest.calls[i - 1]);
            }
        }
    }
}

/// A cycle that is told of a lasting denial spends no refresh token.
pub proof fn law_denied_access_is_not_refreshed(poller: Poller, answers: Answers)
    requires
        answers.sessions == Err::<Vec<Session>, ApiError>(ApiError::Forbidden),
    ensures
        forall|i: int|
            0 <= i < cycle(poller, answers).calls.len() ==> {
                &&& !(#[trigger] cycle(poller, answers).calls[i] is Refresh)
                &&& !(cycle(poller, answers).calls[i] is StoreTokens)
            },
{
    law_refresh_never_undoes_a_sign_out(poller, answers);
    assert forall|i: int| 0 <= i < cycle(poller, answers).calls.len() implies !(
    #[trigger] cycle(poller, answers).calls[i] is Refresh) && !(cycle(
        poller,
        answers,
    ).calls[i] is StoreTokens) by {
        assert(may_call(poller.rejected, answers, cycle(poller, answers).calls[i]));
    }
}

/// A rejected refresh signs the user out: the stored tokens are removed, the
/// kept ones forgotten, the presence cleared, and the refresh token remembered
/// as one not to be exchanged again.
pub proof fn law_rejected_refresh_signs_out(poller: Poller, answers: Answers)
    requires
        asks(poller, answers),
        answers.sessions == Err::<Vec<Session>, ApiError>(ApiError::Unauthorized),
        answers.reloaded matches Some(tokens) && tokens.refresh_token is Some
            && !turned_down(poller.rejected, tokens),
        answers.refreshed == Err::<TokenResponse, AuthError>(AuthError::RefreshRejected),
    ensures
        cycle(poller, answers).calls.last() is ClearTokens,
        cycle(poller, answers).after.cached_tokens is None,
        cycle(poller, answers).after.current_username is None,
        cycle(poller, answers).after.rejected == answers.reloaded->0.refresh_token,
        cycle(poller, answers).shown is Cleared,
        cycle(poller, answers).status == Some("Signed out"@),
        cycle(poller, answers).delay_seconds == POLL_INTERVAL_SECONDS,
{
    reveal_with_fuel(cycle_from, 6);
}

/// Does a cycle exchange this refresh token?
pub open spec fn exchanges(poller: Poller, answers: Answers, refresh_token: Seq<char>) -> bool {
    exists|i: int|
        0 <= i < cycle(poller, answers).calls.len() && (#[trigger] cycle(
            poller,
            answers,
        ).calls[i] matches Step::Refresh(wait) && wait.refresh_token@ == refresh_token)
}

/// A refresh token that was rejected is never exchanged again, in any cycle
/// after, even if removing it from the store fails every time; it is forgotten
/// only for another one that is rejected.
pub proof fn law_rejected_token_is_never_exchanged_again(
    poller: Poller,
    refresh_token: String,
    answers: Seq<Answers>,
)
    requires
        poller.rejected == Some(refresh_token),
        answers.len() > 0,
        forall|k: int|
            0 <= k < answers.len() - 1 ==> (#[trigger] answers[k]).refreshed != Err::<
                TokenResponse,
                AuthError,
            >(AuthError::RefreshRejected),
    ensures
        !exchanges(after_cycles(poller, answers.drop_last()), answers.last(), refresh_token@),
{
    lemma_rejected_token_is_remembered(poller, answers.drop_last());
    lemma_rejected_token_is_not_exchanged(
        after_cycles(poller, answers.drop_last()),
        answers.last(),
        refresh_token,
    );
}

/// The token that was rejected is remembered for as long as no other is.
proof fn lemma_rejected_token_is_remembered(poller: Poller, answers: Seq<Answers>)
    requires
        forall|k: int|
            0 <= k < answers.len() ==> (#[trigger] answers[k]).refreshed != Err::<
                TokenResponse,
                AuthError,
            >(AuthError::RefreshRejected),
    ensures
        after_cycles(poller, answers).rejected == poller.rejected,
    decreases answers.len(),
{
    if answers.len() > 0 {
        lemma_rejected_token_is_remembered(poller, answers.drop_last());
        lemma_one_cycle_remembers(after_cycles(poller, answers.drop_last()), answers.last());
    }
}

proof fn lemma_one_cycle_remembers(poller: Poller, answers: Answers)
    requires
        answers.refreshed != Err::<TokenResponse, AuthError>(AuthError::RefreshRejected),
    ensures
        cycle(poller, answers).after.rejected == poller.rejected,
{
    let (next, step) = poller::after_begin(
        poller,
        answers.auth_dirty,
        answers.handed,
        answers.config,
    );
    lemma_remembered_from(next, step, answers);
}

proof fn lemma_remembered_from(poller: Poller, step: Step, answers: Answers)
    requires
        answers.refreshed != Err::<TokenResponse, AuthError>(AuthError::RefreshRejected),
    ensures
        cycle_from(poller, step, answers).after.rejected == poller.rejected,
    decreases steps_left(step),
{
    if is_call(step) {
        let (next, follows) = after_call(poller, step, answers);
        lemma_remembered_from(next, follows, answers);
    }
}

proof fn lemma_rejected_token_is_not_exchanged(
    poller: Poller,
    answers: Answers,
    refresh_token: String,
)
    requires
        poller.rejected == Some(refresh_token),
    ensures
        !exchanges(poller, answers, refresh_token@),
{
    law_refresh_never_undoes_a_sign_out(poller, answers);
    assert forall|i: int| 0 <= i < cycle(poller, answers).calls.len() implies !(
    #[trigger] cycle(poller, answers).calls[i] matches Step::Refresh(wait) && wait.refresh_token@
        == refresh_token@) by {
        assert(may_call(poller.rejected, answers, cycle(poller, answers).calls[i]));
    }
}

/// While everything is known and the server answers, a cycle calls for the
/// session list and nothing else: the token store is not read.
pub proof fn law_steady_state_reads_no_tokens(poller: Poller, answers: Answers)
    requires
        !answers.auth_dirty,
        poller.cached_tokens is Some,
        poller.current_username is Some,
        asks(poller, answers),
        answers.sessions is Ok,
    ensures
        cycle(poller, answers).calls.len() == 1,
        cycle(poller, answers).calls[0] matches Step::FetchSessions(wait) && wait.access_token
            == poller.cached_tokens->0.access_token,
        cycle(poller, answers).after.cached_tokens == poller.cached_tokens,
        cycle(poller, answers).after.current_username == poller.current_username,
{
    reveal_with_fuel(cycle_from, 6);
}

/// Signing in or out takes effect in the next cycle: the stored tokens are
/// read before anything is asked of the server, and they are what it is asked
/// with.
pub proof fn law_touched_tokens_take_effect_at_once(poller: Poller, answers: Answers)
    requires
        answers.auth_dirty,
        answers.handed is None,
        answers.config matches Some(config) && !config.paused && config.server_url is Some,
    ensures
        cycle(poller, answers).calls[0] is LoadTokens,
        answers.stored is Some && !turned_down(poller.rejected, answers.stored->0) ==> (
        cycle(poller, answers).calls[1] matches Step::FetchSessions(wait) && wait.access_token
            == answers.stored->0.access_token),
        answers.stored is None ==> {
            &&& cycle(poller, answers).calls.len() == 1
            &&& cycle(poller, answers).shown is Cleared
            &&& cycle(poller, answers).status == Some("Signed out"@)
            &&& cycle(poller, answers).after.cached_tokens is None
        },
{
    reveal_with_fuel(cycle_from, 6);
}

/// A sign-in that no store could hold works for this run: the server is asked
/// with the tokens that were handed on, and as long as it does not turn the
/// access token down, they are kept and the token store is left alone.
pub proof fn law_unsaved_sign_in_works_for_this_run(poller: Poller, answers: Answers)
    requires
        answers.auth_dirty,
        answers.handed is Some,
        answers.config matches Some(config) && !config.paused && config.server_url is Some,
    ensures
        cycle(poller, answers).calls[0] matches Step::FetchSessions(wait) && wait.access_token
            == answers.handed->0.access_token,
        answers.sessions != Err::<Vec<Session>, ApiError>(ApiError::Unauthorized) ==> {
            &&& cycle(poller, answers).after.cached_tokens == answers.handed
            &&& forall|i: int|
                0 <= i < cycle(poller, answers).calls.len() ==> {
                    &&& !(#[trigger] cycle(poller, answers).calls[i] is LoadTokens)
                    &&& !(cycle(poller, answers).calls[i] is ReloadTokens)
                    &&& !(cycle(poller, answers).calls[i] is ClearTokens)
                }
        },
{
    reveal_with_fuel(cycle_from, 6);
}

/// A cycle is followed by a full interval, a backoff, or, after tokens were
/// refreshed, a prompt retry.
pub proof fn law_delay_is_one_of_three(poller: Poller, answers: Answers)
    ensures
        cycle(poller, answers).delay_seconds == POLL_INTERVAL_SECONDS || cycle(
            poller,
            answers,
        ).delay_seconds == ERROR_BACKOFF_SECONDS || cycle(poller, answers).delay_seconds
            == RETRY_SECONDS,
        cycle(poller, answers).delay_seconds == RETRY_SECONDS ==> cycle(
            poller,
            answers,
        ).calls.last() is StoreTokens,
{
    reveal_with_fuel(cycle_from, 6);
}

/// An access token that has expired costs one short retry: the refreshed pair
/// is kept, and with it the next cycle starts over with no failures.
pub proof fn law_expired_token_recovers_in_the_next_cycle(
    poller: Poller,
    answers: Answers,
    next: Answers,
)
    requires
        poller.consecutive_failures == 0,
        asks(poller, answers),
        answers.sessions == Err::<Vec<Session>, ApiError>(ApiError::Unauthorized),
        answers.reloaded matches Some(tokens) && tokens.refresh_token is Some
            && !turned_down(poller.rejected, tokens),
        answers.refreshed is Ok,
        !next.auth_dirty,
        next.config matches Some(config) && !config.paused && config.server_url is Some,
        next.sessions is Ok,
        username_for(cycle(poller, answers).after, next) is Some,
    ensures
        cycle(poller, answers).delay_seconds == RETRY_SECONDS,
        stays_known(poller, answers) ==> cycle(poller, answers).shown is Kept,
        cycle(poller, answers).after.cached_tokens == Some(answers.refreshed->Ok_0),
        cycle(cycle(poller, answers).after, next).calls[0] matches Step::FetchSessions(wait)
            && wait.access_token == answers.refreshed->Ok_0.access_token,
        cycle(cycle(poller, answers).after, next).after.consecutive_failures == 0,
{
    reveal_with_fuel(cycle_from, 6);
}

} // verus!
