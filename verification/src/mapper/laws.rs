//! What holds of every presence.

use crate::api::model::{Session, SessionView};
use crate::config::Config;
use crate::mapper;
use crate::mapper::render;
use crate::mapper::select;
use crate::mapper::types::PresenceState;
use crate::media;
use crate::text;
use vstd::prelude::*;

verus! {

/// Only the caller's own sessions are broadcast, only of media types that are
/// switched on, and nothing while presence is paused.
pub proof fn law_only_own_enabled_sessions_are_broadcast(
    sessions: Seq<Session>,
    config: Config,
    current_id: Option<Seq<char>>,
    username: Seq<char>,
)
    ensures
        mapper::broadcast_session(sessions, config, current_id, username) matches Some(session)
            ==> {
            &&& sessions.contains(session)
            &&& text::equal_ignoring_case(session@.username, username)
            &&& config.enables(session@.media_type)
            &&& !config.paused
        },
{
    if let Some(i) = select::selection(sessions, config, current_id, username) {
        assert(select::is_selected(sessions, config, current_id, username, i));
        assert(select::eligible_at(sessions, config, username, i));
    }
}

/// Unless presence is paused, something is broadcast exactly when some session
/// is the caller's own and of a media type that is switched on.
pub proof fn law_silent_only_without_an_eligible_session(
    sessions: Seq<Session>,
    config: Config,
    current_id: Option<Seq<char>>,
    username: Seq<char>,
)
    requires
        !config.paused,
    ensures
        mapper::broadcast_session(sessions, config, current_id, username) is None <==> forall|
            session: Session,
        | #[trigger]
            sessions.contains(session) ==> !select::eligible(session, config, username),
{
    select::lemma_selection_exists(sessions, config, current_id, username);
    if exists|i: int| #[trigger] select::eligible_at(sessions, config, username, i) {
        let i = choose|i: int| #[trigger] select::eligible_at(sessions, config, username, i);
        assert(sessions.contains(sessions[i]));
    } else {
        assert forall|session: Session| #[trigger]
            sessions.contains(session) implies !select::eligible(session, config, username) by {
            let i = choose|i: int| 0 <= i < sessions.len() && sessions[i] == session;
            assert(!select::eligible_at(sessions, config, username, i));
        }
    }
}

/// A paused session never holds the status while an eligible one plays.
pub proof fn law_playing_sessions_come_first(
    sessions: Seq<Session>,
    config: Config,
    current_id: Option<Seq<char>>,
    username: Seq<char>,
)
    requires
        select::something_plays(sessions, config, username),
        !config.paused,
    ensures
        mapper::broadcast_session(sessions, config, current_id, username) matches Some(session)
            && session@.playing(),
{
    select::lemma_selection_exists(sessions, config, current_id, username);
    let i = select::selection(sessions, config, current_id, username)->0;
    assert(select::is_selected(sessions, config, current_id, username, i));
    assert(select::eligible_at(sessions, config, username, i));
    let j = choose|j: int| #[trigger]
        select::eligible_at(sessions, config, username, j) && sessions[j]@.playing();
    assert(select::eligible_at(sessions, config, username, j));
}

/// May a session be shown: is it the user's own, and is its media type on?
pub open spec fn may_be_shown(session: Session, config: Config, username: Seq<char>) -> bool {
    config.enables(session.media_type@) && text::equal_ignoring_case(session.username@, username)
}

/// Is the item of a session playing, for all that is known?
pub open spec fn plays(session: Session) -> bool {
    session.play_is_playing == Some(true)
}

/// Does any session that may be shown play?
pub open spec fn any_plays(sessions: Seq<Session>, config: Config, username: Seq<char>) -> bool {
    exists|j: int|
        0 <= j < sessions.len() && may_be_shown(#[trigger] sessions[j], config, username) && plays(
            sessions[j],
        )
}

/// Is the session at `i` the first of those that may be shown with this id?
pub open spec fn first_named(
    sessions: Seq<Session>,
    config: Config,
    username: Seq<char>,
    id: Seq<char>,
    i: int,
) -> bool {
    &&& 0 <= i < sessions.len()
    &&& may_be_shown(sessions[i], config, username)
    &&& sessions[i].id@ == id
    &&& forall|j: int|
        0 <= j < i && may_be_shown(#[trigger] sessions[j], config, username) ==> sessions[j].id@
            != id
}

/// The broadcast stays on the current session while that is playing, or while
/// nothing is, whatever its media type and whatever else is in the list.
pub proof fn law_broadcast_stays_on_the_current_session(
    sessions: Seq<Session>,
    config: Config,
    id: Seq<char>,
    username: Seq<char>,
    i: int,
)
    requires
        !config.paused,
        first_named(sessions, config, username, id, i),
        plays(sessions[i]) || !any_plays(sessions, config, username),
    ensures
        mapper::broadcast_session(sessions, config, Some(id), username) == Some(sessions[i]),
{
    lemma_shown_is_eligible(sessions, config, username);
    assert(select::first_with_id(sessions, config, username, id, i));
    assert(select::sticks_to(sessions, config, Some(id), username, i));
    select::lemma_selection_is(sessions, config, Some(id), username, i);
}

/// Does the session at `i` come first: does it play if any does, has it the
/// smallest id among those that do as it does, and does it stand before its
/// equals?
pub open spec fn comes_first(
    sessions: Seq<Session>,
    config: Config,
    username: Seq<char>,
    i: int,
) -> bool {
    &&& 0 <= i < sessions.len()
    &&& may_be_shown(sessions[i], config, username)
    &&& any_plays(sessions, config, username) ==> plays(sessions[i])
    &&& forall|j: int|
        0 <= j < sessions.len() && may_be_shown(#[trigger] sessions[j], config, username) && plays(
            sessions[j],
        ) == plays(sessions[i]) ==> {
            &&& !text::precedes(sessions[j].id@, sessions[i].id@)
            &&& j < i ==> sessions[j].id@ != sessions[i].id@
        }
}

/// Where the broadcast has no session to stay on, or would stay on a paused one
/// while another plays, the session that comes first is broadcast.
pub proof fn law_otherwise_the_first_session_is_broadcast(
    sessions: Seq<Session>,
    config: Config,
    current_id: Option<Seq<char>>,
    username: Seq<char>,
    i: int,
)
    requires
        !config.paused,
        comes_first(sessions, config, username, i),
        current_id is Some ==> forall|j: int| #[trigger]
            first_named(sessions, config, username, current_id->0, j) ==> !plays(sessions[j])
                && any_plays(sessions, config, username),
    ensures
        mapper::broadcast_session(sessions, config, current_id, username) == Some(sessions[i]),
{
    lemma_shown_is_eligible(sessions, config, username);
    assert forall|k: int| !#[trigger]
        select::sticks_to(sessions, config, current_id, username, k) by {
        if select::sticks_to(sessions, config, current_id, username, k) {
            assert(select::first_with_id(sessions, config, username, current_id->0, k));
            assert forall|j: int|
                0 <= j < k && may_be_shown(#[trigger] sessions[j], config, username) implies
                sessions[j].id@ != current_id->0 by {
                assert(select::eligible_at(sessions, config, username, j));
            }
            assert(first_named(sessions, config, username, current_id->0, k));
        }
    }
    assert forall|j: int|
        #![trigger select::eligible_at(sessions, config, username, j)]
        select::eligible_at(sessions, config, username, j) implies !select::ranks_before(
        sessions[j],
        sessions[i],
    ) && (j < i ==> select::ranks_before(sessions[i], sessions[j])) by {
        assert(may_be_shown(sessions[j], config, username));
        text::lemma_precedes_total(sessions[i].id@, sessions[j].id@);
    }
    assert(select::eligible_at(sessions, config, username, i));
    assert(select::leads(sessions, config, username, i));
    select::lemma_selection_is(sessions, config, current_id, username, i);
}

/// What may be shown is what the selection goes by.
proof fn lemma_shown_is_eligible(sessions: Seq<Session>, config: Config, username: Seq<char>)
    ensures
        forall|j: int| #[trigger]
            select::eligible_at(sessions, config, username, j) <==> 0 <= j < sessions.len()
                && may_be_shown(sessions[j], config, username),
        select::something_plays(sessions, config, username) == any_plays(
            sessions,
            config,
            username,
        ),
{
    if any_plays(sessions, config, username) {
        let j = choose|j: int|
            0 <= j < sessions.len() && may_be_shown(#[trigger] sessions[j], config, username)
                && plays(sessions[j]);
        assert(select::eligible_at(sessions, config, username, j) && sessions[j]@.playing());
    }
}

/// Whatever is broadcast is in the list and may be shown; nothing is while
/// presence is paused, and something is otherwise if anything may be shown.
pub proof fn law_broadcast_may_be_shown(
    sessions: Seq<Session>,
    config: Config,
    current_id: Option<Seq<char>>,
    username: Seq<char>,
)
    ensures
        mapper::broadcast_session(sessions, config, current_id, username) matches Some(session)
            ==> !config.paused && may_be_shown(session, config, username) && sessions.contains(
            session,
        ),
        !config.paused && (exists|j: int|
            0 <= j < sessions.len() && may_be_shown(#[trigger] sessions[j], config, username))
            ==> mapper::broadcast_session(sessions, config, current_id, username) is Some,
{
    law_only_own_enabled_sessions_are_broadcast(sessions, config, current_id, username);
    select::lemma_selection_exists(sessions, config, current_id, username);
    if exists|j: int|
        0 <= j < sessions.len() && may_be_shown(#[trigger] sessions[j], config, username) {
        let j = choose|j: int|
            0 <= j < sessions.len() && may_be_shown(#[trigger] sessions[j], config, username);
        assert(select::eligible_at(sessions, config, username, j));
    }
}

/// Mapping gives the id and the presence of the session that is broadcast, and
/// nothing where none is.
pub proof fn law_mapping_gives_the_broadcast_session(
    sessions: Seq<Session>,
    config: Config,
    now_unix: i64,
    current_id: Option<Seq<char>>,
    username: Seq<char>,
)
    ensures
        mapper::broadcast_session(sessions, config, current_id, username) is None
            ==> mapper::mapped(sessions, config, now_unix, current_id, username) is None,
        mapper::broadcast_session(sessions, config, current_id, username) matches Some(session)
            ==> (mapper::mapped(sessions, config, now_unix, current_id, username) matches Some(
            (id, presence),
        ) && id == session.id@ && presence == render::presence_of(session@, now_unix)),
        mapper::mappable(sessions, config, now_unix, current_id, username) <==> (
        mapper::broadcast_session(sessions, config, current_id, username) matches Some(session)
            ==> plays(session) ==> render::bounds_fit(session@, now_unix)),
{
}

/// A mapped session is its id and its presence, and none is none.
pub proof fn law_mapped_sessions_are_told_in_full(id: String, presence: PresenceState)
    ensures
        mapper::mapped_view(None) is None,
        mapper::mapped_view(Some((id, presence))) == Some((id@, presence@)),
{
}

/// The broadcast stays on its session: fed back as the current id, the id that
/// was picked is picked again from the same list.
pub proof fn law_selection_is_stable(
    sessions: Seq<Session>,
    config: Config,
    current_id: Option<Seq<char>>,
    username: Seq<char>,
)
    requires
        mapper::broadcast_session(sessions, config, current_id, username) is Some,
    ensures
        ({
            let id = mapper::broadcast_session(sessions, config, current_id, username)->0@.id;
            &&& mapper::broadcast_session(sessions, config, Some(id), username) is Some
            &&& mapper::broadcast_session(sessions, config, Some(id), username)->0@.id == id
        }),
{
    let i = select::selection(sessions, config, current_id, username)->0;
    assert(select::is_selected(sessions, config, current_id, username, i));
    assert(select::eligible_at(sessions, config, username, i));
    let id = sessions[i]@.id;
    select::lemma_selection_exists(sessions, config, Some(id), username);
    let j = select::selection(sessions, config, Some(id), username)->0;
    assert(select::is_selected(sessions, config, Some(id), username, j));
    if !exists|k: int| #[trigger] select::sticks_to(sessions, config, Some(id), username, k) {
        assert(select::leads(sessions, config, username, j));
        assert(select::eligible_at(sessions, config, username, j));
        select::lemma_first_with_id_exists(sessions, config, username, id, i);
        let k = choose|k: int| #[trigger]
            select::first_with_id(sessions, config, username, id, k);
        assert(!select::sticks_to(sessions, config, Some(id), username, k));
        assert(select::eligible_at(sessions, config, username, k));
        if exists|m: int| #[trigger]
            select::sticks_to(sessions, config, current_id, username, m) {
            assert(select::sticks_to(sessions, config, current_id, username, i));
            assert(current_id->0 == id);
            assert(i == k);
        } else {
            assert(select::leads(sessions, config, username, i));
        }
    }
}

/// The id that mapping returns, fed back with an unchanged list at any later
/// time, is returned again.
pub proof fn law_fed_back_id_is_kept(
    sessions: Seq<Session>,
    config: Config,
    now_unix: i64,
    later: i64,
    current_id: Option<Seq<char>>,
    username: Seq<char>,
)
    requires
        mapper::mapped(sessions, config, now_unix, current_id, username) is Some,
    ensures
        ({
            let (id, _) = mapper::mapped(sessions, config, now_unix, current_id, username)->0;
            mapper::mapped(sessions, config, later, Some(id), username) matches Some((again, _))
                && again == id
        }),
{
    law_selection_is_stable(sessions, config, current_id, username);
}

/// Does a session belong to the user?
pub open spec fn is_own(session: Session, username: Seq<char>) -> bool {
    text::equal_ignoring_case(session@.username, username)
}

/// The user's own sessions, in the order of the list.
pub open spec fn own_sessions(sessions: Seq<Session>, username: Seq<char>) -> Seq<Session> {
    sessions.filter(|session: Session| is_own(session, username))
}

/// Other users' sessions never influence what is broadcast: without them, the
/// list gives the same id and the same presence.
pub proof fn law_other_users_sessions_have_no_influence(
    sessions: Seq<Session>,
    config: Config,
    now_unix: i64,
    current_id: Option<Seq<char>>,
    username: Seq<char>,
)
    ensures
        mapper::broadcast_session(sessions, config, current_id, username)
            == mapper::broadcast_session(
            own_sessions(sessions, username),
            config,
            current_id,
            username,
        ),
        mapper::mapped(sessions, config, now_unix, current_id, username) == mapper::mapped(
            own_sessions(sessions, username),
            config,
            now_unix,
            current_id,
            username,
        ),
{
    let own = own_sessions(sessions, username);
    let at = lemma_own_sessions_keep_their_order(sessions, config, username);
    select::lemma_selection_exists(sessions, config, current_id, username);
    select::lemma_selection_exists(own, config, current_id, username);
    assert forall|k: int| #[trigger] select::eligible_at(own, config, username, k) implies (
    select::eligible_at(sessions, config, username, at[k])) by {}
    if let Some(i) = select::selection(sessions, config, current_id, username) {
        assert(select::is_selected(sessions, config, current_id, username, i));
        assert(select::eligible_at(sessions, config, username, i));
        let k = choose|k: int| 0 <= k < at.len() && #[trigger] at[k] == i;
        assert(select::eligible_at(own, config, username, k));
        lemma_selected_among_own(sessions, own, at, config, current_id, username, k);
        select::lemma_selection_is(own, config, current_id, username, k);
    }
}

/// Does `own` hold the sessions at the positions `at`, in their order, and
/// every one that may be shown?
spec fn holds_those_at(
    sessions: Seq<Session>,
    own: Seq<Session>,
    at: Seq<int>,
    config: Config,
    username: Seq<char>,
) -> bool {
    &&& at.len() == own.len()
    &&& forall|k: int|
        0 <= k < at.len() ==> 0 <= #[trigger] at[k] < sessions.len() && own[k] == sessions[at[k]]
    &&& forall|a: int, b: int| 0 <= a < b < at.len() ==> #[trigger] at[a] < #[trigger] at[b]
    &&& forall|i: int| #[trigger]
        select::eligible_at(sessions, config, username, i) ==> exists|k: int|
            0 <= k < at.len() && #[trigger] at[k] == i
}

/// Where the user's own sessions stand in the list.
proof fn lemma_own_sessions_keep_their_order(
    sessions: Seq<Session>,
    config: Config,
    username: Seq<char>,
) -> (at: Seq<int>)
    ensures
        holds_those_at(sessions, own_sessions(sessions, username), at, config, username),
    decreases sessions.len(),
{
    reveal(Seq::filter);
    if sessions.len() == 0 {
        Seq::empty()
    } else {
        let n = sessions.len() - 1;
        let shorter = sessions.drop_last();
        let before = lemma_own_sessions_keep_their_order(shorter, config, username);
        let own_before = own_sessions(shorter, username);
        let at = if is_own(sessions[n], username) {
            before.push(n)
        } else {
            before
        };
        let own = own_sessions(sessions, username);
        assert(own == if is_own(sessions[n], username) {
            own_before.push(sessions[n])
        } else {
            own_before
        });
        assert forall|i: int| #[trigger]
            select::eligible_at(sessions, config, username, i) implies exists|k: int|
            0 <= k < at.len() && #[trigger] at[k] == i by {
            if i < n {
                assert(select::eligible_at(shorter, config, username, i));
                let k = choose|k: int| 0 <= k < before.len() && #[trigger] before[k] == i;
                assert(at[k] == i);
            } else {
                assert(at[before.len() as int] == i);
            }
        }
        assert forall|k: int| 0 <= k < at.len() implies 0 <= #[trigger] at[k] < sessions.len()
            && own[k] == sessions[at[k]] by {
            if k < before.len() {
                assert(before[k] < shorter.len());
                assert(shorter[before[k]] == sessions[before[k]]);
            }
        }
        at
    }
}

/// A session that is selected from the list is selected among those that the
/// list was narrowed to.
proof fn lemma_selected_among_own(
    sessions: Seq<Session>,
    own: Seq<Session>,
    at: Seq<int>,
    config: Config,
    current_id: Option<Seq<char>>,
    username: Seq<char>,
    k: int,
)
    requires
        holds_those_at(sessions, own, at, config, username),
        0 <= k < at.len(),
        select::is_selected(sessions, config, current_id, username, at[k]),
    ensures
        select::is_selected(own, config, current_id, username, k),
{
    assert forall|j: int| #[trigger]
        select::eligible_at(own, config, username, j) implies select::eligible_at(
        sessions,
        config,
        username,
        at[j],
    ) by {}
    assert(select::something_plays(sessions, config, username) == select::something_plays(
        own,
        config,
        username,
    )) by {
        if select::something_plays(sessions, config, username) {
            let i = choose|i: int| #[trigger]
                select::eligible_at(sessions, config, username, i) && sessions[i]@.playing();
            let j = choose|j: int| 0 <= j < at.len() && #[trigger] at[j] == i;
            assert(select::eligible_at(own, config, username, j) && own[j]@.playing());
        }
        if select::something_plays(own, config, username) {
            let j = choose|j: int| #[trigger]
                select::eligible_at(own, config, username, j) && own[j]@.playing();
            assert(select::eligible_at(sessions, config, username, at[j])
                && sessions[at[j]]@.playing());
        }
    }
    if exists|i: int| #[trigger] select::sticks_to(sessions, config, current_id, username, i) {
        assert(select::sticks_to(sessions, config, current_id, username, at[k]));
        assert(select::first_with_id(own, config, username, current_id->0, k));
        assert(select::sticks_to(own, config, current_id, username, k));
    } else {
        assert forall|j: int| !select::sticks_to(own, config, current_id, username, j) by {
            if select::sticks_to(own, config, current_id, username, j) {
                assert(select::eligible_at(own, config, username, j));
                assert forall|i: int|
                    #![trigger select::eligible_at(sessions, config, username, i)]
                    i < at[j] && select::eligible_at(sessions, config, username, i) implies
                    sessions[i]@.id != current_id->0 by {
                    let m = choose|m: int| 0 <= m < at.len() && #[trigger] at[m] == i;
                    if m >= j {
                        assert(m == j || at[j] < at[m]);
                    }
                    assert(select::eligible_at(own, config, username, m));
                }
                assert(select::first_with_id(sessions, config, username, current_id->0, at[j]));
                assert(select::sticks_to(sessions, config, current_id, username, at[j]));
            }
        }
        assert(select::leads(sessions, config, username, at[k]));
        assert(select::leads(own, config, username, k));
    }
}

/// Every session that may be shown has an id of its own.
pub open spec fn ids_are_distinct(
    sessions: Seq<Session>,
    config: Config,
    username: Seq<char>,
) -> bool {
    forall|i: int, j: int|
        #![trigger select::eligible_at(sessions, config, username, i), select::eligible_at(sessions, config, username, j)]
        select::eligible_at(sessions, config, username, i) && select::eligible_at(
            sessions,
            config,
            username,
            j,
        ) && i != j ==> sessions[i]@.id != sessions[j]@.id
}

/// The order in which the server lists the sessions makes no difference, as
/// long as no two of them share an id.
pub proof fn law_order_of_the_list_makes_no_difference(
    sessions: Seq<Session>,
    reordered: Seq<Session>,
    config: Config,
    current_id: Option<Seq<char>>,
    username: Seq<char>,
)
    requires
        forall|session: Session|
            sessions.contains(session) <==> #[trigger] reordered.contains(session),
        ids_are_distinct(sessions, config, username),
        ids_are_distinct(reordered, config, username),
    ensures
        mapper::broadcast_session(sessions, config, current_id, username)
            == mapper::broadcast_session(reordered, config, current_id, username),
        forall|now_unix: i64| #[trigger]
            mapper::mapped(sessions, config, now_unix, current_id, username) == mapper::mapped(
                reordered,
                config,
                now_unix,
                current_id,
                username,
            ),
{
    select::lemma_selection_exists(sessions, config, current_id, username);
    select::lemma_selection_exists(reordered, config, current_id, username);
    assert forall|i: int| #[trigger]
        select::eligible_at(sessions, config, username, i) implies exists|j: int| #[trigger]
        select::eligible_at(reordered, config, username, j) && reordered[j] == sessions[i] by {
        assert(sessions.contains(sessions[i]));
        assert(reordered.contains(sessions[i]));
        let j = choose|j: int| 0 <= j < reordered.len() && reordered[j] == sessions[i];
        assert(select::eligible_at(reordered, config, username, j));
    }
    assert forall|j: int| #[trigger]
        select::eligible_at(reordered, config, username, j) implies exists|i: int| #[trigger]
        select::eligible_at(sessions, config, username, i) && sessions[i] == reordered[j] by {
        assert(reordered.contains(reordered[j]));
        assert(sessions.contains(reordered[j]));
        let i = choose|i: int| 0 <= i < sessions.len() && sessions[i] == reordered[j];
        assert(select::eligible_at(sessions, config, username, i));
    }
    if let Some(i) = select::selection(sessions, config, current_id, username) {
        assert(select::is_selected(sessions, config, current_id, username, i));
        assert(select::eligible_at(sessions, config, username, i));
        let j = choose|j: int| #[trigger]
            select::eligible_at(reordered, config, username, j) && reordered[j] == sessions[i];
        lemma_selected_carries_over(sessions, reordered, config, current_id, username, i, j);
        select::lemma_selection_is(reordered, config, current_id, username, j);
    }
}

/// Every permutation of a list of sessions whose ids are pairwise distinct gives
/// the same id and the same presence.
pub proof fn law_permutations_give_the_same_presence(
    sessions: Seq<Session>,
    permuted: Seq<Session>,
    config: Config,
    now_unix: i64,
    current_id: Option<Seq<char>>,
    username: Seq<char>,
)
    requires
        sessions.to_multiset() == permuted.to_multiset(),
        forall|i: int, j: int|
            0 <= i < sessions.len() && 0 <= j < sessions.len() && i != j ==> (
            #[trigger] sessions[i])@.id != (#[trigger] sessions[j])@.id,
    ensures
        mapper::mapped(sessions, config, now_unix, current_id, username) == mapper::mapped(
            permuted,
            config,
            now_unix,
            current_id,
            username,
        ),
{
    broadcast use vstd::seq_lib::group_to_multiset_ensures;

    assert(sessions.no_duplicates());
    sessions.lemma_multiset_has_no_duplicates();
    assert(forall|session: Session|
        sessions.contains(session) <==> #[trigger] permuted.contains(session)) by {
        assert forall|session: Session| sessions.contains(session)
            <==> #[trigger] permuted.contains(session) by {
            assert(sessions.contains(session) <==> sessions.to_multiset().count(session) > 0);
            assert(permuted.contains(session) <==> permuted.to_multiset().count(session) > 0);
        }
    }
    permuted.lemma_multiset_has_no_duplicates_conv();
    assert forall|i: int, j: int|
        #![trigger select::eligible_at(permuted, config, username, i), select::eligible_at(permuted, config, username, j)]
        select::eligible_at(permuted, config, username, i) && select::eligible_at(
            permuted,
            config,
            username,
            j,
        ) && i != j implies permuted[i]@.id != permuted[j]@.id by {
        assert(permuted.contains(permuted[i]) && permuted.contains(permuted[j]));
        let a = choose|a: int| 0 <= a < sessions.len() && sessions[a] == permuted[i];
        let b = choose|b: int| 0 <= b < sessions.len() && sessions[b] == permuted[j];
        assert(sessions.contains(permuted[i]) && sessions.contains(permuted[j]));
        assert(sessions[a] != sessions[b]);
    }
    law_order_of_the_list_makes_no_difference(sessions, permuted, config, current_id, username);
}

/// A selected session is selected from the reordered list too.
proof fn lemma_selected_carries_over(
    sessions: Seq<Session>,
    reordered: Seq<Session>,
    config: Config,
    current_id: Option<Seq<char>>,
    username: Seq<char>,
    i: int,
    j: int,
)
    requires
        forall|a: int| #[trigger]
            select::eligible_at(sessions, config, username, a) ==> exists|b: int| #[trigger]
                select::eligible_at(reordered, config, username, b) && reordered[b] == sessions[a],
        forall|b: int| #[trigger]
            select::eligible_at(reordered, config, username, b) ==> exists|a: int| #[trigger]
                select::eligible_at(sessions, config, username, a) && sessions[a] == reordered[b],
        ids_are_distinct(sessions, config, username),
        ids_are_distinct(reordered, config, username),
        select::is_selected(sessions, config, current_id, username, i),
        select::eligible_at(sessions, config, username, i),
        select::eligible_at(reordered, config, username, j),
        reordered[j] == sessions[i],
    ensures
        select::is_selected(reordered, config, current_id, username, j),
{
    assert(select::something_plays(sessions, config, username) == select::something_plays(
        reordered,
        config,
        username,
    )) by {
        if select::something_plays(sessions, config, username) {
            let a = choose|a: int| #[trigger]
                select::eligible_at(sessions, config, username, a) && sessions[a]@.playing();
            let b = choose|b: int| #[trigger]
                select::eligible_at(reordered, config, username, b) && reordered[b] == sessions[a];
            assert(select::eligible_at(reordered, config, username, b)
                && reordered[b]@.playing());
        }
        if select::something_plays(reordered, config, username) {
            let b = choose|b: int| #[trigger]
                select::eligible_at(reordered, config, username, b) && reordered[b]@.playing();
            let a = choose|a: int| #[trigger]
                select::eligible_at(sessions, config, username, a) && sessions[a] == reordered[b];
            assert(select::eligible_at(sessions, config, username, a) && sessions[a]@.playing());
        }
    }
    if select::sticks_to(sessions, config, current_id, username, i) {
        assert(select::first_with_id(reordered, config, username, current_id->0, j));
        assert(select::sticks_to(reordered, config, current_id, username, j));
    } else {
        assert forall|b: int| !select::sticks_to(reordered, config, current_id, username, b) by {
            if select::sticks_to(reordered, config, current_id, username, b) {
                assert(select::eligible_at(reordered, config, username, b));
                let a = choose|a: int| #[trigger]
                    select::eligible_at(sessions, config, username, a) && sessions[a]
                        == reordered[b];
                assert(select::first_with_id(sessions, config, username, current_id->0, a));
                assert(select::sticks_to(sessions, config, current_id, username, a));
            }
        }
        assert(select::leads(sessions, config, username, i));
        assert forall|b: int|
            #![trigger select::eligible_at(reordered, config, username, b)]
            select::eligible_at(reordered, config, username, b) implies !select::ranks_before(
            reordered[b],
            reordered[j],
        ) by {
            let a = choose|a: int| #[trigger]
                select::eligible_at(sessions, config, username, a) && sessions[a] == reordered[b];
            assert(select::eligible_at(sessions, config, username, a));
        }
        assert forall|b: int|
            #![trigger select::eligible_at(reordered, config, username, b)]
            b < j && select::eligible_at(
                reordered,
                config,
                username,
                b,
            ) implies select::ranks_before(reordered[j], reordered[b]) by {
            text::lemma_precedes_total(reordered[j]@.id, reordered[b]@.id);
            assert(!select::ranks_before(reordered[b], reordered[j]));
        }
    }
}

/// Whatever the server sends, a clamped line has at most one character more
/// than the limit, and none that reorders or hides text.
pub proof fn law_clamped_text_is_short_and_displayable(line: Seq<char>)
    ensures
        render::clamped(line).len() <= render::MAX_CHARACTERS + 1,
        forall|i: int|
            0 <= i < render::clamped(line).len() ==> render::is_displayable(
                #[trigger] render::clamped(line)[i],
            ),
{
    lemma_cleaned_is_displayable(line);
}

/// Clamping a second time changes nothing.
pub proof fn law_clamping_twice_changes_nothing(line: Seq<char>)
    ensures
        render::clamped(render::clamped(line)) == render::clamped(line),
{
    let once = render::clamped(line);
    law_clamped_text_is_short_and_displayable(line);
    lemma_displayable_is_kept(once);
    if once.len() > render::MAX_CHARACTERS {
        let n = render::MAX_CHARACTERS as int;
        assert(once.take(n) =~= render::cleaned(line).take(n));
    }
}

/// Text that needs no cleaning and fits the limit is shown as it is.
pub proof fn law_short_clean_text_is_untouched(line: Seq<char>)
    requires
        line.len() <= render::MAX_CHARACTERS,
        forall|i: int| 0 <= i < line.len() ==> render::is_displayable(#[trigger] line[i]),
    ensures
        render::clamped(line) == line,
{
    lemma_displayable_is_kept(line);
}

/// Every character of a cleaned text is displayable.
proof fn lemma_cleaned_is_displayable(line: Seq<char>)
    ensures
        forall|i: int|
            0 <= i < render::cleaned(line).len() ==> render::is_displayable(
                #[trigger] render::cleaned(line)[i],
            ),
    decreases line.len(),
{
    reveal(Seq::filter);
    if line.len() > 0 {
        lemma_cleaned_is_displayable(line.drop_last());
    }
}

/// Cleaning drops nothing from a displayable text.
proof fn lemma_displayable_is_kept(line: Seq<char>)
    requires
        forall|i: int| 0 <= i < line.len() ==> render::is_displayable(#[trigger] line[i]),
    ensures
        render::cleaned(line) == line,
    decreases line.len(),
{
    reveal(Seq::filter);
    if line.len() > 0 {
        assert forall|i: int| 0 <= i < line.drop_last().len() implies render::is_displayable(
            #[trigger] line.drop_last()[i],
        ) by {
            assert(line.drop_last()[i] == line[i]);
        }
        lemma_displayable_is_kept(line.drop_last());
        assert(line.drop_last().push(line.last()) =~= line);
    } else {
        assert(render::cleaned(line) =~= line);
    }
}

/// The lines of a presence respect the length that Discord accepts, playing or
/// paused, however long the server's texts are.
pub proof fn law_lines_respect_the_length_limit(session: SessionView, now_unix: i64)
    ensures
        ({
            let shown = render::presence_of(session, now_unix);
            &&& shown.details.len() <= render::DISCORD_CHARACTERS
            &&& shown.large_text is Some && shown.large_text->0.len() <= render::DISCORD_CHARACTERS
            &&& shown.state is Some ==> shown.state->0.len() <= render::DISCORD_CHARACTERS
        }),
{
    reveal_strlit(" · ");
    reveal_strlit("Paused");
}

/// A paused session says so at the end of its second line, however long the
/// line is, and set off from what else the line says; it shows no moving bar.
/// A playing one always has a bar or counter.
pub proof fn law_paused_sessions_say_so(session: SessionView, now_unix: i64)
    ensures
        !session.playing() ==> render::presence_of(session, now_unix).timestamps is None,
        !session.playing() && render::description(session).state is None ==> render::presence_of(
            session,
            now_unix,
        ).state == Some("Paused"@),
        !session.playing() && render::description(session).state is Some ==> (render::presence_of(
            session,
            now_unix,
        ).state matches Some(line) && (render::SEP@ + "Paused"@).is_suffix_of(line)),
        session.playing() ==> render::presence_of(session, now_unix).timestamps is Some,
{
    if !session.playing() && render::description(session).state is Some {
        let marker = render::SEP@ + "Paused"@;
        let line = render::presence_of(session, now_unix).state->0;
        assert(marker =~= line.subrange(line.len() - marker.len(), line.len() as int));
    }
}

/// An open-ended stream never has an end, whatever duration it carries.
pub proof fn law_live_streams_have_no_end(session: SessionView, now_unix: i64)
    requires
        session.media_type == "tvchannel"@ || session.media_type == "radio"@,
    ensures
        render::bounds_of(session, now_unix).end is None,
        render::presence_of(session, now_unix).timestamps matches Some(bounds) ==> bounds.end
            is None,
{
    lemma_streams_are_open_ended();
}

/// The media types of streams are no others' spellings.
proof fn lemma_streams_are_open_ended()
    ensures
        media::class_of("tvchannel"@) is LiveTv,
        media::class_of("radio"@) is Radio,
{
    reveal_strlit("movie");
    reveal_strlit("series");
    reveal_strlit("tv");
    reveal_strlit("episode");
    reveal_strlit("season");
    reveal_strlit("music");
    reveal_strlit("track");
    reveal_strlit("audio");
    reveal_strlit("audiobook");
    reveal_strlit("tvchannel");
    reveal_strlit("radio");
    assert("radio"@[0] == 'r' && "tvchannel"@[0] == 't');
    assert("movie"@[0] == 'm' && "music"@[0] == 'm');
    assert("track"@[0] == 't' && "audio"@[0] == 'a' && "audiobook"@[0] == 'a');
    assert("tvchannel"@.len() == 9 && "tv"@.len() == 2 && "track"@.len() == 5);
    assert("series"@[0] == 's' && "season"@[0] == 's' && "episode"@[0] == 'e');
}

/// The progress bar lies where it should: it begins no later than now, exactly
/// as long ago as playback has lasted, and does not end before it begins.
pub proof fn law_bar_is_anchored_to_the_position(session: SessionView, now_unix: i64)
    requires
        render::bounds_fit(session, now_unix),
        session.play_current_time matches Some(reading) ==> reading.valid(),
        session.play_item_duration matches Some(reading) ==> reading.valid(),
        session.duration matches Some(reading) ==> reading.valid(),
    ensures
        ({
            let bounds = render::bounds_of(session, now_unix);
            &&& bounds.start <= now_unix
            &&& now_unix - bounds.start == render::position_of(session)
            &&& bounds.end matches Some(end) ==> bounds.start <= end
            &&& bounds.end is Some <==> render::length_of(session) is Some
        }),
{
}

/// The image is either a safe `https` address or the bundled logo.
pub proof fn law_image_is_safe_or_bundled(session: SessionView, now_unix: i64)
    ensures
        render::presence_of(session, now_unix).large_image matches Some(image) && (
        render::is_safe_artwork(image) || image == render::FALLBACK_ASSET_KEY@),
{
}

} // verus!
