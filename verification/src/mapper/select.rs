//! Picking the one session to broadcast.
//!
//! 1. Stay on the session already being broadcast, if it is still eligible and
//!    still playing, or if nothing eligible is playing at all.
//! 2. Otherwise prefer a playing session over a paused one.
//! 3. Break remaining ties on the session id, lexicographically, and on the
//!    order of the list between two sessions of one id.

use crate::api::model::Session;
use crate::config::Config;
use crate::text;
use crate::text::{comes_before, same_ignoring_case, same_text};
use vstd::prelude::*;

verus! {

/// May this session be shown? Its media type must be switched on, and it must
/// belong to `username`; the server lists sessions of other users too.
pub open spec fn eligible(session: Session, config: Config, username: Seq<char>) -> bool {
    &&& config.enables(session.media_type@)
    &&& text::equal_ignoring_case(session.username@, username)
}

/// Does the session at `i` exist, and may it be shown?
pub open spec fn eligible_at(
    sessions: Seq<Session>,
    config: Config,
    username: Seq<char>,
    i: int,
) -> bool {
    0 <= i < sessions.len() && eligible(sessions[i], config, username)
}

/// Is any session that may be shown playing?
pub open spec fn something_plays(
    sessions: Seq<Session>,
    config: Config,
    username: Seq<char>,
) -> bool {
    exists|i: int| #[trigger]
        eligible_at(sessions, config, username, i) && sessions[i]@.playing()
}

/// Is `i` the first eligible session with the id `id`?
pub open spec fn first_with_id(
    sessions: Seq<Session>,
    config: Config,
    username: Seq<char>,
    id: Seq<char>,
    i: int,
) -> bool {
    &&& eligible_at(sessions, config, username, i)
    &&& sessions[i]@.id == id
    &&& forall|j: int|
        #![trigger eligible_at(sessions, config, username, j)]
        j < i && eligible_at(sessions, config, username, j) ==> sessions[j]@.id != id
}

/// Is `i` the session being broadcast, and does the broadcast stay on it?
pub open spec fn sticks_to(
    sessions: Seq<Session>,
    config: Config,
    current_id: Option<Seq<char>>,
    username: Seq<char>,
    i: int,
) -> bool {
    &&& current_id is Some
    &&& first_with_id(sessions, config, username, current_id->0, i)
    &&& sessions[i]@.playing() || !something_plays(sessions, config, username)
}

/// Playing comes before paused; after that, the smaller id comes first.
pub open spec fn ranks_before(a: Session, b: Session) -> bool {
    if a@.playing() != b@.playing() {
        a@.playing()
    } else {
        text::precedes(a@.id, b@.id)
    }
}

/// Is `i` the first of the best-ranked eligible sessions?
pub open spec fn leads(
    sessions: Seq<Session>,
    config: Config,
    username: Seq<char>,
    i: int,
) -> bool {
    &&& eligible_at(sessions, config, username, i)
    &&& forall|j: int|
        #![trigger eligible_at(sessions, config, username, j)]
        eligible_at(sessions, config, username, j) ==> !ranks_before(sessions[j], sessions[i])
    &&& forall|j: int|
        #![trigger eligible_at(sessions, config, username, j)]
        j < i && eligible_at(sessions, config, username, j) ==> ranks_before(
            sessions[i],
            sessions[j],
        )
}

/// Is the session at `i` the one to broadcast?
pub open spec fn is_selected(
    sessions: Seq<Session>,
    config: Config,
    current_id: Option<Seq<char>>,
    username: Seq<char>,
    i: int,
) -> bool {
    if exists|k: int| #[trigger] sticks_to(sessions, config, current_id, username, k) {
        sticks_to(sessions, config, current_id, username, i)
    } else {
        leads(sessions, config, username, i)
    }
}

/// The position of the session to broadcast, if there is one.
pub open spec fn selection(
    sessions: Seq<Session>,
    config: Config,
    current_id: Option<Seq<char>>,
    username: Seq<char>,
) -> Option<int> {
    if exists|i: int| #[trigger] is_selected(sessions, config, current_id, username, i) {
        Some(choose|i: int| #[trigger] is_selected(sessions, config, current_id, username, i))
    } else {
        None
    }
}

/// At most one session is selected.
pub proof fn lemma_selected_is_unique(
    sessions: Seq<Session>,
    config: Config,
    current_id: Option<Seq<char>>,
    username: Seq<char>,
    i: int,
    j: int,
)
    requires
        is_selected(sessions, config, current_id, username, i),
        is_selected(sessions, config, current_id, username, j),
    ensures
        i == j,
{
    assert(eligible_at(sessions, config, username, i));
    assert(eligible_at(sessions, config, username, j));
}

/// A position that is selected is the selection.
pub proof fn lemma_selection_is(
    sessions: Seq<Session>,
    config: Config,
    current_id: Option<Seq<char>>,
    username: Seq<char>,
    i: int,
)
    requires
        is_selected(sessions, config, current_id, username, i),
    ensures
        selection(sessions, config, current_id, username) == Some(i),
{
    let k = choose|k: int| #[trigger] is_selected(sessions, config, current_id, username, k);
    lemma_selected_is_unique(sessions, config, current_id, username, i, k);
}

/// The rank is transitive.
proof fn lemma_rank_transitive(a: Session, b: Session, c: Session)
    requires
        ranks_before(a, b),
        ranks_before(b, c),
    ensures
        ranks_before(a, c),
{
    if a@.playing() == b@.playing() && b@.playing() == c@.playing() {
        text::lemma_precedes_transitive(a@.id, b@.id, c@.id);
    }
}

/// What ranks before something that does not rank after a third thing.
proof fn lemma_rank_through(a: Session, b: Session, c: Session)
    requires
        ranks_before(a, b),
        !ranks_before(c, b),
    ensures
        ranks_before(a, c),
{
    if a@.playing() == c@.playing() && b@.playing() == c@.playing() {
        text::lemma_precedes_total(c@.id, b@.id);
        if b@.id != c@.id {
            text::lemma_precedes_transitive(a@.id, b@.id, c@.id);
        }
    }
}

/// Among sessions with one id, one is the first.
pub proof fn lemma_first_with_id_exists(
    sessions: Seq<Session>,
    config: Config,
    username: Seq<char>,
    id: Seq<char>,
    i: int,
)
    requires
        eligible_at(sessions, config, username, i),
        sessions[i]@.id == id,
    ensures
        exists|k: int| #[trigger] first_with_id(sessions, config, username, id, k),
    decreases i,
{
    if !first_with_id(sessions, config, username, id, i) {
        let j = choose|j: int|
            #![trigger eligible_at(sessions, config, username, j)]
            j < i && eligible_at(sessions, config, username, j) && sessions[j]@.id == id;
        lemma_first_with_id_exists(sessions, config, username, id, j);
    }
}

/// Among eligible sessions, one leads.
proof fn lemma_leader_exists(
    sessions: Seq<Session>,
    config: Config,
    username: Seq<char>,
    i: int,
)
    requires
        eligible_at(sessions, config, username, i),
    ensures
        exists|k: int| #[trigger] leads(sessions, config, username, k),
    decreases sessions.len(),
{
    let n = sessions.len() - 1;
    let shorter = sessions.drop_last();
    let last = sessions[n];
    text::lemma_precedes_irreflexive(last@.id);
    assert(forall|j: int|
        #![trigger eligible_at(sessions, config, username, j)]
        eligible_at(sessions, config, username, j) && j < n ==> eligible_at(
            shorter,
            config,
            username,
            j,
        ) && shorter[j] == sessions[j]);
    if exists|j: int| #[trigger] eligible_at(shorter, config, username, j) {
        let j = choose|j: int| #[trigger] eligible_at(shorter, config, username, j);
        lemma_leader_exists(shorter, config, username, j);
        let k = choose|k: int| #[trigger] leads(shorter, config, username, k);
        if eligible(last, config, username) && ranks_before(last, sessions[k]) {
            assert forall|j: int|
                #![trigger eligible_at(sessions, config, username, j)]
                eligible_at(sessions, config, username, j) && j < n implies ranks_before(
                last,
                sessions[j],
            ) && !ranks_before(sessions[j], last) by {
                lemma_rank_through(last, sessions[k], sessions[j]);
                if ranks_before(sessions[j], last) {
                    lemma_rank_transitive(last, sessions[j], last);
                }
            }
            assert(leads(sessions, config, username, n));
        } else {
            assert(leads(sessions, config, username, k));
        }
    } else {
        assert(leads(sessions, config, username, n));
    }
}

/// Something is selected exactly when some session is eligible.
pub proof fn lemma_selection_exists(
    sessions: Seq<Session>,
    config: Config,
    current_id: Option<Seq<char>>,
    username: Seq<char>,
)
    ensures
        selection(sessions, config, current_id, username) is Some <==> exists|i: int| #[trigger]
            eligible_at(sessions, config, username, i),
{
    if exists|i: int| #[trigger] eligible_at(sessions, config, username, i) {
        let i = choose|i: int| #[trigger] eligible_at(sessions, config, username, i);
        lemma_leader_exists(sessions, config, username, i);
        if exists|k: int| #[trigger] sticks_to(sessions, config, current_id, username, k) {
            let k = choose|k: int| #[trigger]
                sticks_to(sessions, config, current_id, username, k);
            assert(is_selected(sessions, config, current_id, username, k));
        } else {
            let k = choose|k: int| #[trigger] leads(sessions, config, username, k);
            assert(is_selected(sessions, config, current_id, username, k));
        }
    }
    if selection(sessions, config, current_id, username) is Some {
        let i = selection(sessions, config, current_id, username)->0;
        assert(is_selected(sessions, config, current_id, username, i));
        assert(eligible_at(sessions, config, username, i));
    }
}

/// Position of the first eligible session with the id `id`.
fn find_current(
    sessions: &[Session],
    config: &Config,
    id: &str,
    username: &str,
) -> (found: Option<usize>)
    ensures
        found matches Some(i) ==> first_with_id(sessions@, *config, username@, id@, i as int),
        found is None ==> forall|i: int|
            #![trigger eligible_at(sessions@, *config, username@, i)]
            eligible_at(sessions@, *config, username@, i) ==> sessions@[i]@.id != id@,
{
    let mut i: usize = 0;
    while i < sessions.len()
        invariant
            0 <= i <= sessions.len(),
            forall|j: int|
                #![trigger eligible_at(sessions@, *config, username@, j)]
                j < i && eligible_at(sessions@, *config, username@, j) ==> sessions@[j]@.id != id@,
        decreases sessions.len() - i,
    {
        let session = &sessions[i];
        if is_eligible(session, config, username) && same_text(session.id.as_str(), id) {
            return Some(i);
        }
        i += 1;
    }
    None
}

/// May this session be shown?
fn is_eligible(session: &Session, config: &Config, username: &str) -> (answer: bool)
    ensures
        answer == eligible(*session, *config, username@),
{
    config.is_type_enabled(session.media_type.as_str()) && same_ignoring_case(
        session.username.as_str(),
        username,
    )
}

/// Is any session that may be shown playing?
fn anything_plays(sessions: &[Session], config: &Config, username: &str) -> (answer: bool)
    ensures
        answer == something_plays(sessions@, *config, username@),
{
    let mut i: usize = 0;
    while i < sessions.len()
        invariant
            0 <= i <= sessions.len(),
            forall|j: int|
                #![trigger eligible_at(sessions@, *config, username@, j)]
                j < i && eligible_at(sessions@, *config, username@, j)
                    ==> !sessions@[j]@.playing(),
        decreases sessions.len() - i,
    {
        let session = &sessions[i];
        if is_eligible(session, config, username) && session.is_playing() {
            assert(eligible_at(sessions@, *config, username@, i as int));
            return true;
        }
        i += 1;
    }
    false
}

/// Does `a` rank before `b`?
fn outranks(a: &Session, b: &Session) -> (answer: bool)
    ensures
        answer == ranks_before(*a, *b),
{
    let playing = a.is_playing();
    if playing != b.is_playing() {
        playing
    } else {
        comes_before(a.id.as_str(), b.id.as_str())
    }
}

/// Position of the first of the best-ranked eligible sessions.
fn find_leader(sessions: &[Session], config: &Config, username: &str) -> (found: Option<usize>)
    ensures
        found matches Some(i) ==> leads(sessions@, *config, username@, i as int),
        found is None ==> forall|i: int| !#[trigger]
            eligible_at(sessions@, *config, username@, i),
{
    let mut best: Option<usize> = None;
    let mut i: usize = 0;
    while i < sessions.len()
        invariant
            0 <= i <= sessions.len(),
            best matches Some(b) ==> b < i && leads(
                sessions@.take(i as int),
                *config,
                username@,
                b as int,
            ),
            best is None ==> forall|j: int|
                #![trigger eligible_at(sessions@, *config, username@, j)]
                j < i ==> !eligible_at(sessions@, *config, username@, j),
        decreases sessions.len() - i,
    {
        let ghost seen = sessions@.take(i as int);
        let ghost wider = sessions@.take(i + 1);
        assert(forall|j: int|
            #![trigger eligible_at(wider, *config, username@, j)]
            eligible_at(wider, *config, username@, j) && j < i ==> eligible_at(
                seen,
                *config,
                username@,
                j,
            ) && seen[j] == wider[j]);
        if is_eligible(&sessions[i], config, username) {
            match best {
                None => {
                    assert(forall|j: int|
                        #![trigger eligible_at(wider, *config, username@, j)]
                        eligible_at(wider, *config, username@, j) ==> eligible_at(
                            sessions@,
                            *config,
                            username@,
                            j,
                        ));
                    proof {
                        text::lemma_precedes_irreflexive(sessions@[i as int]@.id);
                    }
                    best = Some(i);
                },
                Some(b) => {
                    if outranks(&sessions[i], &sessions[b]) {
                        proof {
                            assert forall|j: int|
                                #![trigger eligible_at(wider, *config, username@, j)]
                                eligible_at(wider, *config, username@, j) && j
                                    < i implies ranks_before(wider[i as int], wider[j]) by {
                                lemma_rank_through(wider[i as int], wider[b as int], wider[j]);
                            }
                            assert forall|j: int|
                                #![trigger eligible_at(wider, *config, username@, j)]
                                eligible_at(wider, *config, username@, j) implies !ranks_before(
                                wider[j],
                                wider[i as int],
                            ) by {
                                text::lemma_precedes_irreflexive(wider[i as int]@.id);
                                if ranks_before(wider[j], wider[i as int]) && j < i {
                                    lemma_rank_transitive(
                                        wider[i as int],
                                        wider[j],
                                        wider[i as int],
                                    );
                                }
                            }
                        }
                        best = Some(i);
                    }
                },
            }
        }
        i += 1;
    }
    assert(sessions@.take(i as int) =~= sessions@);
    best
}

/// Pick the one session to broadcast; gives its position in the list.
pub fn select(
    sessions: &[Session],
    config: &Config,
    current_id: Option<&str>,
    username: &str,
) -> (selected: Option<usize>)
    ensures
        selected matches Some(i) ==> selection(
            sessions@,
            *config,
            text::option_str(current_id),
            username@,
        ) == Some(i as int) && eligible_at(sessions@, *config, username@, i as int),
        selected is None ==> selection(
            sessions@,
            *config,
            text::option_str(current_id),
            username@,
        ) is None,
        selected is None <==> forall|i: int| !#[trigger]
            eligible_at(sessions@, *config, username@, i),
{
    let ghost current = text::option_str(current_id);
    if let Some(id) = current_id {
        if let Some(i) = find_current(sessions, config, id, username) {
            if sessions[i].is_playing() || !anything_plays(sessions, config, username) {
                proof {
                    assert(sticks_to(sessions@, *config, current, username@, i as int));
                    lemma_selection_is(sessions@, *config, current, username@, i as int);
                }
                return Some(i);
            }
            proof {
                assert forall|k: int| !sticks_to(sessions@, *config, current, username@, k) by {
                    if sticks_to(sessions@, *config, current, username@, k) {
                        assert(eligible_at(sessions@, *config, username@, k));
                        assert(eligible_at(sessions@, *config, username@, i as int));
                        assert(k == i);
                    }
                }
            }
        }
    }
    assert(forall|k: int| !#[trigger] sticks_to(sessions@, *config, current, username@, k));
    let leader = find_leader(sessions, config, username);
    proof {
        match leader {
            Some(i) => {
                assert(eligible_at(sessions@, *config, username@, i as int));
                lemma_selection_is(sessions@, *config, current, username@, i as int);
            },
            None => {
                assert forall|i: int| !is_selected(sessions@, *config, current, username@, i) by {
                    assert(!eligible_at(sessions@, *config, username@, i));
                }
            },
        }
    }
    leader
}

} // verus!
