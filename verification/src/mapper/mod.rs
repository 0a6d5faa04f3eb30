//! From the session list to the presence.

pub mod laws;
pub mod line_laws;
pub mod render;
pub mod select;
pub mod types;

use crate::api::model::Session;
use crate::config::Config;
use crate::text;
pub use render::FALLBACK_ASSET_KEY;
use render::{build_state, timestamps_fit};
use select::select;
pub use types::{PresenceKind, PresenceState, PresenceTimestamps, PresenceView};
use vstd::prelude::*;

verus! {

/// The session to broadcast, if there is one: none while paused.
pub open spec fn broadcast_session(
    sessions: Seq<Session>,
    config: Config,
    current_id: Option<Seq<char>>,
    username: Seq<char>,
) -> Option<Session> {
    if config.paused {
        None
    } else {
        match select::selection(sessions, config, current_id, username) {
            Some(i) => Some(sessions[i]),
            None => None,
        }
    }
}

/// The id of the session to broadcast and its presence, if there is one.
pub open spec fn mapped(
    sessions: Seq<Session>,
    config: Config,
    now_unix: i64,
    current_id: Option<Seq<char>>,
    username: Seq<char>,
) -> Option<(Seq<char>, PresenceView)> {
    match broadcast_session(sessions, config, current_id, username) {
        Some(session) => Some((session@.id, render::presence_of(session@, now_unix))),
        None => None,
    }
}

/// A mapped session with its texts as sequences of characters.
pub open spec fn mapped_view(mapped: Option<(String, PresenceState)>) -> Option<
    (Seq<char>, PresenceView),
> {
    match mapped {
        Some((id, presence)) => Some((id@, presence@)),
        None => None,
    }
}

/// Can the session to broadcast be rendered at this time?
pub open spec fn mappable(
    sessions: Seq<Session>,
    config: Config,
    now_unix: i64,
    current_id: Option<Seq<char>>,
    username: Seq<char>,
) -> bool {
    broadcast_session(sessions, config, current_id, username) matches Some(session)
        ==> render::renderable(session@, now_unix)
}

/// Can the session to broadcast be rendered at this time? It can unless the
/// server reports a position or a duration that leaves the clock's range.
pub fn can_map_presence(
    sessions: &[Session],
    config: &Config,
    now_unix: i64,
    current_id: Option<&str>,
    username: &str,
) -> (answer: bool)
    ensures
        answer == mappable(
            sessions@,
            *config,
            now_unix,
            text::option_str(current_id),
            username@,
        ),
{
    if config.paused {
        return true;
    }
    match select(sessions, config, current_id, username) {
        None => true,
        Some(i) => !sessions[i].is_playing() || timestamps_fit(&sessions[i], now_unix),
    }
}

/// Build the presence for the current session list.
///
/// `now_unix` is passed in rather than read from the clock.
///
/// `current_id` is the id of the session currently being broadcast, if any. It
/// makes selection sticky; see [`select::select`].
///
/// `username` is the authenticated caller's own username. The session list can
/// hold sessions belonging to other users, so this is what keeps another
/// person's activity off the caller's Discord profile. Compared
/// case-insensitively.
///
/// Returns the selected session's id alongside its presence so the caller can
/// feed it back as `current_id` the next time.
pub fn map_presence(
    sessions: &[Session],
    config: &Config,
    now_unix: i64,
    current_id: Option<&str>,
    username: &str,
) -> (mapped: Option<(String, PresenceState)>)
    requires
        mappable(sessions@, *config, now_unix, text::option_str(current_id), username@),
    ensures
        mapped_view(mapped) == self::mapped(
            sessions@,
            *config,
            now_unix,
            text::option_str(current_id),
            username@,
        ),
        mapped matches Some((id, presence)) ==> ({
            let session = broadcast_session(
                sessions@,
                *config,
                text::option_str(current_id),
                username@,
            )->0;
            id == session.id
        }),
{
    if config.paused {
        return None;
    }
    match select(sessions, config, current_id, username) {
        None => None,
        Some(i) => {
            let session = &sessions[i];
            Some((session.id.clone(), build_state(session, now_unix)))
        },
    }
}

/// The session to broadcast has a progress bar that leaves the clock's range.
#[derive(Debug, Clone, Copy, PartialEq, Eq)]
pub struct OutOfRange;

/// [`map_presence`], for readings of any size: where a bar would leave the
/// clock's range, it says so.
pub fn try_map_presence(
    sessions: &[Session],
    config: &Config,
    now_unix: i64,
    current_id: Option<&str>,
    username: &str,
) -> (outcome: Result<Option<(String, PresenceState)>, OutOfRange>)
    ensures
        outcome is Ok <==> mappable(
            sessions@,
            *config,
            now_unix,
            text::option_str(current_id),
            username@,
        ),
        outcome matches Ok(mapped) ==> mapped_view(mapped) == self::mapped(
            sessions@,
            *config,
            now_unix,
            text::option_str(current_id),
            username@,
        ),
        outcome matches Ok(Some((id, _))) ==> id == broadcast_session(
            sessions@,
            *config,
            text::option_str(current_id),
            username@,
        )->0.id,
{
    if can_map_presence(sessions, config, now_unix, current_id, username) {
        Ok(map_presence(sessions, config, now_unix, current_id, username))
    } else {
        Err(OutOfRange)
    }
}

} // verus!
