//! What to show on the user's profile.

use crate::text;
use crate::text::{same_option, same_text};
use vstd::prelude::*;

verus! {

/// Which Discord activity verb to display.
///
/// Only the two verbs that are used are modelled.
#[derive(Debug, Clone, Copy, PartialEq, Eq, Structural)]
pub enum PresenceKind {
    Watching,
    Listening,
}

/// Unix-second bounds driving Discord's progress bar.
///
/// Discord animates between these client-side, so a 15-second poll still shows
/// a smooth, accurate bar. `end` is absent for open-ended streams (Live TV,
/// radio), which renders as an elapsed counter with no bar.
#[derive(Debug, Clone, Copy, PartialEq, Eq)]
pub struct PresenceTimestamps {
    pub start: i64,
    pub end: Option<i64>,
}

/// What to show on the user's profile, fully owned, so that it can be kept as
/// the last thing that was sent.
#[derive(Debug, PartialEq, Eq)]
pub struct PresenceState {
    pub kind: PresenceKind,
    /// Overrides the Discord application's default name in the header line.
    /// Discord always renders `<Verb> <name>`, so this is chosen per media
    /// type.
    pub name: String,
    /// Top line.
    pub details: String,
    /// Second line. `None` when there is nothing meaningful to say.
    pub state: Option<String>,
    /// Public image URL, or a Discord asset key for the bundled fallback.
    pub large_image: Option<String>,
    /// Hover text for the image.
    pub large_text: Option<String>,
    /// Absent while paused: a moving bar on paused content is wrong.
    pub timestamps: Option<PresenceTimestamps>,
}

/// A presence with its texts as sequences of characters.
pub struct PresenceView {
    pub kind: PresenceKind,
    pub name: Seq<char>,
    pub details: Seq<char>,
    pub state: Option<Seq<char>>,
    pub large_image: Option<Seq<char>>,
    pub large_text: Option<Seq<char>>,
    pub timestamps: Option<PresenceTimestamps>,
}

impl View for PresenceState {
    type V = PresenceView;

    open spec fn view(&self) -> PresenceView {
        PresenceView {
            kind: self.kind,
            name: self.name@,
            details: self.details@,
            state: text::option_text(self.state),
            large_image: text::option_text(self.large_image),
            large_text: text::option_text(self.large_text),
            timestamps: self.timestamps,
        }
    }
}

impl Clone for PresenceState {
    fn clone(&self) -> (copy: Self)
        ensures
            copy == *self,
    {
        PresenceState {
            kind: self.kind,
            name: self.name.clone(),
            details: self.details.clone(),
            state: self.state.clone(),
            large_image: self.large_image.clone(),
            large_text: self.large_text.clone(),
            timestamps: self.timestamps,
        }
    }
}

/// Do the two bounds of a progress bar agree with the other two?
fn same_timestamps(a: &Option<PresenceTimestamps>, b: &Option<PresenceTimestamps>) -> (same: bool)
    ensures
        same == (*a == *b),
{
    match (a, b) {
        (Some(x), Some(y)) => {
            let same_end = match (x.end, y.end) {
                (Some(m), Some(n)) => m == n,
                (None, None) => true,
                _ => false,
            };
            x.start == y.start && same_end
        },
        (None, None) => true,
        _ => false,
    }
}

impl PresenceState {
    /// Would the two look the same on a profile?
    pub fn same_as(&self, other: &PresenceState) -> (same: bool)
        ensures
            same == (self@ == other@),
    {
        self.kind == other.kind && same_text(self.name.as_str(), other.name.as_str()) && same_text(
            self.details.as_str(),
            other.details.as_str(),
        ) && same_option(&self.state, &other.state) && same_option(
            &self.large_image,
            &other.large_image,
        ) && same_option(&self.large_text, &other.large_text) && same_timestamps(
            &self.timestamps,
            &other.timestamps,
        )
    }
}

} // verus!
