//! What the server says about active play sessions.

use crate::text;
use vstd::prelude::*;

verus! {

/// A reading in seconds.
///
/// The server reports fractions of a second; presence shows whole ones. What
/// is kept is the reading cut off after the decimal point, and whether it was
/// above zero, which a reading of half a second is and its whole part is not.
#[derive(Debug, Clone, Copy, PartialEq, Eq)]
pub struct Seconds {
    pub whole: i64,
    pub positive: bool,
}

impl Seconds {
    /// The whole part agrees with the sign.
    pub open spec fn valid(self) -> bool {
        if self.positive {
            self.whole >= 0
        } else {
            self.whole <= 0
        }
    }
}

/// One active play session.
///
/// Declares only the fields presence actually needs.
#[derive(Debug, Clone, PartialEq, Eq)]
pub struct Session {
    /// Internal compound session id: the identity used for sticky selection.
    pub id: String,
    pub media_item_id: String,
    pub title: String,
    /// Session media-type vocabulary: `movie`, `series`/`tv`, `episode`,
    /// `audiobook`, `track`, `music`, `tvchannel`, `radio`, and others.
    pub media_type: String,
    /// Owning user's login name. Used to leave out sessions that the server
    /// lists but that do not belong to the authenticated caller.
    pub username: String,
    pub year: Option<u32>,
    // Episode and audiobook context.
    pub season_number: Option<u32>,
    pub episode_number: Option<u32>,
    pub series_name: Option<String>,
    pub author: Option<String>,
    pub chapter: Option<String>,
    // Music.
    pub artist_name: Option<String>,
    pub album_name: Option<String>,
    // Live TV and radio.
    pub live_tv_program_name: Option<String>,
    pub now_playing_track: Option<String>,
    pub now_playing_artist: Option<String>,
    /// Public CDN artwork URL; absent when the server has none.
    pub artwork_public_url: Option<String>,
    // Playback state.
    pub play_is_playing: Option<bool>,
    pub play_current_time: Option<Seconds>,
    /// Duration from the playback block. Absent on some sessions even while
    /// the item plainly has a length; see `duration`.
    pub play_item_duration: Option<Seconds>,
    /// Duration from the identity block, a fallback for `play_item_duration`.
    pub duration: Option<Seconds>,
}

/// A session with its texts as sequences of characters.
pub struct SessionView {
    pub id: Seq<char>,
    pub media_item_id: Seq<char>,
    pub title: Seq<char>,
    pub media_type: Seq<char>,
    pub username: Seq<char>,
    pub year: Option<u32>,
    pub season_number: Option<u32>,
    pub episode_number: Option<u32>,
    pub series_name: Option<Seq<char>>,
    pub author: Option<Seq<char>>,
    pub chapter: Option<Seq<char>>,
    pub artist_name: Option<Seq<char>>,
    pub album_name: Option<Seq<char>>,
    pub live_tv_program_name: Option<Seq<char>>,
    pub now_playing_track: Option<Seq<char>>,
    pub now_playing_artist: Option<Seq<char>>,
    pub artwork_public_url: Option<Seq<char>>,
    pub play_is_playing: Option<bool>,
    pub play_current_time: Option<Seconds>,
    pub play_item_duration: Option<Seconds>,
    pub duration: Option<Seconds>,
}

impl View for Session {
    type V = SessionView;

    open spec fn view(&self) -> SessionView {
        SessionView {
            id: self.id@,
            media_item_id: self.media_item_id@,
            title: self.title@,
            media_type: self.media_type@,
            username: self.username@,
            year: self.year,
            season_number: self.season_number,
            episode_number: self.episode_number,
            series_name: text::option_text(self.series_name),
            author: text::option_text(self.author),
            chapter: text::option_text(self.chapter),
            artist_name: text::option_text(self.artist_name),
            album_name: text::option_text(self.album_name),
            live_tv_program_name: text::option_text(self.live_tv_program_name),
            now_playing_track: text::option_text(self.now_playing_track),
            now_playing_artist: text::option_text(self.now_playing_artist),
            artwork_public_url: text::option_text(self.artwork_public_url),
            play_is_playing: self.play_is_playing,
            play_current_time: self.play_current_time,
            play_item_duration: self.play_item_duration,
            duration: self.duration,
        }
    }
}

impl SessionView {
    /// Is the item actually playing? An unknown state counts as paused.
    pub open spec fn playing(self) -> bool {
        self.play_is_playing == Some(true)
    }
}

impl Session {
    /// Is the item actually playing? An unknown state counts as paused.
    pub fn is_playing(&self) -> (playing: bool)
        ensures
            playing == self@.playing(),
    {
        match self.play_is_playing {
            Some(playing) => playing,
            None => false,
        }
    }
}

/// Paginated envelope of the session list.
#[derive(Debug, Clone)]
pub struct SessionsResponse {
    pub items: Vec<Session>,
}

} // verus!
