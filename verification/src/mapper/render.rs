//! Rendering one session into a presence.

use crate::api::model::{Seconds, Session, SessionView};
use crate::mapper::types::{PresenceKind, PresenceState, PresenceTimestamps, PresenceView};
use crate::media;
use crate::media::{classify, MediaClass};
use crate::text;
use crate::text::{begins_with, characters, push_decimal, push_two_digits};
use vstd::prelude::*;
use vstd::string::*;

verus! {

/// Discord asset key for the bundled logo, uploaded to the Discord
/// application's Rich Presence art assets. Used whenever no public image URL
/// is available.
pub const FALLBACK_ASSET_KEY: &'static str = "lumastra";

/// Separator between the segments of the second line.
pub const SEP: &'static str = " · ";

/// Characters of server text that a line keeps.
pub const MAX_CHARACTERS: usize = 120;

/// Characters that Discord accepts on a line.
pub const DISCORD_CHARACTERS: usize = 128;

/// Characters that a line has room for in front of the marker of a paused
/// session, which has nine.
pub const ROOM_BEFORE_MARKER: usize = 119;

/// Stands for what was cut off a line.
pub const ELLIPSIS: char = '…';

/// Is `c` kept? Dropped are the control characters, and the format characters
/// that reorder, join or hide text: zero-width spaces and joiners, directional
/// marks, overrides and isolates, and the byte order mark.
pub open spec fn is_displayable(c: char) -> bool {
    let is_control = c <= '\u{1F}' || ('\u{7F}' <= c && c <= '\u{9F}');
    let is_zero_width = '\u{200B}' <= c && c <= '\u{200F}';
    let is_override = '\u{202A}' <= c && c <= '\u{202E}';
    let is_isolate = '\u{2066}' <= c && c <= '\u{2069}';
    !is_control && !is_zero_width && !is_override && !is_isolate && c != '\u{FEFF}'
}

/// The text without the characters that are not displayable.
pub open spec fn cleaned(text: Seq<char>) -> Seq<char> {
    text.filter(|c: char| is_displayable(c))
}

/// Server text cleaned, and cut to `kept` characters and an ellipsis where it
/// has more than `room`.
pub open spec fn cut(text: Seq<char>, room: int, kept: int) -> Seq<char> {
    if cleaned(text).len() > room {
        cleaned(text).take(kept).push(ELLIPSIS)
    } else {
        cleaned(text)
    }
}

/// Server text as it may appear on a line: cleaned, and cut to
/// `MAX_CHARACTERS` with an ellipsis where it is longer.
pub open spec fn clamped(text: Seq<char>) -> Seq<char> {
    cut(text, MAX_CHARACTERS as int, MAX_CHARACTERS as int)
}

/// Server text as it may appear in front of the marker of a paused session:
/// cut so that text, ellipsis and marker are what Discord accepts.
pub open spec fn clamped_before_marker(text: Seq<char>) -> Seq<char> {
    cut(text, ROOM_BEFORE_MARKER as int, ROOM_BEFORE_MARKER - 1)
}

fn displayable(c: char) -> (answer: bool)
    ensures
        answer == is_displayable(c),
{
    let is_control = c <= '\u{1F}' || ('\u{7F}' <= c && c <= '\u{9F}');
    let is_zero_width = '\u{200B}' <= c && c <= '\u{200F}';
    let is_override = '\u{202A}' <= c && c <= '\u{202E}';
    let is_isolate = '\u{2066}' <= c && c <= '\u{2069}';
    !is_control && !is_zero_width && !is_override && !is_isolate && c != '\u{FEFF}'
}

/// Clean a text, and cut it to `kept` characters and an ellipsis where it has
/// more than `room`.
fn cut_text(text: &str, room: usize, kept: usize) -> (line: String)
    requires
        kept <= room,
    ensures
        line@ == cut(text@, room as int, kept as int),
{
    let units = characters(text);
    let mut whole = String::new();
    let mut head = String::new();
    let mut length: usize = 0;
    let mut i: usize = 0;
    assert(cleaned(text@.take(0)) =~= Seq::<char>::empty()) by {
        reveal(Seq::filter);
    }
    while i < units.len()
        invariant
            0 <= i <= units.len(),
            units@ == text@,
            kept <= room,
            length == cleaned(text@.take(i as int)).len(),
            length <= room,
            whole@ == cleaned(text@.take(i as int)),
            head@ == (if length <= kept {
                whole@
            } else {
                whole@.take(kept as int)
            }),
        decreases units.len() - i,
    {
        let ghost before = text@.take(i as int);
        let ghost after = text@.take(i + 1);
        assert(cleaned(after) == if is_displayable(text@[i as int]) {
            cleaned(before).push(text@[i as int])
        } else {
            cleaned(before)
        }) by {
            reveal(Seq::filter);
            assert(after.drop_last() =~= before);
        }
        if displayable(units[i]) {
            if length == room {
                proof {
                    lemma_cleaned_begins_with(text@, i + 1);
                    assert(head@ =~= cleaned(text@).take(kept as int));
                }
                head.push(ELLIPSIS);
                return head;
            }
            whole.push(units[i]);
            if length < kept {
                head.push(units[i]);
            }
            length += 1;
            assert(head@ =~= if length <= kept {
                whole@
            } else {
                whole@.take(kept as int)
            });
        }
        i += 1;
    }
    assert(text@.take(i as int) =~= text@);
    whole
}

/// Discord rejects `details` and `state` longer than 128 characters, and an
/// oversized payload can blow the 64 KB IPC frame. The server's strings are
/// untrusted input, so they are clamped on the way in.
pub fn clamp(text: &str) -> (line: String)
    ensures
        line@ == clamped(text@),
{
    cut_text(text, MAX_CHARACTERS, MAX_CHARACTERS)
}

/// Clamp a text that the marker of a paused session follows, so that the line
/// as a whole is short enough.
pub fn clamp_before_marker(text: &str) -> (line: String)
    ensures
        line@ == clamped_before_marker(text@),
{
    cut_text(text, ROOM_BEFORE_MARKER, ROOM_BEFORE_MARKER - 1)
}

/// Cleaning the first `n` characters gives the beginning of the cleaned text.
proof fn lemma_cleaned_begins_with(text: Seq<char>, n: int)
    requires
        0 <= n <= text.len(),
    ensures
        cleaned(text.take(n)).is_prefix_of(cleaned(text)),
    decreases text.len() - n,
{
    if n == text.len() {
        assert(text.take(n) =~= text);
    } else {
        lemma_cleaned_begins_with(text, n + 1);
        reveal(Seq::filter);
        assert(text.take(n + 1).drop_last() =~= text.take(n));
        let short = cleaned(text.take(n));
        let long = cleaned(text.take(n + 1));
        assert(short.is_prefix_of(long));
        assert(short =~= cleaned(text).subrange(0, short.len() as int));
    }
}

/// An artwork URL that Discord's own infrastructure may be pointed at: an
/// `https://` URL of fewer than 512 bytes.
pub open spec fn is_safe_artwork(url: Seq<char>) -> bool {
    "https://"@.is_prefix_of(url) && vstd::utf8::encode_utf8(url).len() < 512
}

/// Accept an artwork URL only if it is safe to point Discord's infrastructure
/// at. The value comes straight from the server and is untrusted input.
pub fn validate_artwork_url(url: &str) -> (accepted: bool)
    ensures
        accepted == is_safe_artwork(url@),
{
    begins_with(url, "https://") && url.as_bytes().len() < 512
}

/// The present, non-empty segments in order, with the separator between them.
pub open spec fn joined_segments(parts: Seq<Option<Seq<char>>>) -> Seq<char>
    decreases parts.len(),
{
    if parts.len() == 0 {
        seq![]
    } else {
        let before = joined_segments(parts.drop_last());
        match parts.last() {
            None => before,
            Some(part) => if part.len() == 0 {
                before
            } else if before.len() == 0 {
                part
            } else {
                before + SEP@ + part
            },
        }
    }
}

/// The joined segments; `None` when nothing is present.
pub open spec fn joined(parts: Seq<Option<Seq<char>>>) -> Option<Seq<char>> {
    if joined_segments(parts).len() == 0 {
        None
    } else {
        Some(joined_segments(parts))
    }
}

/// Optional borrowed texts as sequences of characters.
pub open spec fn part_texts(parts: Seq<Option<&str>>) -> Seq<Option<Seq<char>>> {
    parts.map_values(|part: Option<&str>| text::option_str(part))
}

/// Join present segments with the separator; `None` when nothing is present.
pub fn join(parts: &[Option<&str>]) -> (line: Option<String>)
    ensures
        text::option_text(line) == joined(part_texts(parts@)),
{
    let mut line = String::new();
    let mut empty = true;
    let mut i: usize = 0;
    while i < parts.len()
        invariant
            0 <= i <= parts.len(),
            line@ == joined_segments(part_texts(parts@.take(i as int))),
            empty == (line@.len() == 0),
        decreases parts.len() - i,
    {
        let ghost before = line@;
        assert(part_texts(parts@.take(i + 1)).drop_last() =~= part_texts(parts@.take(i as int)));
        assert(part_texts(parts@.take(i + 1)).last() == text::option_str(parts@[i as int]));
        if let Some(part) = parts[i] {
            if !part.is_empty() {
                if !empty {
                    line.append(SEP);
                }
                line.append(part);
                assert(empty ==> line@ =~= part@);
                empty = false;
            }
        }
        i += 1;
    }
    assert(parts@.take(i as int) =~= parts@);
    if empty {
        None
    } else {
        Some(line)
    }
}

/// What the lines of a presence say, before clamping.
pub struct Description {
    pub kind: PresenceKind,
    pub name: Seq<char>,
    pub details: Seq<char>,
    pub state: Option<Seq<char>>,
}

/// Season and episode as `S01E02`, where both are known.
pub open spec fn episode_code(season: Option<u32>, episode: Option<u32>) -> Option<Seq<char>> {
    match (season, episode) {
        (Some(s), Some(e)) => Some(
            "S"@ + text::two_digits(s as nat) + "E"@ + text::two_digits(e as nat),
        ),
        _ => None,
    }
}

/// The title, with the year behind it where that is known.
pub open spec fn titled_with_year(title: Seq<char>, year: Option<u32>) -> Seq<char> {
    match year {
        Some(year) => title + " ("@ + text::decimal(year as nat) + ")"@,
        None => title,
    }
}

/// Per-media-type text of a session.
pub open spec fn description(session: SessionView) -> Description {
    let code = episode_code(session.season_number, session.episode_number);
    match media::class_of(session.media_type) {
        MediaClass::Movie => Description {
            kind: PresenceKind::Watching,
            name: "Movie"@,
            details: titled_with_year(session.title, session.year),
            state: None,
        },
        MediaClass::Series => match session.series_name {
            // Series name known: it is the headline, the code and episode
            // title go below.
            Some(series) => Description {
                kind: PresenceKind::Watching,
                name: "Series"@,
                details: series,
                state: joined(seq![code, Some(session.title)]),
            },
            // No series name: the episode title has to headline instead, or
            // the top line would be empty.
            None => Description {
                kind: PresenceKind::Watching,
                name: "Series"@,
                details: session.title,
                state: code,
            },
        },
        MediaClass::Music => Description {
            kind: PresenceKind::Listening,
            name: "Music"@,
            details: session.title,
            state: joined(seq![session.artist_name, session.album_name]),
        },
        MediaClass::Audiobook => Description {
            kind: PresenceKind::Listening,
            name: "Audiobook"@,
            details: session.title,
            state: joined(seq![session.author, session.chapter]),
        },
        MediaClass::LiveTv => Description {
            kind: PresenceKind::Watching,
            name: "Live TV"@,
            details: session.title,
            state: session.live_tv_program_name,
        },
        MediaClass::Radio => Description {
            kind: PresenceKind::Listening,
            name: "Radio"@,
            details: session.title,
            state: joined(seq![session.now_playing_artist, session.now_playing_track]),
        },
        // A new server media type degrades to a bare title.
        MediaClass::Unknown => Description {
            kind: PresenceKind::Watching,
            name: "Lumastra"@,
            details: session.title,
            state: None,
        },
    }
}

/// Borrow an optional text.
fn borrowed(text: &Option<String>) -> (part: Option<&str>)
    ensures
        text::option_str(part) == text::option_text(*text),
{
    match text {
        Some(text) => Some(text.as_str()),
        None => None,
    }
}

/// Join two optional segments.
fn join_two(first: Option<&str>, second: Option<&str>) -> (line: Option<String>)
    ensures
        text::option_text(line) == joined(
            seq![text::option_str(first), text::option_str(second)],
        ),
{
    let parts = [first, second];
    assert(part_texts(parts@) =~= seq![text::option_str(first), text::option_str(second)]);
    join(&parts)
}

/// Season and episode as `S01E02`, where both are known.
fn code_of(session: &Session) -> (code: Option<String>)
    ensures
        text::option_text(code) == episode_code(session.season_number, session.episode_number),
{
    match (session.season_number, session.episode_number) {
        (Some(season), Some(episode)) => {
            let mut code = "S".to_string();
            push_two_digits(&mut code, season);
            code.append("E");
            push_two_digits(&mut code, episode);
            Some(code)
        },
        _ => None,
    }
}

/// Per-media-type text. Returns `(kind, name, details, state)`.
///
/// `name` overrides the Discord application's default name in the header. It
/// is a fixed noun per media type, not server-supplied text, so it needs no
/// clamping like `details` and `state` do.
pub fn describe(session: &Session) -> (said: (
    PresenceKind,
    &'static str,
    String,
    Option<String>,
))
    ensures
        said.0 == description(session@).kind,
        said.1@ == description(session@).name,
        said.2@ == description(session@).details,
        text::option_text(said.3) == description(session@).state,
{
    match classify(session.media_type.as_str()) {
        MediaClass::Movie => {
            let mut details = session.title.clone();
            if let Some(year) = session.year {
                details.append(" (");
                push_decimal(&mut details, year as u64);
                details.append(")");
            }
            (PresenceKind::Watching, "Movie", details, None)
        },
        MediaClass::Series => {
            let code = code_of(session);
            match &session.series_name {
                Some(series) => {
                    let state = join_two(borrowed(&code), Some(session.title.as_str()));
                    (PresenceKind::Watching, "Series", series.clone(), state)
                },
                None => (PresenceKind::Watching, "Series", session.title.clone(), code),
            }
        },
        MediaClass::Music => {
            let state = join_two(borrowed(&session.artist_name), borrowed(&session.album_name));
            (PresenceKind::Listening, "Music", session.title.clone(), state)
        },
        MediaClass::Audiobook => {
            let state = join_two(borrowed(&session.author), borrowed(&session.chapter));
            (PresenceKind::Listening, "Audiobook", session.title.clone(), state)
        },
        MediaClass::LiveTv => (
            PresenceKind::Watching,
            "Live TV",
            session.title.clone(),
            session.live_tv_program_name.clone(),
        ),
        MediaClass::Radio => {
            let state = join_two(
                borrowed(&session.now_playing_artist),
                borrowed(&session.now_playing_track),
            );
            (PresenceKind::Listening, "Radio", session.title.clone(), state)
        },
        MediaClass::Unknown => (PresenceKind::Watching, "Lumastra", session.title.clone(), None),
    }
}

/// A reading that is above zero, if it is.
pub open spec fn above_zero(reading: Option<Seconds>) -> Option<int> {
    match reading {
        Some(seconds) => if seconds.positive {
            Some(seconds.whole as int)
        } else {
            None
        },
        None => None,
    }
}

/// How far into the item playback is; at its beginning where that is unknown.
pub open spec fn position_of(session: SessionView) -> int {
    match above_zero(session.play_current_time) {
        Some(position) => position,
        None => 0,
    }
}

/// Is the session an open-ended stream, which has no length?
pub open spec fn is_open_ended(session: SessionView) -> bool {
    media::class_of(session.media_type) is LiveTv || media::class_of(session.media_type) is Radio
}

/// How long the item is: from the playback block, or else from the identity
/// block. A reading of zero says nothing about the length, and an open-ended
/// stream has none, whatever it carries.
pub open spec fn length_of(session: SessionView) -> Option<int> {
    if is_open_ended(session) {
        None
    } else {
        match above_zero(session.play_item_duration) {
            Some(length) => Some(length),
            None => above_zero(session.duration),
        }
    }
}

/// When the item would have been started, to be at its position now.
pub open spec fn start_of(session: SessionView, now_unix: i64) -> int {
    now_unix - position_of(session)
}

/// When the item will be over; `None` for open-ended streams.
pub open spec fn end_of(session: SessionView, now_unix: i64) -> Option<int> {
    match length_of(session) {
        Some(length) => Some(start_of(session, now_unix) + length),
        None => None,
    }
}

/// Do both bounds of the progress bar fit the clock's range?
pub open spec fn bounds_fit(session: SessionView, now_unix: i64) -> bool {
    &&& i64::MIN <= start_of(session, now_unix) <= i64::MAX
    &&& end_of(session, now_unix) matches Some(end) ==> i64::MIN <= end <= i64::MAX
}

/// The bounds of the progress bar of a session.
pub open spec fn bounds_of(session: SessionView, now_unix: i64) -> PresenceTimestamps {
    PresenceTimestamps {
        start: start_of(session, now_unix) as i64,
        end: match end_of(session, now_unix) {
            Some(end) => Some(end as i64),
            None => None,
        },
    }
}

fn positive_part(reading: Option<Seconds>) -> (whole: Option<i64>)
    ensures
        whole matches Some(n) ==> above_zero(reading) == Some(n as int),
        whole is None ==> above_zero(reading) is None,
{
    match reading {
        Some(seconds) => if seconds.positive {
            Some(seconds.whole)
        } else {
            None
        },
        None => None,
    }
}

fn position(session: &Session) -> (seconds: i64)
    ensures
        seconds == position_of(session@),
{
    match positive_part(session.play_current_time) {
        Some(position) => position,
        None => 0,
    }
}

fn length(session: &Session) -> (seconds: Option<i64>)
    ensures
        seconds matches Some(n) ==> length_of(session@) == Some(n as int),
        seconds is None ==> length_of(session@) is None,
{
    match classify(session.media_type.as_str()) {
        MediaClass::LiveTv | MediaClass::Radio => None,
        _ => match positive_part(session.play_item_duration) {
            Some(length) => Some(length),
            None => positive_part(session.duration),
        },
    }
}

/// Do both bounds of the progress bar fit the clock's range? They do not for
/// absurd readings only.
pub fn timestamps_fit(session: &Session, now_unix: i64) -> (fit: bool)
    ensures
        fit == bounds_fit(session@, now_unix),
{
    match now_unix.checked_sub(position(session)) {
        None => false,
        Some(start) => match length(session) {
            None => true,
            Some(length) => start.checked_add(length).is_some(),
        },
    }
}

/// Anchor the progress bar to the reported position, in Unix seconds.
///
/// `start` is placed in the past by however far into the item we are, so
/// Discord's client-side animation lands on the right spot without needing
/// another update. `end` is omitted for open-ended streams and for a
/// non-positive duration, which would otherwise render a full bar.
pub fn timestamps(session: &Session, now_unix: i64) -> (bounds: PresenceTimestamps)
    requires
        bounds_fit(session@, now_unix),
    ensures
        bounds == bounds_of(session@, now_unix),
{
    let start: i64 = now_unix - position(session);
    let end: Option<i64> = match length(session) {
        Some(length) => Some(start + length),
        None => None,
    };
    PresenceTimestamps { start, end }
}

/// The second line: what there is to say, and that playback is paused, if it
/// is. The text is clamped before the marker is appended, so that a long line
/// cannot push the marker out, nor go over what Discord accepts with it.
pub open spec fn state_line(state: Option<Seq<char>>, playing: bool) -> Option<Seq<char>> {
    match state {
        Some(line) => if playing {
            Some(clamped(line))
        } else {
            Some(clamped_before_marker(line) + SEP@ + "Paused"@)
        },
        None => if playing {
            None
        } else {
            Some("Paused"@)
        },
    }
}

/// The image to show: the public artwork if it is safe, else the bundled logo.
pub open spec fn image_of(artwork: Option<Seq<char>>) -> Seq<char> {
    match artwork {
        Some(url) => if is_safe_artwork(url) {
            url
        } else {
            FALLBACK_ASSET_KEY@
        },
        None => FALLBACK_ASSET_KEY@,
    }
}

/// The presence that a session is rendered into.
pub open spec fn presence_of(session: SessionView, now_unix: i64) -> PresenceView {
    let said = description(session);
    PresenceView {
        kind: said.kind,
        name: said.name,
        details: clamped(said.details),
        state: state_line(said.state, session.playing()),
        large_image: Some(image_of(session.artwork_public_url)),
        large_text: Some(clamped(session.title)),
        timestamps: if session.playing() {
            Some(bounds_of(session, now_unix))
        } else {
            None
        },
    }
}

/// Can the session be rendered at this time? Only the progress bar of a
/// playing one can fail to fit.
pub open spec fn renderable(session: SessionView, now_unix: i64) -> bool {
    session.playing() ==> bounds_fit(session, now_unix)
}

/// Render one session into a presence payload.
pub fn build_state(session: &Session, now_unix: i64) -> (presence: PresenceState)
    requires
        renderable(session@, now_unix),
    ensures
        presence@ == presence_of(session@, now_unix),
{
    let playing = session.is_playing();
    let (kind, name, details, said) = describe(session);
    let state = match said {
        Some(line) => if playing {
            Some(clamp(line.as_str()))
        } else {
            let mut line = clamp_before_marker(line.as_str());
            line.append(SEP);
            line.append("Paused");
            Some(line)
        },
        None => if playing {
            None
        } else {
            Some("Paused".to_string())
        },
    };
    let large_image = match &session.artwork_public_url {
        Some(url) => if validate_artwork_url(url.as_str()) {
            url.clone()
        } else {
            FALLBACK_ASSET_KEY.to_string()
        },
        None => FALLBACK_ASSET_KEY.to_string(),
    };
    PresenceState {
        kind,
        name: name.to_string(),
        details: clamp(details.as_str()),
        state,
        large_image: Some(large_image),
        large_text: Some(clamp(session.title.as_str())),
        timestamps: if playing {
            Some(timestamps(session, now_unix))
        } else {
            None
        },
    }
}

} // verus!
