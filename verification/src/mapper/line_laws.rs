//! What the lines, the picture and the bar of a presence say, field by field of
//! the session.

use crate::api::model::{Seconds, Session};
use crate::mapper::laws;
use crate::mapper::render;
use crate::mapper::types::PresenceState;
use crate::media;
use crate::text;
use vstd::prelude::*;

verus! {

/// What an optional text says: nothing where it is absent.
pub open spec fn says(text: Option<String>) -> Seq<char> {
    match text {
        Some(text) => text@,
        None => seq![],
    }
}

/// Does the line hold what there is of two segments, with the separator between
/// them where there are both, and is there none where there is neither?
pub open spec fn holds_both(
    line: Option<Seq<char>>,
    first: Seq<char>,
    second: Seq<char>,
) -> bool {
    &&& first.len() > 0 && second.len() > 0 ==> line == Some(first + seq![' ', '·', ' '] + second)
    &&& first.len() > 0 && second.len() == 0 ==> line == Some(first)
    &&& first.len() == 0 && second.len() > 0 ==> line == Some(second)
    &&& first.len() == 0 && second.len() == 0 ==> line is None
}

/// The separator is a dot between two spaces.
proof fn lemma_separator()
    ensures
        render::SEP@ == seq![' ', '·', ' '],
        " · "@ == seq![' ', '·', ' '],
{
    reveal_strlit(" · ");
    assert(" · "@ =~= seq![' ', '·', ' ']);
}

/// Joining adds each segment behind what is there, with the separator between
/// them, passes over absent and empty ones, and gives nothing for nothing.
pub proof fn law_joining_adds_segment_by_segment(
    parts: Seq<Option<Seq<char>>>,
    segment: Seq<char>,
)
    ensures
        render::joined(seq![]) is None,
        render::joined(parts.push(None)) == render::joined(parts),
        segment.len() == 0 ==> render::joined(parts.push(Some(segment))) == render::joined(parts),
        segment.len() > 0 && render::joined(parts) is None ==> render::joined(
            parts.push(Some(segment)),
        ) == Some(segment),
        segment.len() > 0 && render::joined(parts) is Some ==> render::joined(
            parts.push(Some(segment)),
        ) == Some(render::joined(parts)->0 + seq![' ', '·', ' '] + segment),
{
    lemma_separator();
    assert(parts.push(None).drop_last() =~= parts);
    assert(parts.push(Some(segment)).drop_last() =~= parts);
}

/// Joining two segments.
proof fn lemma_two_segments(first: Option<String>, second: Option<String>)
    ensures
        holds_both(
            render::joined(seq![text::option_text(first), text::option_text(second)]),
            says(first),
            says(second),
        ),
{
    let (a, b) = (text::option_text(first), text::option_text(second));
    let none: Seq<Option<Seq<char>>> = seq![];
    assert(none.push(a).push(b) =~= seq![a, b]);
    assert(render::joined(none.push(a)) == (if says(first).len() > 0 {
        Some(says(first))
    } else {
        None
    })) by {
        law_joining_adds_segment_by_segment(none, says(first));
    }
    law_joining_adds_segment_by_segment(none.push(a), says(second));
}

/// A movie is headed by its title, with the year in brackets where that is
/// known, and has no second line.
pub proof fn law_movie_lines(session: Session)
    requires
        session.media_type@ == "movie"@,
    ensures
        render::description(session@).kind is Watching,
        render::description(session@).name == "Movie"@,
        session.year is None ==> render::description(session@).details == session.title@,
        session.year matches Some(year) ==> render::description(session@).details
            == session.title@ + seq![' ', '('] + text::decimal(year as nat) + seq![')'],
        render::description(session@).state is None,
{
    media::law_spellings_of_the_families(session.media_type@);
    reveal_strlit(" (");
    reveal_strlit(")");
    assert(" ("@ =~= seq![' ', '(']);
    assert(")"@ =~= seq![')']);
}

/// Season and episode as they are written: `S`, the season with at least two
/// digits, `E`, and the episode likewise; nothing where one of them is unknown.
pub open spec fn written_code(season: Option<u32>, episode: Option<u32>) -> Seq<char> {
    if season is Some && episode is Some {
        seq!['S'] + text::two_digits(season->0 as nat) + seq!['E'] + text::two_digits(
            episode->0 as nat,
        )
    } else {
        seq![]
    }
}

/// An episode is headed by its series, with the code and its own title below;
/// where the series is not known, by its title, with the code below.
pub proof fn law_series_lines(session: Session)
    requires
        session.media_type@ == "series"@ || session.media_type@ == "tv"@ || session.media_type@
            == "episode"@ || session.media_type@ == "season"@,
    ensures
        render::description(session@).kind is Watching,
        render::description(session@).name == "Series"@,
        session.series_name matches Some(series) ==> {
            &&& render::description(session@).details == series@
            &&& holds_both(
                render::description(session@).state,
                written_code(session.season_number, session.episode_number),
                session.title@,
            )
        },
        session.series_name is None ==> {
            &&& render::description(session@).details == session.title@
            &&& holds_both(
                render::description(session@).state,
                written_code(session.season_number, session.episode_number),
                seq![],
            )
        },
{
    media::law_spellings_of_the_families(session.media_type@);
    lemma_separator();
    reveal_strlit("S");
    reveal_strlit("E");
    assert("S"@ =~= seq!['S']);
    assert("E"@ =~= seq!['E']);
    let code = render::episode_code(session.season_number, session.episode_number);
    let written = written_code(session.season_number, session.episode_number);
    assert(code is Some ==> code->0 == written && written.len() > 0);
    assert(code is None ==> written.len() == 0);
    let none: Seq<Option<Seq<char>>> = seq![];
    assert(none.push(code).push(Some(session.title@)) =~= seq![code, Some(session.title@)]);
    assert(render::joined(none.push(code)) == code) by {
        law_joining_adds_segment_by_segment(none, written);
    }
    law_joining_adds_segment_by_segment(none.push(code), session.title@);
}

/// Music is headed by its title, with artist and album below; the title has no
/// influence on the second line.
pub proof fn law_music_lines(session: Session)
    requires
        session.media_type@ == "music"@ || session.media_type@ == "track"@
            || session.media_type@ == "audio"@,
    ensures
        render::description(session@).kind is Listening,
        render::description(session@).name == "Music"@,
        render::description(session@).details == session.title@,
        holds_both(
            render::description(session@).state,
            says(session.artist_name),
            says(session.album_name),
        ),
{
    media::law_spellings_of_the_families(session.media_type@);
    lemma_two_segments(session.artist_name, session.album_name);
}

/// An audiobook is headed by its title, with author and chapter below.
pub proof fn law_audiobook_lines(session: Session)
    requires
        session.media_type@ == "audiobook"@,
    ensures
        render::description(session@).kind is Listening,
        render::description(session@).name == "Audiobook"@,
        render::description(session@).details == session.title@,
        holds_both(
            render::description(session@).state,
            says(session.author),
            says(session.chapter),
        ),
{
    media::law_spellings_of_the_families(session.media_type@);
    lemma_two_segments(session.author, session.chapter);
}

/// A channel is headed by its name, with the programme below, where there is
/// one.
pub proof fn law_channel_lines(session: Session)
    requires
        session.media_type@ == "tvchannel"@,
    ensures
        render::description(session@).kind is Watching,
        render::description(session@).name == "Live TV"@,
        render::description(session@).details == session.title@,
        session.live_tv_program_name is None ==> render::description(session@).state is None,
        session.live_tv_program_name matches Some(programme) ==> render::description(
            session@,
        ).state == Some(programme@),
{
    media::law_spellings_of_the_families(session.media_type@);
}

/// A radio station is headed by its name, with the artist and the track that it
/// plays below.
pub proof fn law_radio_lines(session: Session)
    requires
        session.media_type@ == "radio"@,
    ensures
        render::description(session@).kind is Listening,
        render::description(session@).name == "Radio"@,
        render::description(session@).details == session.title@,
        holds_both(
            render::description(session@).state,
            says(session.now_playing_artist),
            says(session.now_playing_track),
        ),
{
    media::law_spellings_of_the_families(session.media_type@);
    lemma_two_segments(session.now_playing_artist, session.now_playing_track);
}

/// A media type that is not known degrades to the bare title.
pub proof fn law_unknown_media_types_show_the_title(session: Session)
    requires
        session.media_type@ != "movie"@,
        session.media_type@ != "series"@,
        session.media_type@ != "tv"@,
        session.media_type@ != "episode"@,
        session.media_type@ != "season"@,
        session.media_type@ != "music"@,
        session.media_type@ != "track"@,
        session.media_type@ != "audio"@,
        session.media_type@ != "audiobook"@,
        session.media_type@ != "tvchannel"@,
        session.media_type@ != "radio"@,
    ensures
        render::description(session@).kind is Watching,
        render::description(session@).name == "Lumastra"@,
        render::description(session@).details == session.title@,
        render::description(session@).state is None,
{
    media::law_spellings_of_the_families(session.media_type@);
}

/// The characters that are not for show: the two blocks of control characters,
/// the zero-width and directional marks, the overrides, the isolates, and the
/// byte order mark. All others are.
pub proof fn law_characters_for_show(c: char)
    ensures
        !render::is_displayable(c) <==> (0x00 <= c as int <= 0x1F || 0x7F <= c as int <= 0x9F
            || 0x200B <= c as int <= 0x200F || 0x202A <= c as int <= 0x202E || 0x2066 <= c as int
            <= 0x2069 || c as int == 0xFEFF),
{
}

/// Cleaning keeps the characters for show, each in its place, and drops the
/// others: it can be done piece by piece, and to a single character it does
/// nothing or drops it.
pub proof fn law_cleaning_goes_character_by_character(a: Seq<char>, b: Seq<char>, c: char)
    ensures
        render::cleaned(a + b) == render::cleaned(a) + render::cleaned(b),
        render::is_displayable(c) ==> render::cleaned(seq![c]) == seq![c],
        !render::is_displayable(c) ==> render::cleaned(seq![c]) == Seq::<char>::empty(),
        render::cleaned(Seq::empty()) == Seq::<char>::empty(),
{
    Seq::filter_distributes_over_add(a, b, |c: char| render::is_displayable(c));
    reveal(Seq::filter);
    assert(seq![c].drop_last() =~= Seq::<char>::empty());
    assert(Seq::<char>::empty().filter(|c: char| render::is_displayable(c)) =~= Seq::<
        char,
    >::empty());
    assert(seq![c].last() == c);
    assert(Seq::<char>::empty().push(c) =~= seq![c]);
}

/// A line keeps a hundred and twenty characters, and one in front of the marker
/// of a paused session, so many that nine more fit what Discord accepts; what
/// is cut off is marked by an ellipsis.
pub proof fn law_lines_are_cut_where_they_are_too_long(line: Seq<char>)
    ensures
        render::cleaned(line).len() <= 120 ==> render::clamped(line) == render::cleaned(line),
        render::cleaned(line).len() > 120 ==> render::clamped(line) == render::cleaned(line).take(
            120,
        ) + seq!['…'],
        render::cleaned(line).len() <= 119 ==> render::clamped_before_marker(line)
            == render::cleaned(line),
        render::cleaned(line).len() > 119 ==> render::clamped_before_marker(line)
            == render::cleaned(line).take(118) + seq!['…'],
{
    let clean = render::cleaned(line);
    assert(clean.take(120).push('…') =~= clean.take(120) + seq!['…']);
    assert(clean.take(118).push('…') =~= clean.take(118) + seq!['…']);
}

/// A presence shows what the session says: the lines clamped, the title as the
/// hover text, a bar or counter while playing, and the word that it is paused
/// otherwise.
pub proof fn law_presence_shows_what_the_session_says(session: Session, now_unix: i64)
    ensures
        ({
            let said = render::description(session@);
            let shown = render::presence_of(session@, now_unix);
            &&& shown.kind == said.kind
            &&& shown.name == said.name
            &&& shown.details == render::clamped(said.details)
            &&& shown.large_text == Some(render::clamped(session.title@))
            &&& laws::plays(session) ==> {
                &&& said.state is None ==> shown.state is None
                &&& said.state is Some ==> shown.state == Some(render::clamped(said.state->0))
                &&& shown.timestamps == Some(render::bounds_of(session@, now_unix))
            }
            &&& !laws::plays(session) ==> {
                &&& said.state is None ==> shown.state == Some("Paused"@)
                &&& said.state is Some ==> shown.state == Some(
                    render::clamped_before_marker(said.state->0) + seq![' ', '·', ' ']
                        + "Paused"@,
                )
                &&& shown.timestamps is None
            }
        }),
{
    lemma_separator();
}

/// The picture is the public artwork exactly where that begins with `https://`
/// and has fewer than 512 bytes, and the bundled logo otherwise.
pub proof fn law_picture(session: Session, now_unix: i64, url: Seq<char>)
    ensures
        ({
            let shown = render::presence_of(session@, now_unix).large_image;
            let artwork = session.artwork_public_url;
            let safe = artwork is Some && artwork->0@.len() >= 8 && artwork->0@.take(8)
                == "https://"@ && vstd::utf8::encode_utf8(artwork->0@).len() < 512;
            &&& safe ==> shown == Some(artwork->0@)
            &&& !safe ==> shown == Some("lumastra"@)
        }),
        render::is_safe_artwork(url) <==> url.len() >= 8 && url.take(8) == "https://"@
            && vstd::utf8::encode_utf8(url).len() < 512,
{
    reveal_strlit("https://");
    assert("https://"@.is_prefix_of(url) <==> url.len() >= 8 && url.take(8) == "https://"@);
    if session.artwork_public_url is Some {
        let artwork = session.artwork_public_url->0@;
        assert("https://"@.is_prefix_of(artwork) <==> artwork.len() >= 8 && artwork.take(8)
            == "https://"@);
    }
}

/// Is a reading there, and above zero?
pub open spec fn counts(reading: Option<Seconds>) -> bool {
    reading is Some && reading->0.positive
}

/// The whole seconds of a reading that counts.
pub open spec fn whole_of(reading: Option<Seconds>) -> int {
    reading->0.whole as int
}

/// Where the bar begins: as long ago as the position says, and now where that
/// is not above zero.
pub open spec fn begins_at(session: Session, now_unix: i64) -> int {
    if counts(session.play_current_time) {
        now_unix - whole_of(session.play_current_time)
    } else {
        now_unix as int
    }
}

/// The bar of an item that has an end: it begins as long ago as the position
/// says, and ends as long after as the playback duration says, or else the
/// other one; only where neither is above zero is there no end.
pub proof fn law_bar_runs_from_position_to_duration(session: Session, now_unix: i64)
    requires
        render::bounds_fit(session@, now_unix),
        session.media_type@ != "tvchannel"@,
        session.media_type@ != "radio"@,
    ensures
        ({
            let bounds = render::bounds_of(session@, now_unix);
            &&& bounds.start == begins_at(session, now_unix)
            &&& counts(session.play_item_duration) ==> bounds.end is Some && bounds.end->0
                == begins_at(session, now_unix) + whole_of(session.play_item_duration)
            &&& !counts(session.play_item_duration) && counts(session.duration) ==> bounds.end
                is Some && bounds.end->0 == begins_at(session, now_unix) + whole_of(
                session.duration,
            )
            &&& !counts(session.play_item_duration) && !counts(session.duration) ==> bounds.end
                is None
        }),
{
    media::law_spellings_of_the_families(session.media_type@);
}

/// An open-ended stream counts up from the position, and has no end.
pub proof fn law_streams_count_up(session: Session, now_unix: i64)
    requires
        render::bounds_fit(session@, now_unix),
        session.media_type@ == "tvchannel"@ || session.media_type@ == "radio"@,
    ensures
        render::bounds_of(session@, now_unix).start == begins_at(session, now_unix),
        render::bounds_of(session@, now_unix).end is None,
{
    media::law_spellings_of_the_families(session.media_type@);
}

/// A bar fits exactly when its beginning, and its end where it has one, are
/// numbers of 64 bits.
pub proof fn law_bar_fits_the_clock(session: Session, now_unix: i64)
    ensures
        ({
            let start = begins_at(session, now_unix);
            let stream = session.media_type@ == "tvchannel"@ || session.media_type@ == "radio"@;
            let length = if stream {
                None
            } else if counts(session.play_item_duration) {
                Some(whole_of(session.play_item_duration))
            } else if counts(session.duration) {
                Some(whole_of(session.duration))
            } else {
                None
            };
            render::bounds_fit(session@, now_unix) <==> i64::MIN <= start <= i64::MAX && (
            length is Some ==> i64::MIN <= start + length->0 <= i64::MAX)
        }),
{
    media::law_spellings_of_the_families(session.media_type@);
}

/// A session plays exactly when the server says so.
pub proof fn law_unknown_counts_as_paused(session: Session)
    ensures
        session@.playing() <==> session.play_is_playing == Some(true),
{
}

/// A presence as it is compared and sent has each of its fields.
pub proof fn law_presences_are_compared_by_every_field(a: PresenceState, b: PresenceState)
    ensures
        a@.kind == a.kind,
        a@.name == a.name@,
        a@.details == a.details@,
        a@.state is Some <==> a.state is Some,
        a.state is Some ==> a@.state->0 == a.state->0@,
        a@.large_image is Some <==> a.large_image is Some,
        a.large_image is Some ==> a@.large_image->0 == a.large_image->0@,
        a@.large_text is Some <==> a.large_text is Some,
        a.large_text is Some ==> a@.large_text->0 == a.large_text->0@,
        a@.timestamps == a.timestamps,
        a@ == b@ ==> a.kind == b.kind && a.name@ == b.name@ && a.details@ == b.details@ && says(
            a.state,
        ) == says(b.state) && says(a.large_image) == says(b.large_image) && says(a.large_text)
            == says(b.large_text) && a.timestamps == b.timestamps,
{
}

} // verus!
