//! The media types a session can name.

use crate::text::same_text;
use vstd::prelude::*;

verus! {

/// The families that the session vocabulary falls into.
#[derive(Debug, Clone, Copy, PartialEq, Eq)]
pub enum MediaClass {
    Movie,
    Series,
    Music,
    Audiobook,
    LiveTv,
    Radio,
    /// A media type this client does not know.
    Unknown,
}

/// The family of a media type. `series` is the spelling on the wire and `tv`
/// the one in storage; both occur.
pub open spec fn class_of(media_type: Seq<char>) -> MediaClass {
    if media_type == "movie"@ {
        MediaClass::Movie
    } else if media_type == "series"@ || media_type == "tv"@ || media_type == "episode"@
        || media_type == "season"@ {
        MediaClass::Series
    } else if media_type == "music"@ || media_type == "track"@ || media_type == "audio"@ {
        MediaClass::Music
    } else if media_type == "audiobook"@ {
        MediaClass::Audiobook
    } else if media_type == "tvchannel"@ {
        MediaClass::LiveTv
    } else if media_type == "radio"@ {
        MediaClass::Radio
    } else {
        MediaClass::Unknown
    }
}

/// Sort a media type into its family.
pub fn classify(media_type: &str) -> (class: MediaClass)
    ensures
        class == class_of(media_type@),
{
    if same_text(media_type, "movie") {
        MediaClass::Movie
    } else if same_text(media_type, "series") || same_text(media_type, "tv") || same_text(
        media_type,
        "episode",
    ) || same_text(media_type, "season") {
        MediaClass::Series
    } else if same_text(media_type, "music") || same_text(media_type, "track") || same_text(
        media_type,
        "audio",
    ) {
        MediaClass::Music
    } else if same_text(media_type, "audiobook") {
        MediaClass::Audiobook
    } else if same_text(media_type, "tvchannel") {
        MediaClass::LiveTv
    } else if same_text(media_type, "radio") {
        MediaClass::Radio
    } else {
        MediaClass::Unknown
    }
}

/// Each spelling belongs to the family it is listed under, and every other text
/// to none.
pub proof fn law_spellings_of_the_families(media_type: Seq<char>)
    ensures
        class_of("movie"@) is Movie,
        class_of("series"@) is Series,
        class_of("tv"@) is Series,
        class_of("episode"@) is Series,
        class_of("season"@) is Series,
        class_of("music"@) is Music,
        class_of("track"@) is Music,
        class_of("audio"@) is Music,
        class_of("audiobook"@) is Audiobook,
        class_of("tvchannel"@) is LiveTv,
        class_of("radio"@) is Radio,
        media_type != "movie"@ && media_type != "series"@ && media_type != "tv"@ && media_type
            != "episode"@ && media_type != "season"@ && media_type != "music"@ && media_type
            != "track"@ && media_type != "audio"@ && media_type != "audiobook"@ && media_type
            != "tvchannel"@ && media_type != "radio"@ ==> class_of(media_type) is Unknown,
{
    reveal_strlit("movie");
    reveal_strlit("series");
    reveal_strlit("tv");
    reveal_strlit("episode");
    reveal_strlit("season");
    reveal_strlit("music");
    reveal_strlit("track");
    reveal_strlit("audio");
    reveal_strlit("audiobook");
    reveal_strlit("tvchannel");
    reveal_strlit("radio");
    assert("movie"@.len() == 5 && "movie"@[1] == 'o');
    assert("music"@.len() == 5 && "music"@[1] == 'u' && "music"@[0] == 'm');
    assert("track"@.len() == 5 && "track"@[1] == 'r');
    assert("audio"@.len() == 5 && "audio"@[1] == 'u' && "audio"@[0] == 'a');
    assert("radio"@.len() == 5 && "radio"@[1] == 'a');
    assert("series"@.len() == 6 && "series"@[2] == 'r');
    assert("season"@.len() == 6 && "season"@[2] == 'a');
    assert("tv"@.len() == 2 && "episode"@.len() == 7);
    assert("audiobook"@.len() == 9 && "audiobook"@[0] == 'a');
    assert("tvchannel"@.len() == 9 && "tvchannel"@[0] == 't');
}

} // verus!
