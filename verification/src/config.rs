//! User settings.

use crate::files::SaveError;
use crate::media;
use crate::media::{classify, MediaClass};
use vstd::prelude::*;
use vstd::string::*;

verus! {

/// File that holds the settings, inside the application's config directory.
pub const CONFIG_FILE: &'static str = "config.json";

/// Why the settings could not be written.
#[derive(Debug, PartialEq, Eq)]
pub enum ConfigError {
    Io(String),
    Serialize(String),
}

impl ConfigError {
    /// The text that [`ConfigError::message`] gives.
    pub open spec fn text(self) -> Seq<char> {
        match self {
            ConfigError::Io(cause) => "failed to write config: "@ + cause@,
            ConfigError::Serialize(cause) => "failed to serialize config: "@ + cause@,
        }
    }

    /// The error in words.
    pub fn message(&self) -> (message: String)
        ensures
            message@ == self.text(),
    {
        match self {
            ConfigError::Io(cause) => "failed to write config: ".to_string().concat(
                cause.as_str(),
            ),
            ConfigError::Serialize(cause) => "failed to serialize config: ".to_string().concat(
                cause.as_str(),
            ),
        }
    }
}

/// User settings. Contains **no secrets**: tokens live in the OS keychain.
#[derive(Debug, PartialEq, Eq)]
pub struct Config {
    /// Base URL of the Lumastra server, e.g. `https://media.example.com`.
    pub server_url: Option<String>,
    /// Global kill switch, toggled from the tray.
    pub paused: bool,
    pub enable_movies: bool,
    pub enable_series: bool,
    pub enable_music: bool,
    pub enable_audiobooks: bool,
    pub enable_livetv: bool,
    /// Attach a clickable link to the item. Off by default: it exposes the
    /// server hostname to anyone viewing the user's Discord profile.
    pub show_deep_links: bool,
}

impl Clone for Config {
    fn clone(&self) -> (copy: Self)
        ensures
            copy == *self,
    {
        Config {
            server_url: self.server_url.clone(),
            paused: self.paused,
            enable_movies: self.enable_movies,
            enable_series: self.enable_series,
            enable_music: self.enable_music,
            enable_audiobooks: self.enable_audiobooks,
            enable_livetv: self.enable_livetv,
            show_deep_links: self.show_deep_links,
        }
    }
}

/// The settings before the user has changed any.
pub open spec fn default_config() -> Config {
    Config {
        server_url: None,
        paused: false,
        enable_movies: true,
        enable_series: true,
        enable_music: true,
        enable_audiobooks: true,
        enable_livetv: true,
        show_deep_links: false,
    }
}

impl Default for Config {
    fn default() -> (config: Self)
        ensures
            config == default_config(),
    {
        Config {
            server_url: None,
            paused: false,
            enable_movies: true,
            enable_series: true,
            enable_music: true,
            enable_audiobooks: true,
            enable_livetv: true,
            show_deep_links: false,
        }
    }
}

/// The settings to run with, from what the settings file held.
pub open spec fn settings_from(stored: Option<Config>) -> Config {
    match stored {
        Some(found) => found,
        None => default_config(),
    }
}

/// What a finished replacement of the settings file means.
pub open spec fn saved_as(outcome: Result<(), SaveError>) -> Result<(), ConfigError> {
    match outcome {
        Ok(_) => Ok(()),
        Err(SaveError::Io(cause)) => Err(ConfigError::Io(cause)),
        Err(SaveError::Serialize(cause)) => Err(ConfigError::Serialize(cause)),
    }
}

impl Config {
    /// The settings with the kill switch flipped.
    pub open spec fn toggled(self) -> Config {
        Config { paused: !self.paused, ..self }
    }

    /// The switch that governs a media type; `false` for an unknown one.
    pub open spec fn enables(self, media_type: Seq<char>) -> bool {
        match media::class_of(media_type) {
            MediaClass::Movie => self.enable_movies,
            MediaClass::Series => self.enable_series,
            MediaClass::Music => self.enable_music,
            MediaClass::Audiobook => self.enable_audiobooks,
            // Live broadcasts share a switch: both are open-ended streams.
            MediaClass::LiveTv => self.enable_livetv,
            MediaClass::Radio => self.enable_livetv,
            MediaClass::Unknown => false,
        }
    }

    /// Is this session media type allowed to drive presence?
    ///
    /// The session vocabulary is deliberately wider than the public media-type
    /// table, so this matches the full set and returns `false` for anything
    /// unrecognized rather than guessing.
    pub fn is_type_enabled(&self, media_type: &str) -> (enabled: bool)
        ensures
            enabled == self.enables(media_type@),
    {
        match classify(media_type) {
            MediaClass::Movie => self.enable_movies,
            MediaClass::Series => self.enable_series,
            MediaClass::Music => self.enable_music,
            MediaClass::Audiobook => self.enable_audiobooks,
            MediaClass::LiveTv => self.enable_livetv,
            MediaClass::Radio => self.enable_livetv,
            MediaClass::Unknown => false,
        }
    }

    /// The settings to run with, from what the settings file held: `stored` is
    /// `None` for a missing or corrupt file.
    ///
    /// Never fails: a hand-edited config must not stop the app from starting.
    pub fn load(stored: Option<Config>) -> (config: Config)
        ensures
            config == settings_from(stored),
    {
        match stored {
            Some(found) => found,
            None => Config::default(),
        }
    }

    /// What a finished replacement of the settings file means for its caller.
    pub fn save(outcome: Result<(), SaveError>) -> (saved: Result<(), ConfigError>)
        ensures
            saved == saved_as(outcome),
    {
        match outcome {
            Ok(_) => Ok(()),
            Err(SaveError::Io(cause)) => Err(ConfigError::Io(cause)),
            Err(SaveError::Serialize(cause)) => Err(ConfigError::Serialize(cause)),
        }
    }

    /// Flip the kill switch, and nothing else.
    pub fn toggle_pause(&mut self)
        ensures
            *final(self) == old(self).toggled(),
    {
        self.paused = !self.paused;
    }
}

/// Each switch governs its own media types, under every spelling that occurs; a
/// media type that is not known is off, whatever the switches say.
pub proof fn law_each_switch_governs_its_media_types(config: Config, media_type: Seq<char>)
    ensures
        config.enables("movie"@) == config.enable_movies,
        config.enables("series"@) == config.enable_series,
        config.enables("tv"@) == config.enable_series,
        config.enables("episode"@) == config.enable_series,
        config.enables("season"@) == config.enable_series,
        config.enables("music"@) == config.enable_music,
        config.enables("track"@) == config.enable_music,
        config.enables("audio"@) == config.enable_music,
        config.enables("audiobook"@) == config.enable_audiobooks,
        config.enables("tvchannel"@) == config.enable_livetv,
        config.enables("radio"@) == config.enable_livetv,
        media_type != "movie"@ && media_type != "series"@ && media_type != "tv"@ && media_type
            != "episode"@ && media_type != "season"@ && media_type != "music"@ && media_type
            != "track"@ && media_type != "audio"@ && media_type != "audiobook"@ && media_type
            != "tvchannel"@ && media_type != "radio"@ ==> !config.enables(media_type),
{
    media::law_spellings_of_the_families(media_type);
}

/// What is switched on depends on the five switches alone: the server, the kill
/// switch and the deep links have no say in it.
pub proof fn law_only_the_switches_decide(config: Config, other: Config, media_type: Seq<char>)
    requires
        config.enable_movies == other.enable_movies,
        config.enable_series == other.enable_series,
        config.enable_music == other.enable_music,
        config.enable_audiobooks == other.enable_audiobooks,
        config.enable_livetv == other.enable_livetv,
    ensures
        config.enables(media_type) == other.enables(media_type),
{
}

/// Whatever was stored is what the app runs with. Where nothing readable was,
/// every media type is on, presence is not paused, no server is set, and no
/// link gives the server away.
pub proof fn law_stored_settings_win_over_the_defaults(stored: Config)
    ensures
        settings_from(Some(stored)) == stored,
        settings_from(None).server_url is None,
        !settings_from(None).paused,
        settings_from(None).enable_movies,
        settings_from(None).enable_series,
        settings_from(None).enable_music,
        settings_from(None).enable_audiobooks,
        settings_from(None).enable_livetv,
        !settings_from(None).show_deep_links,
        default_config() == settings_from(None),
{
}

/// Flipping the kill switch changes it, changes nothing else, and is undone by
/// flipping it again.
pub proof fn law_toggling_twice_changes_nothing(config: Config)
    ensures
        config.toggled().paused != config.paused,
        config.toggled().toggled() == config,
        config.toggled().server_url == config.server_url,
        config.toggled().show_deep_links == config.show_deep_links,
        forall|media_type: Seq<char>| #[trigger]
            config.toggled().enables(media_type) == config.enables(media_type),
{
}

/// Saving succeeds exactly when the file was replaced, and a failure keeps its
/// kind and its cause, which its words name.
pub proof fn law_save_errors_keep_their_cause(cause: String)
    ensures
        saved_as(Ok(())) is Ok,
        saved_as(Err(SaveError::Io(cause))) matches Err(error) && error.text()
            == "failed to write config: "@ + cause@,
        saved_as(Err(SaveError::Serialize(cause))) matches Err(error) && error.text()
            == "failed to serialize config: "@ + cause@,
{
}

} // verus!
