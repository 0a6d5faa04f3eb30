//! OAuth tokens: where they are kept, and how they are renewed.
//!
//! Release builds keep tokens in the OS keychain. Debug builds keep them in a
//! file that only its owner can read, because their code signature changes
//! with every build and the keychain ties its permissions to the signature. A
//! release build falls back to the same file when what it wrote to the
//! keychain cannot be read back.

use crate::api::client;
use crate::api::client::FormRequest;
use crate::auth::device_flow::CLIENT_ID;
use crate::files::SaveError;
use crate::text;
use crate::text::{push_decimal, same_option, same_text};
use crate::urls;
use crate::urls::join_path;
use vstd::prelude::*;
use vstd::string::*;

verus! {

/// Keychain service name: the entry appears under this in Keychain Access and
/// Windows Credential Manager. Release builds only.
pub const KEYCHAIN_SERVICE: &'static str = "org.lumastra.discord-rpc";

/// Keychain account name.
pub const KEYCHAIN_USER: &'static str = "tokens";

/// File that holds the tokens where the keychain does not.
pub const TOKEN_FILE: &'static str = "dev-tokens.json";

/// Names the application's own directory among the config directories.
pub const APP_IDENTIFIER: &'static str = "org.lumastra.discord-rpc";

/// Why signing in or staying signed in failed. The first four, and `Io`, carry
/// the words of the cause.
#[derive(Debug, PartialEq, Eq)]
pub enum AuthError {
    Network(String),
    Url(String),
    Keyring(String),
    Serde(String),
    /// The user rejected the authorization request.
    Denied,
    /// The device code expired before approval.
    Expired,
    /// The refresh token was rejected: re-login required. Never retried, as
    /// the server revokes the whole device session on retired-token reuse.
    RefreshRejected,
    Status(u16),
    /// A blocking call to the token store did not come back.
    BlockingTaskFailed,
    /// The token file could not be read, written, or removed.
    Io(String),
    /// The environment does not say where the token file belongs.
    NoConfigDir,
}

impl AuthError {
    /// The text that [`AuthError::message`] gives.
    pub open spec fn text(self) -> Seq<char> {
        match self {
            AuthError::Network(cause) => "network error: "@ + cause@,
            AuthError::Url(cause) => "invalid server URL: "@ + cause@,
            AuthError::Keyring(cause) => "keychain error: "@ + cause@,
            AuthError::Serde(cause) => "serialization error: "@ + cause@,
            AuthError::Denied => "authorization denied"@,
            AuthError::Expired => "device code expired"@,
            AuthError::RefreshRejected => "refresh rejected"@,
            AuthError::Status(status) => "server returned "@ + text::decimal(status as nat),
            AuthError::BlockingTaskFailed => "keychain task did not complete"@,
            AuthError::Io(cause) => "dev token file io error: "@ + cause@,
            AuthError::NoConfigDir => "could not resolve app config directory"@,
        }
    }

    /// The error in words.
    pub fn message(&self) -> (message: String)
        ensures
            message@ == self.text(),
    {
        match self {
            AuthError::Network(cause) => "network error: ".to_string().concat(cause.as_str()),
            AuthError::Url(cause) => "invalid server URL: ".to_string().concat(cause.as_str()),
            AuthError::Keyring(cause) => "keychain error: ".to_string().concat(cause.as_str()),
            AuthError::Serde(cause) => "serialization error: ".to_string().concat(cause.as_str()),
            AuthError::Denied => "authorization denied".to_string(),
            AuthError::Expired => "device code expired".to_string(),
            AuthError::RefreshRejected => "refresh rejected".to_string(),
            AuthError::Status(status) => {
                let mut message = "server returned ".to_string();
                push_decimal(&mut message, *status as u64);
                message
            },
            AuthError::BlockingTaskFailed => "keychain task did not complete".to_string(),
            AuthError::Io(cause) => "dev token file io error: ".to_string().concat(
                cause.as_str(),
            ),
            AuthError::NoConfigDir => "could not resolve app config directory".to_string(),
        }
    }
}

/// Token pair as returned by the server.
#[derive(Debug, PartialEq, Eq)]
pub struct TokenResponse {
    pub access_token: String,
    pub refresh_token: Option<String>,
    pub expires_in: Option<u64>,
}

/// A token pair with its texts as sequences of characters.
pub struct TokenView {
    pub access_token: Seq<char>,
    pub refresh_token: Option<Seq<char>>,
    pub expires_in: Option<u64>,
}

impl View for TokenResponse {
    type V = TokenView;

    open spec fn view(&self) -> TokenView {
        TokenView {
            access_token: self.access_token@,
            refresh_token: text::option_text(self.refresh_token),
            expires_in: self.expires_in,
        }
    }
}

impl Clone for TokenResponse {
    fn clone(&self) -> (copy: Self)
        ensures
            copy == *self,
    {
        TokenResponse {
            access_token: self.access_token.clone(),
            refresh_token: self.refresh_token.clone(),
            expires_in: self.expires_in,
        }
    }
}

/// Whether storing tokens, which reported success, actually round-trips:
/// compares what was stored against what reading back returns at once.
///
/// macOS binds a keychain entry to the code signature, and an ad-hoc signature
/// is derived from the binary's own hash, so a write that reports success can
/// still be unreadable, or resolve to a stale value, on the very next read.
pub fn verify_round_trip(stored: &TokenResponse, loaded: Option<&TokenResponse>) -> (same: bool)
    ensures
        same == (loaded matches Some(found) && found@ == stored@),
{
    match loaded {
        None => false,
        Some(found) => {
            let same_lifetime = match (stored.expires_in, found.expires_in) {
                (Some(a), Some(b)) => a == b,
                (None, None) => true,
                _ => false,
            };
            same_text(stored.access_token.as_str(), found.access_token.as_str()) && same_option(
                &stored.refresh_token,
                &found.refresh_token,
            ) && same_lifetime
        },
    }
}

/// How a build keeps its tokens.
#[derive(Debug, Clone, Copy, PartialEq, Eq)]
pub enum Backend {
    /// Release builds: the OS keychain, with the file to fall back on.
    Keychain,
    /// Debug builds: the file alone.
    File,
}

/// Which store ended up holding the tokens.
#[derive(Debug, Clone, Copy, PartialEq, Eq)]
pub enum Holder {
    Keychain,
    File,
}

/// What to do next to persist tokens.
#[derive(Debug, PartialEq, Eq)]
pub enum StoreStep {
    /// Write the keychain entry; [`keychain_written`] takes the outcome.
    WriteKeychain,
    /// Read the keychain entry back; [`keychain_read_back`] takes the outcome.
    ReadBack,
    /// Remove the token file, which is out of date now; then [`file_dropped`].
    DropFile,
    /// Replace the token file; [`file_written`] takes the outcome.
    /// `stale_entry` says that the keychain gives back another pair.
    WriteFile { stale_entry: bool },
    /// Remove the keychain entry, which is out of date; [`keychain_dropped`]
    /// takes the outcome.
    DropKeychain,
    /// Nothing is left to do.
    Finished(Result<Holder, AuthError>),
}

/// The first step of persisting tokens.
pub open spec fn first_step(backend: Backend) -> StoreStep {
    match backend {
        Backend::Keychain => StoreStep::WriteKeychain,
        Backend::File => StoreStep::WriteFile { stale_entry: false },
    }
}

/// Begin to persist tokens. They are never written to the config file.
pub fn store(backend: Backend) -> (step: StoreStep)
    ensures
        step == first_step(backend),
{
    match backend {
        Backend::Keychain => StoreStep::WriteKeychain,
        Backend::File => StoreStep::WriteFile { stale_entry: false },
    }
}

/// What follows writing the keychain entry.
pub open spec fn after_keychain_write(outcome: Result<(), String>) -> StoreStep {
    match outcome {
        Ok(_) => StoreStep::ReadBack,
        Err(cause) => StoreStep::Finished(Err(AuthError::Keyring(cause))),
    }
}

/// What follows reading the keychain entry back.
pub open spec fn after_read_back(stored: TokenView, loaded: Option<TokenView>) -> StoreStep {
    if loaded == Some(stored) {
        StoreStep::DropFile
    } else {
        StoreStep::WriteFile { stale_entry: loaded is Some }
    }
}

/// What follows replacing the token file; `None` says that the environment
/// names no place for it.
pub open spec fn after_file_write(
    stale_entry: bool,
    outcome: Option<Result<(), SaveError>>,
) -> StoreStep {
    match outcome {
        None => StoreStep::Finished(Err(AuthError::NoConfigDir)),
        Some(Ok(_)) => if stale_entry {
            StoreStep::DropKeychain
        } else {
            StoreStep::Finished(Ok(Holder::File))
        },
        Some(Err(SaveError::Io(cause))) => StoreStep::Finished(Err(AuthError::Io(cause))),
        Some(Err(SaveError::Serialize(cause))) => StoreStep::Finished(
            Err(AuthError::Serde(cause)),
        ),
    }
}

/// What follows removing an entry that is out of date.
pub open spec fn after_keychain_drop(removal: Removal) -> StoreStep {
    match removal {
        Removal::Failed(cause) => StoreStep::Finished(Err(AuthError::Keyring(cause))),
        _ => StoreStep::Finished(Ok(Holder::File)),
    }
}

/// Take in the outcome of writing the keychain entry. A keychain that reports
/// an error is not worked around.
pub fn keychain_written(outcome: Result<(), String>) -> (step: StoreStep)
    ensures
        step == after_keychain_write(outcome),
{
    match outcome {
        Ok(_) => StoreStep::ReadBack,
        Err(cause) => StoreStep::Finished(Err(AuthError::Keyring(cause))),
    }
}

/// Take in what reading the keychain entry back gave. An entry that does not
/// hold what was just written is no store to rely on: the file is used.
pub fn keychain_read_back(stored: &TokenResponse, loaded: Option<&TokenResponse>) -> (step:
    StoreStep)
    ensures
        step == after_read_back(stored@, token_view(loaded)),
{
    if verify_round_trip(stored, loaded) {
        StoreStep::DropFile
    } else {
        StoreStep::WriteFile { stale_entry: loaded.is_some() }
    }
}

/// Persisting has ended once the token file was tried to be removed. A file
/// that could not be removed does no harm: the keychain is read first.
pub fn file_dropped() -> (step: StoreStep)
    ensures
        step == StoreStep::Finished(Ok(Holder::Keychain)),
{
    StoreStep::Finished(Ok(Holder::Keychain))
}

/// An optional borrowed token pair with its texts as sequences of characters.
pub open spec fn token_view(tokens: Option<&TokenResponse>) -> Option<TokenView> {
    match tokens {
        Some(tokens) => Some(tokens@),
        None => None,
    }
}

/// Take in the outcome of replacing the token file; `None` says that the
/// environment names no place for it.
pub fn file_written(stale_entry: bool, outcome: Option<Result<(), SaveError>>) -> (step: StoreStep)
    ensures
        step == after_file_write(stale_entry, outcome),
{
    match outcome {
        None => StoreStep::Finished(Err(AuthError::NoConfigDir)),
        Some(Ok(_)) => if stale_entry {
            StoreStep::DropKeychain
        } else {
            StoreStep::Finished(Ok(Holder::File))
        },
        Some(Err(SaveError::Io(cause))) => StoreStep::Finished(Err(AuthError::Io(cause))),
        Some(Err(SaveError::Serialize(cause))) => StoreStep::Finished(
            Err(AuthError::Serde(cause)),
        ),
    }
}

/// How removing the tokens from one store has ended.
#[derive(Debug, PartialEq, Eq)]
pub enum Removal {
    Removed,
    /// There was nothing to remove.
    Absent,
    Failed(String),
}

/// Take in the outcome of removing a keychain entry that is out of date. While
/// it is there, it would be read in place of the file after a restart, so the
/// tokens do not count as persisted.
pub fn keychain_dropped(removal: Removal) -> (step: StoreStep)
    ensures
        step == after_keychain_drop(removal),
{
    match removal {
        Removal::Failed(cause) => StoreStep::Finished(Err(AuthError::Keyring(cause))),
        _ => StoreStep::Finished(Ok(Holder::File)),
    }
}

/// The pair to use, from what each store holds.
pub open spec fn pair_in_use(
    keychain_active: bool,
    keychain: Option<TokenResponse>,
    file: Option<TokenResponse>,
) -> Option<TokenResponse> {
    if keychain_active && keychain is Some {
        keychain
    } else {
        file
    }
}

/// The tokens to use, from what each store holds: `None` for a store that
/// holds none or cannot be read. `keychain_active` is false in debug builds
/// and once a write has fallen back to the file.
pub fn load(
    keychain_active: bool,
    keychain: Option<TokenResponse>,
    file: Option<TokenResponse>,
) -> (tokens: Option<TokenResponse>)
    ensures
        tokens == pair_in_use(keychain_active, keychain, file),
{
    if keychain_active && keychain.is_some() {
        keychain
    } else {
        file
    }
}

/// Are the tokens read from the keychain first, after storing them?
pub open spec fn active_after(keychain_active: bool, outcome: Result<Holder, AuthError>) -> bool {
    match outcome {
        Ok(holder) => holder is Keychain,
        Err(_) => keychain_active,
    }
}

/// Are the tokens read from the keychain first from now on, once storing them
/// has ended in `outcome`? They are if it holds them, and not if the file does;
/// a failure to store them changes nothing.
pub fn keychain_active_after(keychain_active: bool, outcome: &Result<Holder, AuthError>) -> (active:
    bool)
    ensures
        active == active_after(keychain_active, *outcome),
{
    match outcome {
        Ok(Holder::Keychain) => true,
        Ok(Holder::File) => false,
        Err(_) => keychain_active,
    }
}

/// What removing the stored tokens comes to.
pub open spec fn cleared_as(backend: Backend, keychain: Removal, file: Option<Removal>) -> Result<
    (),
    AuthError,
> {
    match (keychain, file) {
        (Removal::Failed(cause), _) => Err(AuthError::Keyring(cause)),
        (_, Some(Removal::Failed(cause))) => Err(AuthError::Io(cause)),
        (_, None) => match backend {
            Backend::File => Err(AuthError::NoConfigDir),
            Backend::Keychain => Ok(()),
        },
        _ => Ok(()),
    }
}

/// Take in how removing the stored tokens has ended. `file` is `None` where the
/// environment names no place for the token file, which leaves a debug build
/// without a store.
///
/// Absent entries are not an error: this runs on logout and on a rejected
/// refresh, either of which may find nothing there.
pub fn clear(backend: Backend, keychain: Removal, file: Option<Removal>) -> (cleared: Result<
    (),
    AuthError,
>)
    ensures
        cleared == cleared_as(backend, keychain, file),
{
    match keychain {
        Removal::Failed(cause) => Err(AuthError::Keyring(cause)),
        _ => match file {
            Some(Removal::Failed(cause)) => Err(AuthError::Io(cause)),
            Some(_) => Ok(()),
            None => match backend {
                Backend::File => Err(AuthError::NoConfigDir),
                Backend::Keychain => Ok(()),
            },
        },
    }
}

/// The systems that keep their config directories in different places.
#[derive(Debug, Clone, Copy, PartialEq, Eq)]
pub enum Platform {
    MacOs,
    Windows,
    /// Linux and the other Unix systems.
    Unix,
}

/// The value of an environment variable. Its contents are not looked into.
#[derive(Debug, Clone, Copy, PartialEq, Eq)]
pub struct EnvValue<T> {
    pub value: T,
    pub is_empty: bool,
}

/// A directory: one that the environment names, and the way down from there.
#[derive(Debug, PartialEq, Eq)]
pub struct ConfigDir<T> {
    pub base: T,
    pub segments: Vec<&'static str>,
}

/// Segments as sequences of characters.
pub open spec fn segment_texts(segments: Seq<&'static str>) -> Seq<Seq<char>> {
    segments.map_values(|segment: &'static str| segment@)
}

/// The named directory and the way down to the application's own, if the
/// platform's governing variable is set.
///
/// - **macOS:** `$HOME/Library/Application Support/<identifier>`
/// - **Windows:** `%APPDATA%\\<identifier>`, never below `HOME`
/// - **Unix:** `$XDG_CONFIG_HOME/<identifier>`, or
///   `$HOME/.config/<identifier>` when `XDG_CONFIG_HOME` is unset or empty
pub open spec fn config_dir_of<T>(
    platform: Platform,
    home: Option<EnvValue<T>>,
    appdata: Option<EnvValue<T>>,
    xdg_config_home: Option<EnvValue<T>>,
) -> Option<(T, Seq<Seq<char>>)> {
    match platform {
        Platform::MacOs => match home {
            Some(home) => Some(
                (home.value, seq!["Library"@, "Application Support"@, APP_IDENTIFIER@]),
            ),
            None => None,
        },
        Platform::Windows => match appdata {
            Some(appdata) => Some((appdata.value, seq![APP_IDENTIFIER@])),
            None => None,
        },
        Platform::Unix => if xdg_config_home is Some && !xdg_config_home->0.is_empty {
            Some((xdg_config_home->0.value, seq![APP_IDENTIFIER@]))
        } else {
            match home {
                Some(home) => Some((home.value, seq![".config"@, APP_IDENTIFIER@])),
                None => None,
            }
        },
    }
}

/// Resolve the app's config directory from the environment.
///
/// `None` when the platform's governing variable is unavailable; callers must
/// treat that as "no store available" rather than panicking.
pub fn config_dir_from<T>(
    platform: Platform,
    home: Option<EnvValue<T>>,
    appdata: Option<EnvValue<T>>,
    xdg_config_home: Option<EnvValue<T>>,
) -> (dir: Option<ConfigDir<T>>)
    ensures
        dir is Some <==> config_dir_of(platform, home, appdata, xdg_config_home) is Some,
        dir matches Some(found) ==> config_dir_of(platform, home, appdata, xdg_config_home)->0 == (
            found.base,
            segment_texts(found.segments@),
        ),
{
    match platform {
        Platform::MacOs => match home {
            Some(home) => {
                let segments = vec!["Library", "Application Support", APP_IDENTIFIER];
                assert(segment_texts(segments@) =~= seq![
                    "Library"@,
                    "Application Support"@,
                    APP_IDENTIFIER@,
                ]);
                Some(ConfigDir { base: home.value, segments })
            },
            None => None,
        },
        Platform::Windows => match appdata {
            Some(appdata) => {
                let segments = vec![APP_IDENTIFIER];
                assert(segment_texts(segments@) =~= seq![APP_IDENTIFIER@]);
                Some(ConfigDir { base: appdata.value, segments })
            },
            None => None,
        },
        Platform::Unix => match xdg_config_home {
            Some(xdg) if !xdg.is_empty => {
                let segments = vec![APP_IDENTIFIER];
                assert(segment_texts(segments@) =~= seq![APP_IDENTIFIER@]);
                Some(ConfigDir { base: xdg.value, segments })
            },
            _ => match home {
                Some(home) => {
                    let segments = vec![".config", APP_IDENTIFIER];
                    assert(segment_texts(segments@) =~= seq![".config"@, APP_IDENTIFIER@]);
                    Some(ConfigDir { base: home.value, segments })
                },
                None => None,
            },
        },
    }
}

/// Path of the token endpoint.
pub const TOKEN_PATH: &'static str = "oauth/token";

/// The request that posts `fields` to `url`, or the error where the URL is
/// none.
pub open spec fn posts(
    request: Result<FormRequest, AuthError>,
    url: Result<Seq<char>, Seq<char>>,
    fields: Seq<(Seq<char>, Seq<char>)>,
) -> bool {
    match url {
        Ok(url) => request matches Ok(r) && r.url@ == url && client::field_texts(r.fields@) == fields,
        Err(cause) => request matches Err(AuthError::Url(words)) && words@ == cause,
    }
}

/// The request that posts `fields` to `url`, where that was a valid one.
pub fn form_request(url: Result<String, String>, fields: Vec<(&'static str, String)>) -> (request:
    Result<FormRequest, AuthError>)
    ensures
        posts(request, urls::texts(url), client::field_texts(fields@)),
{
    match url {
        Ok(url) => Ok(FormRequest { url, fields }),
        Err(cause) => Err(AuthError::Url(cause)),
    }
}

/// The form that exchanges a refresh token.
pub open spec fn refresh_fields(refresh_token: Seq<char>) -> Seq<(Seq<char>, Seq<char>)> {
    seq![
        ("grant_type"@, "refresh_token"@),
        ("refresh_token"@, refresh_token),
        ("client_id"@, CLIENT_ID@),
    ]
}

/// Exchange a refresh token for a fresh pair.
///
/// The server **rotates** refresh tokens, so the returned `refresh_token` must
/// replace the stored one. Reusing a retired token revokes the device session.
pub fn refresh_request(base_url: &str, refresh_token: &str) -> (request: Result<
    FormRequest,
    AuthError,
>)
    ensures
        posts(
            request,
            urls::url_join(urls::with_slash(base_url@), TOKEN_PATH@),
            refresh_fields(refresh_token@),
        ),
        urls::appended(base_url@, TOKEN_PATH@) matches Some(url) ==> request is Ok
            && request->Ok_0.url@ == url,
{
    let fields = vec![
        ("grant_type", "refresh_token".to_string()),
        ("refresh_token", refresh_token.to_string()),
        ("client_id", CLIENT_ID.to_string()),
    ];
    assert(client::field_texts(fields@) =~= refresh_fields(refresh_token@));
    form_request(join_path(base_url, TOKEN_PATH), fields)
}

/// What the status of a reply to a refresh means.
pub open spec fn refresh_verdict(status: u16) -> Result<(), AuthError> {
    match status {
        200u16 => Ok(()),
        400u16 => Err(AuthError::RefreshRejected),
        401u16 => Err(AuthError::RefreshRejected),
        _ => Err(AuthError::Status(status)),
    }
}

/// What the status of a reply to a refresh means: the body holds a fresh pair,
/// or an error.
pub fn refresh_outcome(status: u16) -> (verdict: Result<(), AuthError>)
    ensures
        verdict == refresh_verdict(status),
{
    match status {
        200 => Ok(()),
        400 | 401 => Err(AuthError::RefreshRejected),
        _ => Err(AuthError::Status(status)),
    }
}

/// What each store gives when it is read.
pub struct Stores {
    pub keychain: Option<TokenResponse>,
    pub file: Option<TokenResponse>,
}

/// How the steps of persisting a pair end.
pub struct StoreAnswers {
    pub keychain_write: Result<(), String>,
    /// What the keychain gives once the pair was written to it.
    pub read_back: Option<TokenResponse>,
    pub file_write: Option<Result<(), SaveError>>,
    pub file_drop: Removal,
    pub keychain_drop: Removal,
}

/// Steps that can still follow a step.
pub open spec fn store_steps_left(step: StoreStep) -> nat {
    match step {
        StoreStep::WriteKeychain => 4,
        StoreStep::ReadBack => 3,
        StoreStep::WriteFile { .. } => 2,
        StoreStep::DropFile => 1,
        StoreStep::DropKeychain => 1,
        StoreStep::Finished(_) => 0,
    }
}

/// How persisting a pair ends from `step` on, and what the stores give then. A
/// file that was written gives back what was written to it, and an entry that
/// was removed gives nothing.
pub open spec fn persisted(
    step: StoreStep,
    tokens: TokenResponse,
    answers: StoreAnswers,
    stores: Stores,
) -> (Result<Holder, AuthError>, Stores)
    decreases store_steps_left(step),
{
    match step {
        StoreStep::WriteKeychain => persisted(
            after_keychain_write(answers.keychain_write),
            tokens,
            answers,
            Stores { keychain: answers.read_back, ..stores },
        ),
        StoreStep::ReadBack => persisted(
            after_read_back(
                tokens@,
                match answers.read_back {
                    Some(found) => Some(found@),
                    None => None,
                },
            ),
            tokens,
            answers,
            stores,
        ),
        StoreStep::WriteFile { stale_entry } => persisted(
            after_file_write(stale_entry, answers.file_write),
            tokens,
            answers,
            if answers.file_write matches Some(Ok(_)) {
                Stores { file: Some(tokens), ..stores }
            } else {
                stores
            },
        ),
        StoreStep::DropFile => (
            Ok(Holder::Keychain),
            if answers.file_drop is Failed {
                stores
            } else {
                Stores { file: None, ..stores }
            },
        ),
        StoreStep::DropKeychain => persisted(
            after_keychain_drop(answers.keychain_drop),
            tokens,
            answers,
            if answers.keychain_drop is Failed {
                stores
            } else {
                Stores { keychain: None, ..stores }
            },
        ),
        StoreStep::Finished(outcome) => (outcome, stores),
    }
}

/// Loading gives back what storing has kept: at once, and after a restart, when
/// a release build starts out with the keychain again. What either store held
/// before makes no difference.
pub proof fn law_load_gives_back_what_store_kept(
    backend: Backend,
    tokens: TokenResponse,
    answers: StoreAnswers,
    before: Stores,
)
    ensures
        ({
            let (outcome, after) = persisted(first_step(backend), tokens, answers, before);
            outcome matches Ok(holder) ==> {
                &&& pair_in_use(holder is Keychain, after.keychain, after.file) matches Some(pair)
                &&& pair@ == tokens@
                &&& pair_in_use(backend is Keychain, after.keychain, after.file) matches Some(
                    again,
                )
                &&& again@ == tokens@
            }
        }),
{
    reveal_with_fuel(persisted, 5);
}

/// Tokens count as held by the keychain only where they were read back from it
/// unchanged; otherwise they go to the file, and a debug build never touches
/// the keychain.
pub proof fn law_keychain_is_trusted_only_after_reading_back(
    tokens: TokenResponse,
    answers: StoreAnswers,
    before: Stores,
)
    ensures
        persisted(first_step(Backend::Keychain), tokens, answers, before).0 == Ok::<
            Holder,
            AuthError,
        >(Holder::Keychain) <==> answers.keychain_write is Ok && answers.read_back is Some
            && answers.read_back->0@ == tokens@,
        persisted(first_step(Backend::File), tokens, answers, before).0 != Ok::<
            Holder,
            AuthError,
        >(Holder::Keychain),
        persisted(first_step(Backend::File), tokens, answers, before).1.keychain
            == before.keychain,
{
    reveal_with_fuel(persisted, 5);
}

/// Windows never looks below `HOME`, which other tools set there too, and the
/// token file always lies in a directory of the application's own.
pub proof fn law_config_dir_is_the_platforms_own<T>(
    platform: Platform,
    home: Option<EnvValue<T>>,
    other_home: Option<EnvValue<T>>,
    appdata: Option<EnvValue<T>>,
    xdg_config_home: Option<EnvValue<T>>,
)
    ensures
        config_dir_of(Platform::Windows, home, appdata, xdg_config_home) == config_dir_of(
            Platform::Windows,
            other_home,
            appdata,
            xdg_config_home,
        ),
        config_dir_of(platform, home, appdata, xdg_config_home) matches Some((base, segments))
            ==> segments.last() == APP_IDENTIFIER@,
        xdg_config_home matches Some(xdg) && xdg.is_empty ==> config_dir_of(
            Platform::Unix,
            home,
            appdata,
            xdg_config_home,
        ) == config_dir_of(Platform::Unix, home, appdata, None),
{
}

/// Only one status gives a fresh pair, two reject the refresh token for good,
/// and every other is reported as it is.
pub proof fn law_refresh_statuses_are_told_apart(status: u16)
    ensures
        refresh_verdict(status) is Ok <==> status == 200,
        refresh_verdict(status) == Err::<(), AuthError>(AuthError::RefreshRejected) <==> status
            == 400 || status == 401,
        status != 200 && status != 400 && status != 401 ==> refresh_verdict(status) == Err::<
            (),
            AuthError,
        >(AuthError::Status(status)),
{
}

/// The form of a refresh: what is granted, the token that is exchanged, and who
/// asks, in this order.
pub proof fn law_refresh_form(refresh_token: Seq<char>)
    ensures
        refresh_fields(refresh_token).len() == 3,
        refresh_fields(refresh_token)[0] == ("grant_type"@, "refresh_token"@),
        refresh_fields(refresh_token)[1] == ("refresh_token"@, refresh_token),
        refresh_fields(refresh_token)[2] == ("client_id"@, "lumastra-discord-rpc"@),
        TOKEN_PATH@ == "oauth/token"@,
{
}

/// A form goes to the URL it was given with the fields it was given, and an
/// invalid URL is reported in the words of its cause.
pub proof fn law_forms_carry_what_they_were_given(
    request: Result<FormRequest, AuthError>,
    url: Seq<char>,
    cause: Seq<char>,
    fields: Seq<(Seq<char>, Seq<char>)>,
)
    ensures
        posts(request, Ok(url), fields) <==> request is Ok && request->Ok_0.url@ == url
            && client::field_texts(request->Ok_0.fields@) == fields,
        posts(request, Err(cause), fields) ==> request is Err && request->Err_0.text()
            == "invalid server URL: "@ + cause,
{
}

/// A pair is its three parts: two pairs are taken for the same only if all of
/// them agree.
pub proof fn law_pairs_are_compared_by_every_part(a: TokenResponse, b: TokenResponse)
    ensures
        a@ == b@ <==> a.access_token@ == b.access_token@ && a.expires_in == b.expires_in && (
        a.refresh_token is Some <==> b.refresh_token is Some) && (a.refresh_token is Some
            && b.refresh_token is Some ==> a.refresh_token->0@ == b.refresh_token->0@),
        token_view(Some(&a)) == Some(a@),
        token_view(None) is None,
{
}

/// A pair that the keychain gives back unchanged is kept there and the file
/// dropped; anything else goes to the file, and an entry that holds another
/// pair is removed after that.
pub proof fn law_store_steps(
    stored: TokenView,
    loaded: Option<TokenView>,
    cause: String,
    stale_entry: bool,
)
    ensures
        first_step(Backend::Keychain) is WriteKeychain,
        first_step(Backend::File) == (StoreStep::WriteFile { stale_entry: false }),
        after_keychain_write(Ok(())) is ReadBack,
        after_keychain_write(Err(cause)) == StoreStep::Finished(Err(AuthError::Keyring(cause))),
        after_read_back(stored, loaded) is DropFile <==> loaded is Some && loaded->0 == stored,
        loaded is None ==> after_read_back(stored, loaded) == (StoreStep::WriteFile {
            stale_entry: false,
        }),
        loaded is Some && loaded->0 != stored ==> after_read_back(stored, loaded) == (
        StoreStep::WriteFile { stale_entry: true }),
        after_file_write(false, Some(Ok(()))) == StoreStep::Finished(Ok(Holder::File)),
        after_file_write(true, Some(Ok(()))) is DropKeychain,
        after_file_write(stale_entry, None) == StoreStep::Finished(Err(AuthError::NoConfigDir)),
        after_file_write(stale_entry, Some(Err(SaveError::Io(cause)))) == StoreStep::Finished(
            Err(AuthError::Io(cause)),
        ),
        after_file_write(stale_entry, Some(Err(SaveError::Serialize(cause))))
            == StoreStep::Finished(Err(AuthError::Serde(cause))),
        after_keychain_drop(Removal::Removed) == StoreStep::Finished(Ok(Holder::File)),
        after_keychain_drop(Removal::Absent) == StoreStep::Finished(Ok(Holder::File)),
        after_keychain_drop(Removal::Failed(cause)) == StoreStep::Finished(
            Err(AuthError::Keyring(cause)),
        ),
{
}

/// The keychain is read first while it is active, and the file only where the
/// keychain has nothing to give; an inactive keychain is not looked at.
pub proof fn law_keychain_comes_before_the_file(
    keychain: Option<TokenResponse>,
    file: Option<TokenResponse>,
    pair: TokenResponse,
    error: AuthError,
    active: bool,
)
    ensures
        pair_in_use(true, Some(pair), file) == Some(pair),
        pair_in_use(true, None, file) == file,
        pair_in_use(false, keychain, file) == file,
        active_after(active, Ok(Holder::Keychain)),
        !active_after(active, Ok(Holder::File)),
        active_after(active, Err(error)) == active,
{
}

/// Removing succeeds exactly when no store failed to remove what it held, and a
/// debug build has a store at all. The keychain's error is reported first.
pub proof fn law_clearing_fails_only_with_a_store(
    backend: Backend,
    keychain: Removal,
    file: Option<Removal>,
    cause: String,
)
    ensures
        cleared_as(backend, keychain, file) is Ok <==> !(keychain is Failed) && (file matches Some(
            removal,
        ) ==> !(removal is Failed)) && (file is Some || backend is Keychain),
        cleared_as(backend, Removal::Failed(cause), file) == Err::<(), AuthError>(
            AuthError::Keyring(cause),
        ),
        !(keychain is Failed) ==> cleared_as(backend, keychain, Some(Removal::Failed(cause)))
            == Err::<(), AuthError>(AuthError::Io(cause)),
        !(keychain is Failed) ==> cleared_as(Backend::File, keychain, None) == Err::<
            (),
            AuthError,
        >(AuthError::NoConfigDir),
{
}

/// The config directory of each platform, segment by segment.
pub proof fn law_config_directories<T>(
    home: EnvValue<T>,
    appdata: EnvValue<T>,
    xdg: EnvValue<T>,
    any_home: Option<EnvValue<T>>,
    any_appdata: Option<EnvValue<T>>,
    any_xdg: Option<EnvValue<T>>,
)
    ensures
        config_dir_of(Platform::MacOs, Some(home), any_appdata, any_xdg) == Some(
            (
                home.value,
                seq!["Library"@, "Application Support"@, "org.lumastra.discord-rpc"@],
            ),
        ),
        config_dir_of(Platform::MacOs, None, any_appdata, any_xdg) is None,
        config_dir_of(Platform::Windows, any_home, Some(appdata), any_xdg) == Some(
            (appdata.value, seq!["org.lumastra.discord-rpc"@]),
        ),
        config_dir_of(Platform::Windows, any_home, None, any_xdg) is None,
        !xdg.is_empty ==> config_dir_of(Platform::Unix, any_home, any_appdata, Some(xdg)) == Some(
            (xdg.value, seq!["org.lumastra.discord-rpc"@]),
        ),
        any_xdg is None || any_xdg->0.is_empty ==> config_dir_of(
            Platform::Unix,
            Some(home),
            any_appdata,
            any_xdg,
        ) == Some((home.value, seq![".config"@, "org.lumastra.discord-rpc"@])),
        any_xdg is None || any_xdg->0.is_empty ==> config_dir_of(
            Platform::Unix,
            None,
            any_appdata,
            any_xdg,
        ) is None,
{
}

/// Segments are taken as they are, in their order.
pub proof fn law_segments_are_taken_in_order(segments: Seq<&'static str>, i: int)
    requires
        0 <= i < segments.len(),
    ensures
        segment_texts(segments).len() == segments.len(),
        segment_texts(segments)[i] == segments[i]@,
{
}

/// The words of each error.
pub proof fn law_sign_in_errors_in_words(cause: String, status: u16)
    ensures
        AuthError::Network(cause).text() == "network error: "@ + cause@,
        AuthError::Url(cause).text() == "invalid server URL: "@ + cause@,
        AuthError::Keyring(cause).text() == "keychain error: "@ + cause@,
        AuthError::Serde(cause).text() == "serialization error: "@ + cause@,
        AuthError::Denied.text() == "authorization denied"@,
        AuthError::Expired.text() == "device code expired"@,
        AuthError::RefreshRejected.text() == "refresh rejected"@,
        AuthError::Status(status).text() == "server returned "@ + text::decimal(status as nat),
        AuthError::BlockingTaskFailed.text() == "keychain task did not complete"@,
        AuthError::Io(cause).text() == "dev token file io error: "@ + cause@,
        AuthError::NoConfigDir.text() == "could not resolve app config directory"@,
{
}

} // verus!
