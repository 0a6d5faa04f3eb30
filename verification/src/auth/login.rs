//! Signing in and out, and what the settings page is told about it.
//!
//! Signing in begins with [`device_obtained`]. Each [`LoginStep`] says what to
//! do next; the function named at the step takes in the outcome.

use crate::auth::device_flow::{DeviceCodeResponse, DEFAULT_INTERVAL_SECONDS};
use crate::auth::dirty::TokenNews;
use crate::auth::tokens::{AuthError, Holder, TokenResponse};
use vstd::prelude::*;

verus! {

/// Where a successful sign-in's tokens ended up.
#[derive(Debug, Clone, Copy, PartialEq, Eq)]
pub enum PersistOutcome {
    /// Stored in the OS keychain: the common case on a signed release build.
    Keychain,
    /// Stored in the token file, because the keychain did not give back what
    /// was written to it, or because a debug build does not use it.
    FileFallback,
    /// Neither store could hold the tokens. The sign-in still worked for this
    /// run; it just will not survive a restart.
    NotPersisted,
}

/// Outcome of a successful sign-in.
#[derive(Debug, PartialEq, Eq)]
pub struct LoginResult {
    pub user_code: String,
    pub persist: PersistOutcome,
}

/// The page to open in the user's browser.
pub open spec fn target_of(device: DeviceCodeResponse) -> String {
    match device.verification_uri_complete {
        Some(complete) => complete,
        None => device.verification_uri,
    }
}

/// How long to wait between polls.
pub open spec fn interval_of(device: DeviceCodeResponse) -> u64 {
    match device.interval {
        Some(interval) => interval,
        None => DEFAULT_INTERVAL_SECONDS,
    }
}

/// Where the tokens ended up.
pub open spec fn persisted_as(stored: Result<Holder, AuthError>) -> PersistOutcome {
    match stored {
        Ok(Holder::Keychain) => PersistOutcome::Keychain,
        Ok(Holder::File) => PersistOutcome::FileFallback,
        Err(_) => PersistOutcome::NotPersisted,
    }
}

/// The tokens that are handed on in memory.
pub open spec fn handed_on(tokens: TokenResponse, stored: Result<Holder, AuthError>) -> Option<
    TokenResponse,
> {
    match stored {
        Ok(_) => None,
        Err(_) => Some(tokens),
    }
}

/// The page to open in the user's browser: the pre-filled one if there is one,
/// so that the user never types the code.
pub fn verification_target(device: &DeviceCodeResponse) -> (target: String)
    ensures
        target == target_of(*device),
{
    match &device.verification_uri_complete {
        Some(complete) => complete.clone(),
        None => device.verification_uri.clone(),
    }
}

/// What the settings page shows while the user is asked to approve.
#[derive(Debug, PartialEq, Eq)]
pub struct DeviceNotice {
    pub user_code: String,
    pub verification_uri: String,
    pub browser_opened: bool,
}

/// The notice for the settings page.
pub open spec fn notice_of(device: DeviceCodeResponse, browser_opened: bool) -> DeviceNotice {
    DeviceNotice {
        user_code: device.user_code,
        verification_uri: device.verification_uri,
        browser_opened,
    }
}

/// The notice for the settings page. It goes out before polling begins, so
/// that the code and the address are there to act on if the browser does not
/// open.
pub fn device_notice(device: &DeviceCodeResponse, browser_opened: bool) -> (notice: DeviceNotice)
    ensures
        notice == notice_of(*device, browser_opened),
{
    DeviceNotice {
        user_code: device.user_code.clone(),
        verification_uri: device.verification_uri.clone(),
        browser_opened,
    }
}

/// How long to wait between polls. The server may leave this out.
pub fn poll_interval(device: &DeviceCodeResponse) -> (seconds: u64)
    ensures
        seconds == interval_of(*device),
{
    match device.interval {
        Some(interval) => interval,
        None => DEFAULT_INTERVAL_SECONDS,
    }
}

/// Where the tokens ended up, from how storing them has ended. Failing to
/// store them does not fail the sign-in.
pub fn persist_outcome(stored: &Result<Holder, AuthError>) -> (outcome: PersistOutcome)
    ensures
        outcome == persisted_as(*stored),
{
    match stored {
        Ok(Holder::Keychain) => PersistOutcome::Keychain,
        Ok(Holder::File) => PersistOutcome::FileFallback,
        Err(_) => PersistOutcome::NotPersisted,
    }
}

/// What the settings page is told once the tokens are there and storing them
/// has ended in `stored`.
pub fn login_result(device: &DeviceCodeResponse, stored: &Result<Holder, AuthError>) -> (result:
    LoginResult)
    ensures
        result.user_code == device.user_code,
        result.persist == persisted_as(*stored),
{
    LoginResult { user_code: device.user_code.clone(), persist: persist_outcome(stored) }
}

/// About to open the page where the user approves.
#[derive(Debug)]
pub struct Opening {
    pub device: DeviceCodeResponse,
    pub target: String,
}

/// About to tell the settings page, and then to poll for approval.
#[derive(Debug)]
pub struct Polling {
    pub device: DeviceCodeResponse,
    pub notice: DeviceNotice,
    pub interval_seconds: u64,
}

/// About to store the tokens.
#[derive(Debug)]
pub struct Storing {
    pub device: DeviceCodeResponse,
    pub tokens: TokenResponse,
}

/// What signing in does next.
#[derive(Debug)]
pub enum LoginStep {
    /// Open the target in the browser, then [`browser_tried`].
    Open(Opening),
    /// Hand out the notice, poll for the tokens, then [`token_polled`].
    Poll(Polling),
    /// Store the tokens, then [`tokens_kept`].
    Store(Storing),
    /// Signing in has failed, for the reason given in words.
    Failed(String),
}

/// Is this the step once a device code was asked for: to open its page, or to
/// give up and say why?
pub open spec fn follows_device(
    step: LoginStep,
    result: Result<DeviceCodeResponse, AuthError>,
) -> bool {
    match result {
        Ok(device) => step matches LoginStep::Open(next) && next.device == device && next.target
            == target_of(device),
        Err(error) => step matches LoginStep::Failed(words) && words@ == error.text(),
    }
}

/// Go on once a device code was asked for.
pub fn device_obtained(result: Result<DeviceCodeResponse, AuthError>) -> (step: LoginStep)
    ensures
        follows_device(step, result),
{
    match result {
        Ok(device) => {
            let target = verification_target(&device);
            LoginStep::Open(Opening { device, target })
        },
        Err(error) => LoginStep::Failed(error.message()),
    }
}

/// Go on once the browser was opened, or would not open. Polling begins either
/// way: the notice gives the user what to act on.
pub fn browser_tried(opening: Opening, browser_opened: bool) -> (polling: Polling)
    ensures
        polling.device == opening.device,
        polling.notice == notice_of(opening.device, browser_opened),
        polling.interval_seconds == interval_of(opening.device),
{
    let notice = device_notice(&opening.device, browser_opened);
    let interval_seconds = poll_interval(&opening.device);
    Polling { device: opening.device, notice, interval_seconds }
}

/// Is this the step once polling has ended: to store the tokens, or to give up
/// and say why?
pub open spec fn follows_polling(
    step: LoginStep,
    polling: Polling,
    result: Result<TokenResponse, AuthError>,
) -> bool {
    match result {
        Ok(tokens) => step == LoginStep::Store(Storing { device: polling.device, tokens }),
        Err(error) => step matches LoginStep::Failed(words) && words@ == error.text(),
    }
}

/// Go on once polling has ended.
pub fn token_polled(polling: Polling, result: Result<TokenResponse, AuthError>) -> (step: LoginStep)
    ensures
        follows_polling(step, polling, result),
{
    match result {
        Ok(tokens) => LoginStep::Store(Storing { device: polling.device, tokens }),
        Err(error) => LoginStep::Failed(error.message()),
    }
}

/// Signing in is over once storing the tokens has ended in `stored`, well or
/// not. The poller is told to look again, or a fresh sign-in would sit behind
/// what it has kept; tokens that no store holds are handed on to it, so that
/// the sign-in works for this run all the same.
pub fn tokens_kept(
    storing: Storing,
    stored: &Result<Holder, AuthError>,
    news: &mut TokenNews,
) -> (result: LoginResult)
    ensures
        final(news).is_set(),
        final(news).handed() == handed_on(storing.tokens, *stored),
        result == (LoginResult {
            user_code: storing.device.user_code,
            persist: persisted_as(*stored),
        }),
{
    let result = login_result(&storing.device, stored);
    match stored {
        Ok(_) => news.signed_in(None),
        Err(_) => news.signed_in(Some(storing.tokens)),
    }
    result
}

/// Is this what signing out comes to: the poller told to look again, and nothing
/// handed on; or the reason, and the poller told nothing?
pub open spec fn ends_signed_out(
    cleared: Result<(), AuthError>,
    result: Result<(), String>,
    before: TokenNews,
    after: TokenNews,
) -> bool {
    match cleared {
        Ok(_) => result is Ok && after.is_set() && after.handed() is None,
        Err(error) => result is Err && result->Err_0@ == error.text() && after == before,
    }
}

/// What signing out comes to, once removing the tokens has ended in `cleared`.
/// The poller is told to look again, so that the broadcast ends with the next
/// poll; if the tokens are still there, it is not.
pub fn signed_out(cleared: Result<(), AuthError>, news: &mut TokenNews) -> (result: Result<
    (),
    String,
>)
    ensures
        ends_signed_out(cleared, result, *old(news), *final(news)),
{
    match cleared {
        Ok(_) => {
            news.signed_out();
            Ok(())
        },
        Err(error) => Err(error.message()),
    }
}

/// What the server says is taken as it is: the pre-filled page before the plain
/// one, its own pace before the default of five seconds, and the code and plain
/// page for the notice.
pub proof fn law_the_servers_word_is_taken(
    device: DeviceCodeResponse,
    page: String,
    pace: u64,
    opened: bool,
)
    ensures
        target_of(DeviceCodeResponse { verification_uri_complete: Some(page), ..device }) == page,
        target_of(DeviceCodeResponse { verification_uri_complete: None, ..device })
            == device.verification_uri,
        interval_of(DeviceCodeResponse { interval: Some(pace), ..device }) == pace,
        interval_of(DeviceCodeResponse { interval: None, ..device }) == 5,
        notice_of(device, opened).user_code == device.user_code,
        notice_of(device, opened).verification_uri == device.verification_uri,
        notice_of(device, opened).browser_opened == opened,
{
}

/// The settings page is told where the tokens really are, and they are handed
/// on in memory exactly when no store holds them.
pub proof fn law_unsaved_tokens_are_handed_on(tokens: TokenResponse, error: AuthError)
    ensures
        persisted_as(Ok(Holder::Keychain)) is Keychain,
        persisted_as(Ok(Holder::File)) is FileFallback,
        persisted_as(Err(error)) is NotPersisted,
        handed_on(tokens, Ok(Holder::Keychain)) is None,
        handed_on(tokens, Ok(Holder::File)) is None,
        handed_on(tokens, Err(error)) == Some(tokens),
{
}

/// With a device code its page is opened, with tokens they are stored, and any
/// error at all ends the sign-in, in the words of that error.
pub proof fn law_sign_in_goes_on_or_says_why(
    step: LoginStep,
    polling: Polling,
    device: DeviceCodeResponse,
    tokens: TokenResponse,
    error: AuthError,
)
    ensures
        follows_device(step, Ok(device)) ==> step is Open && step->Open_0.device == device,
        follows_device(step, Ok(device)) && device.verification_uri_complete is None
            ==> step->Open_0.target == device.verification_uri,
        follows_device(step, Ok(device)) && device.verification_uri_complete is Some
            ==> step->Open_0.target == device.verification_uri_complete->0,
        follows_device(step, Err(error)) ==> step is Failed && step->Failed_0@ == error.text(),
        follows_polling(step, polling, Ok(tokens)) ==> step is Store && step->Store_0.device
            == polling.device && step->Store_0.tokens == tokens,
        follows_polling(step, polling, Err(error)) ==> step is Failed && step->Failed_0@
            == error.text(),
{
}

/// Signing out succeeds exactly when the tokens were removed: the poller is then
/// told to look again and is handed nothing, and otherwise is told nothing.
pub proof fn law_signed_out_exactly_when_the_tokens_are_gone(
    cleared: Result<(), AuthError>,
    result: Result<(), String>,
    before: TokenNews,
    after: TokenNews,
)
    requires
        ends_signed_out(cleared, result, before, after),
    ensures
        result is Ok <==> cleared is Ok,
        result is Ok ==> after.is_set() && after.handed() is None,
        result is Err ==> after == before && result->Err_0@ == cleared->Err_0.text(),
{
}

} // verus!
