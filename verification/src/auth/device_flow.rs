//! OAuth device authorization (RFC 8628).

use crate::api::client;
use crate::api::client::FormRequest;
use crate::auth::tokens;
use crate::auth::tokens::{form_request, AuthError, TOKEN_PATH};
use crate::text;
use crate::text::same_text;
use crate::urls;
use crate::urls::join_path;
use vstd::prelude::*;

verus! {

/// OAuth client id for this application. Not a secret.
pub const CLIENT_ID: &'static str = "lumastra-discord-rpc";

/// Requested scope. Advisory only: the server fixes the device grant.
pub const SCOPE: &'static str = "media";

/// What this device is called on the server's approval page.
pub const DEVICE_NAME: &'static str = "Lumastra Discord RPC";

/// Path of the device authorization endpoint.
pub const DEVICE_PATH: &'static str = "oauth/device";

/// Fallback poll interval when the server omits one.
pub const DEFAULT_INTERVAL_SECONDS: u64 = 5;

/// By how much the server's `slow_down` lengthens the poll interval.
pub const SLOW_DOWN_SECONDS: u64 = 5;

/// What the server says when device authorization begins.
#[derive(Debug, Clone, PartialEq, Eq)]
pub struct DeviceCodeResponse {
    pub device_code: String,
    pub user_code: String,
    pub verification_uri: String,
    /// Pre-filled URL: opening it means the user never has to type the code.
    pub verification_uri_complete: Option<String>,
    /// Lifetime of the device code in seconds. Used as a client-side deadline
    /// so polling terminates even if the server never sends `expired_token`.
    pub expires_in: u64,
    pub interval: Option<u64>,
}

/// The form that begins device authorization.
pub open spec fn device_fields() -> Seq<(Seq<char>, Seq<char>)> {
    seq![
        ("client_id"@, CLIENT_ID@),
        ("scope"@, SCOPE@),
        ("device_name"@, DEVICE_NAME@),
    ]
}

/// Begin device authorization.
pub fn device_request(base_url: &str) -> (request: Result<FormRequest, AuthError>)
    ensures
        tokens::posts(
            request,
            urls::url_join(urls::with_slash(base_url@), DEVICE_PATH@),
            device_fields(),
        ),
        urls::appended(base_url@, DEVICE_PATH@) matches Some(url) ==> request is Ok
            && request->Ok_0.url@ == url,
{
    let fields = vec![
        ("client_id", CLIENT_ID.to_string()),
        ("scope", SCOPE.to_string()),
        ("device_name", DEVICE_NAME.to_string()),
    ];
    assert(client::field_texts(fields@) =~= device_fields());
    form_request(join_path(base_url, DEVICE_PATH), fields)
}

/// What the status of the reply means.
pub open spec fn device_verdict(status: u16) -> Result<(), AuthError> {
    if status == 200 {
        Ok(())
    } else {
        Err(AuthError::Status(status))
    }
}

/// What the status of the reply means: the body holds a device code, or an
/// error.
pub fn device_outcome(status: u16) -> (verdict: Result<(), AuthError>)
    ensures
        verdict == device_verdict(status),
{
    match status {
        200 => Ok(()),
        _ => Err(AuthError::Status(status)),
    }
}

/// The form that asks whether the user has approved.
pub open spec fn poll_fields(device_code: Seq<char>) -> Seq<(Seq<char>, Seq<char>)> {
    seq![
        ("grant_type"@, "urn:ietf:params:oauth:grant-type:device_code"@),
        ("device_code"@, device_code),
        ("client_id"@, CLIENT_ID@),
    ]
}

/// Ask whether the user has approved.
pub fn poll_request(base_url: &str, device_code: &str) -> (request: Result<FormRequest, AuthError>)
    ensures
        tokens::posts(
            request,
            urls::url_join(urls::with_slash(base_url@), TOKEN_PATH@),
            poll_fields(device_code@),
        ),
        urls::appended(base_url@, TOKEN_PATH@) matches Some(url) ==> request is Ok
            && request->Ok_0.url@ == url,
{
    let fields = vec![
        ("grant_type", "urn:ietf:params:oauth:grant-type:device_code".to_string()),
        ("device_code", device_code.to_string()),
        ("client_id", CLIENT_ID.to_string()),
    ];
    assert(client::field_texts(fields@) =~= poll_fields(device_code@));
    form_request(join_path(base_url, TOKEN_PATH), fields)
}

/// What to do after one reply to the poll.
#[derive(Debug, PartialEq, Eq)]
pub enum PollStep {
    /// The user has approved: the body holds the tokens.
    Granted,
    /// Wait this many seconds and ask again, at this interval from now on.
    Wait(u64),
    /// Give up.
    Failed(AuthError),
}

/// Is this the status of a success?
pub open spec fn is_success(status: u16) -> bool {
    200 <= status < 300
}

/// Does the server ask for a longer interval?
pub open spec fn asks_to_slow_down(status: u16, error: Option<Seq<char>>) -> bool {
    !is_success(status) && error == Some("slow_down"@)
}

/// The interval after one reply: the server's `slow_down` lengthens it for
/// good.
pub open spec fn next_interval(interval: int, status: u16, error: Option<Seq<char>>) -> int {
    if asks_to_slow_down(status, error) {
        interval + SLOW_DOWN_SECONDS
    } else {
        interval
    }
}

/// What follows a reply to the poll. `error` is the error that its body names,
/// `None` where the body is unreadable; `elapsed` is how many seconds have
/// passed since polling began. A wait that would reach the deadline is not
/// begun.
pub open spec fn step_after(
    interval: int,
    expires_in: int,
    elapsed: int,
    status: u16,
    error: Option<Seq<char>>,
) -> PollStep {
    if is_success(status) {
        PollStep::Granted
    } else if error == Some("authorization_pending"@) || error == Some("slow_down"@) {
        if elapsed + next_interval(interval, status, error) >= expires_in {
            PollStep::Failed(AuthError::Expired)
        } else {
            PollStep::Wait(next_interval(interval, status, error) as u64)
        }
    } else if error == Some("access_denied"@) {
        PollStep::Failed(AuthError::Denied)
    } else if error == Some("expired_token"@) {
        PollStep::Failed(AuthError::Expired)
    } else {
        PollStep::Failed(AuthError::Status(400))
    }
}

/// What to do after one reply while polling for approval.
///
/// `interval_seconds` is the cadence so far; the server's `slow_down` adds to
/// it. `expires_in_seconds` bounds the polling client-side: a server that
/// keeps answering `authorization_pending` would otherwise be polled forever.
/// No wait is begun that would reach that bound.
pub fn poll_for_token(
    interval_seconds: u64,
    expires_in_seconds: u64,
    elapsed_seconds: u64,
    status: u16,
    error: Option<&str>,
) -> (step: PollStep)
    ensures
        step == step_after(
            interval_seconds as int,
            expires_in_seconds as int,
            elapsed_seconds as int,
            status,
            text::option_str(error),
        ),
{
    if 200 <= status && status < 300 {
        return PollStep::Granted;
    }
    let error = match error {
        Some(error) => error,
        None => return PollStep::Failed(AuthError::Status(400)),
    };
    let interval: Option<u64> = if same_text(error, "slow_down") {
        interval_seconds.checked_add(SLOW_DOWN_SECONDS)
    } else if same_text(error, "authorization_pending") {
        // Expected for most of the flow.
        Some(interval_seconds)
    } else if same_text(error, "access_denied") {
        return PollStep::Failed(AuthError::Denied);
    } else if same_text(error, "expired_token") {
        return PollStep::Failed(AuthError::Expired);
    } else {
        return PollStep::Failed(AuthError::Status(400));
    };
    // Do not sleep past the deadline and poll once more. An interval that no
    // number holds reaches any deadline.
    match interval {
        Some(interval) if elapsed_seconds < expires_in_seconds && interval < expires_in_seconds
            - elapsed_seconds => PollStep::Wait(interval),
        _ => PollStep::Failed(AuthError::Expired),
    }
}

/// Is there time left for a request?
pub open spec fn deadline_verdict(expires_in: int, elapsed: int) -> Result<(), AuthError> {
    if elapsed < expires_in {
        Ok(())
    } else {
        Err(AuthError::Expired)
    }
}

/// May the next request still go out, `elapsed_seconds` after polling began?
/// Sleeping can take longer than was asked for.
pub fn before_deadline(expires_in_seconds: u64, elapsed_seconds: u64) -> (verdict: Result<
    (),
    AuthError,
>)
    ensures
        verdict == deadline_verdict(expires_in_seconds as int, elapsed_seconds as int),
{
    if elapsed_seconds < expires_in_seconds {
        Ok(())
    } else {
        Err(AuthError::Expired)
    }
}

/// One reply to the poll: when it came, and what it said.
pub struct PollReply {
    pub elapsed: int,
    pub status: u16,
    pub error: Option<Seq<char>>,
}

/// The interval after a number of replies.
pub open spec fn interval_after(interval: int, replies: Seq<PollReply>) -> int
    decreases replies.len(),
{
    if replies.len() == 0 {
        interval
    } else {
        let last = replies.last();
        next_interval(interval_after(interval, replies.drop_last()), last.status, last.error)
    }
}

/// Does every reply make the client wait and ask again?
pub open spec fn keeps_waiting(interval: int, expires_in: int, replies: Seq<PollReply>) -> bool {
    forall|i: int|
        0 <= i < replies.len() ==> step_after(
            interval_after(interval, replies.take(i)),
            expires_in,
            (#[trigger] replies[i]).elapsed,
            replies[i].status,
            replies[i].error,
        ) is Wait
}

/// Do the replies come at least the interval apart that was waited for?
pub open spec fn spaced_out(interval: int, replies: Seq<PollReply>) -> bool {
    &&& replies.len() > 0 ==> replies[0].elapsed >= 0
    &&& forall|i: int|
        0 < i < replies.len() ==> (#[trigger] replies[i]).elapsed >= replies[i - 1].elapsed
            + interval_after(interval, replies.take(i))
}

/// The interval never shrinks.
pub proof fn law_interval_never_shrinks(interval: int, replies: Seq<PollReply>)
    ensures
        interval_after(interval, replies) >= interval,
    decreases replies.len(),
{
    if replies.len() > 0 {
        law_interval_never_shrinks(interval, replies.drop_last());
    }
}

/// Polling ends even if the server never says so: with an interval of at least
/// one second, there are no more waits than the code lives for seconds.
pub proof fn law_polling_is_bounded(interval: int, expires_in: int, replies: Seq<PollReply>)
    requires
        interval >= 1,
        expires_in >= 0,
        keeps_waiting(interval, expires_in, replies),
        spaced_out(interval, replies),
    ensures
        replies.len() <= expires_in,
{
    if replies.len() > 0 {
        let last = replies.len() - 1;
        let reply = replies[last];
        let cadence = interval_after(interval, replies.take(last));
        lemma_time_passes(interval, replies, last);
        law_interval_never_shrinks(interval, replies.take(last));
        assert(step_after(cadence, expires_in, reply.elapsed, reply.status, reply.error) is Wait);
        lemma_wait_is_before_the_deadline(
            cadence,
            expires_in,
            reply.elapsed,
            reply.status,
            reply.error,
        );
    }
}

/// Waiting is for before the deadline only.
proof fn lemma_wait_is_before_the_deadline(
    interval: int,
    expires_in: int,
    elapsed: int,
    status: u16,
    error: Option<Seq<char>>,
)
    requires
        interval >= 0,
        step_after(interval, expires_in, elapsed, status, error) is Wait,
    ensures
        elapsed + interval < expires_in,
{
}

/// By the `i`-th reply at least `i` seconds have passed.
proof fn lemma_time_passes(interval: int, replies: Seq<PollReply>, i: int)
    requires
        interval >= 1,
        spaced_out(interval, replies),
        0 <= i < replies.len(),
    ensures
        replies[i].elapsed >= i,
    decreases i,
{
    if i > 0 {
        lemma_time_passes(interval, replies, i - 1);
        law_interval_never_shrinks(interval, replies.take(i));
    }
}

/// No reply leads to a request at or after the deadline: a wait ends before it.
pub proof fn law_no_request_at_or_after_the_deadline(
    interval: int,
    expires_in: int,
    elapsed: int,
    status: u16,
    error: Option<Seq<char>>,
)
    requires
        interval >= 0,
        0 <= expires_in <= u64::MAX,
        elapsed >= 0,
    ensures
        step_after(interval, expires_in, elapsed, status, error) matches PollStep::Wait(seconds)
            ==> elapsed + seconds < expires_in,
{
}

/// A server that only ever says "not yet" is given up on as expired, with the
/// last request before the deadline.
pub proof fn law_pending_ends_in_expiry(
    interval: int,
    expires_in: int,
    elapsed: int,
    status: u16,
    error: Option<Seq<char>>,
)
    requires
        !is_success(status),
        error == Some("authorization_pending"@) || error == Some("slow_down"@),
    ensures
        step_after(interval, expires_in, elapsed, status, error) == PollStep::Failed(
            AuthError::Expired,
        ) <==> elapsed + next_interval(interval, status, error) >= expires_in,
        elapsed + next_interval(interval, status, error) < expires_in ==> step_after(
            interval,
            expires_in,
            elapsed,
            status,
            error,
        ) is Wait,
{
}

/// The paths of the flow are plain ones, so that they keep whatever path the
/// server is deployed under.
pub proof fn law_flow_paths_are_plain()
    ensures
        urls::is_plain_path(DEVICE_PATH@),
        urls::is_plain_path(TOKEN_PATH@),
{
    reveal_strlit("oauth/device");
    reveal_strlit("oauth/token");
}

/// What each reply to the poll leads to. Every status from 200 to 299 grants,
/// whatever the body says; of the others, the named errors decide.
pub proof fn law_replies_are_told_apart(
    interval: int,
    expires_in: int,
    elapsed: int,
    status: u16,
    error: Option<Seq<char>>,
)
    ensures
        ({
            let step = step_after(interval, expires_in, elapsed, status, error);
            let granted = 200 <= status && status <= 299;
            &&& step is Granted <==> granted
            &&& !granted && error == Some("access_denied"@) ==> step == PollStep::Failed(
                AuthError::Denied,
            )
            &&& !granted && error == Some("expired_token"@) ==> step == PollStep::Failed(
                AuthError::Expired,
            )
            &&& !granted && error != Some("access_denied"@) && error != Some("expired_token"@)
                && error != Some("authorization_pending"@) && error != Some("slow_down"@) ==> step
                == PollStep::Failed(AuthError::Status(400))
        }),
{
    lemma_errors_are_spelled_differently();
}

/// Waiting goes on at the same pace while approval is pending, and five seconds
/// slower from each time on that the server asks for it.
pub proof fn law_slowing_down_adds_five_seconds(
    interval: int,
    expires_in: int,
    elapsed: int,
    status: u16,
)
    requires
        status < 200 || status > 299,
        interval >= 0,
        elapsed >= 0,
        expires_in <= u64::MAX,
    ensures
        elapsed + interval < expires_in ==> step_after(
            interval,
            expires_in,
            elapsed,
            status,
            Some("authorization_pending"@),
        ) == PollStep::Wait(interval as u64),
        elapsed + interval >= expires_in ==> step_after(
            interval,
            expires_in,
            elapsed,
            status,
            Some("authorization_pending"@),
        ) == PollStep::Failed(AuthError::Expired),
        elapsed + interval + 5 < expires_in ==> step_after(
            interval,
            expires_in,
            elapsed,
            status,
            Some("slow_down"@),
        ) == PollStep::Wait((interval + 5) as u64),
        elapsed + interval + 5 >= expires_in ==> step_after(
            interval,
            expires_in,
            elapsed,
            status,
            Some("slow_down"@),
        ) == PollStep::Failed(AuthError::Expired),
        DEFAULT_INTERVAL_SECONDS == 5,
{
    lemma_errors_are_spelled_differently();
}

/// No two of the errors are one.
proof fn lemma_errors_are_spelled_differently()
    ensures
        "authorization_pending"@ != "slow_down"@,
        "authorization_pending"@ != "access_denied"@,
        "authorization_pending"@ != "expired_token"@,
        "slow_down"@ != "access_denied"@,
        "slow_down"@ != "expired_token"@,
        "access_denied"@ != "expired_token"@,
{
    reveal_strlit("authorization_pending");
    reveal_strlit("slow_down");
    reveal_strlit("access_denied");
    reveal_strlit("expired_token");
    assert("authorization_pending"@.len() == 21 && "slow_down"@.len() == 9);
    assert("access_denied"@.len() == 13 && "expired_token"@.len() == 13);
    assert("access_denied"@[0] == 'a' && "expired_token"@[0] == 'e');
}

/// Device authorization begins with one status alone, and every other is
/// reported as it is.
pub proof fn law_device_statuses_are_told_apart(status: u16)
    ensures
        device_verdict(status) is Ok <==> status == 200,
        status != 200 ==> device_verdict(status) == Err::<(), AuthError>(
            AuthError::Status(status),
        ),
{
}

/// A request may go out as long as the code lives, and not after.
pub proof fn law_requests_end_with_the_code(expires_in: int, elapsed: int)
    ensures
        deadline_verdict(expires_in, elapsed) is Ok <==> elapsed < expires_in,
        elapsed >= expires_in ==> deadline_verdict(expires_in, elapsed) == Err::<(), AuthError>(
            AuthError::Expired,
        ),
{
}

/// The forms of the flow, field by field.
pub proof fn law_flow_forms(device_code: Seq<char>)
    ensures
        device_fields().len() == 3,
        device_fields()[0] == ("client_id"@, "lumastra-discord-rpc"@),
        device_fields()[1] == ("scope"@, "media"@),
        device_fields()[2] == ("device_name"@, "Lumastra Discord RPC"@),
        poll_fields(device_code).len() == 3,
        poll_fields(device_code)[0] == (
            "grant_type"@,
            "urn:ietf:params:oauth:grant-type:device_code"@,
        ),
        poll_fields(device_code)[1] == ("device_code"@, device_code),
        poll_fields(device_code)[2] == ("client_id"@, "lumastra-discord-rpc"@),
        DEVICE_PATH@ == "oauth/device"@,
        TOKEN_PATH@ == "oauth/token"@,
{
}

} // verus!
