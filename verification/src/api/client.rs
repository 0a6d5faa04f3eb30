//! Requests to the server, and what their outcomes mean.

use crate::text;
use crate::text::push_decimal;
use crate::urls;
use crate::urls::join_path;
use vstd::prelude::*;
use vstd::string::*;

verus! {

/// Longest that one request may take, in seconds. Applies even to the login
/// poll, which is a sequence of individual requests.
pub const REQUEST_TIMEOUT_SECONDS: u64 = 15;

/// Longest that connecting may take, in seconds.
pub const CONNECT_TIMEOUT_SECONDS: u64 = 10;

/// Why a request to the server failed. The first two carry the words of the
/// cause.
#[derive(Debug, PartialEq, Eq)]
pub enum ApiError {
    Network(String),
    Url(String),
    /// The access token was rejected. The caller refreshes and retries once.
    Unauthorized,
    /// Access permanently denied (revoked grant, disabled user, WAF rule):
    /// distinct from `Unauthorized` because refreshing cannot fix it.
    Forbidden,
    Status(u16),
}

impl ApiError {
    /// The text that [`ApiError::message`] gives.
    pub open spec fn text(self) -> Seq<char> {
        match self {
            ApiError::Network(cause) => "network error: "@ + cause@,
            ApiError::Url(cause) => "invalid server URL: "@ + cause@,
            ApiError::Unauthorized => "unauthorized"@,
            ApiError::Forbidden => "forbidden"@,
            ApiError::Status(status) => "server returned "@ + text::decimal(status as nat),
        }
    }

    /// The error in words.
    pub fn message(&self) -> (message: String)
        ensures
            message@ == self.text(),
    {
        match self {
            ApiError::Network(cause) => "network error: ".to_string().concat(cause.as_str()),
            ApiError::Url(cause) => "invalid server URL: ".to_string().concat(cause.as_str()),
            ApiError::Unauthorized => "unauthorized".to_string(),
            ApiError::Forbidden => "forbidden".to_string(),
            ApiError::Status(status) => {
                let mut message = "server returned ".to_string();
                push_decimal(&mut message, *status as u64);
                message
            },
        }
    }
}

/// A request that reads: a GET of `url` with a bearer token, asking for JSON.
#[derive(Debug, PartialEq, Eq)]
pub struct ReadRequest {
    pub url: String,
    pub bearer: String,
}

/// A request that submits a form: a POST of `fields` to `url`.
#[derive(Debug, PartialEq, Eq)]
pub struct FormRequest {
    pub url: String,
    pub fields: Vec<(&'static str, String)>,
}

/// The fields of a form as sequences of characters.
pub open spec fn field_texts(fields: Seq<(&'static str, String)>) -> Seq<(Seq<char>, Seq<char>)> {
    fields.map_values(|field: (&'static str, String)| (field.0@, field.1@))
}

/// Path of the session list. `scope=mine` is explicit even though it is the
/// server default.
pub const SESSIONS_PATH: &'static str = "api/v1/sessions?scope=mine";

/// Path of the caller's own profile.
pub const PROFILE_PATH: &'static str = "api/v1/user/profile";

/// The request that reads `url`, or the error where the URL is none.
pub open spec fn reads(
    request: Result<ReadRequest, ApiError>,
    url: Result<Seq<char>, Seq<char>>,
    access_token: Seq<char>,
) -> bool {
    match url {
        Ok(url) => request matches Ok(r) && r.url@ == url && r.bearer@ == access_token,
        Err(cause) => request matches Err(ApiError::Url(words)) && words@ == cause,
    }
}

/// The request that reads `url`, where that was a valid one.
pub fn read_request(url: Result<String, String>, access_token: &str) -> (request: Result<
    ReadRequest,
    ApiError,
>)
    ensures
        reads(request, urls::texts(url), access_token@),
{
    match url {
        Ok(url) => Ok(ReadRequest { url, bearer: access_token.to_string() }),
        Err(cause) => Err(ApiError::Url(cause)),
    }
}

/// Ask for the authenticated user's active sessions.
pub fn sessions_request(base_url: &str, access_token: &str) -> (request: Result<
    ReadRequest,
    ApiError,
>)
    ensures
        reads(
            request,
            urls::url_join(urls::with_slash(base_url@), SESSIONS_PATH@),
            access_token@,
        ),
        urls::appended(base_url@, SESSIONS_PATH@) matches Some(url) ==> request is Ok
            && request->Ok_0.url@ == url,
{
    read_request(join_path(base_url, SESSIONS_PATH), access_token)
}

/// Ask for the authenticated caller's own username.
///
/// The profile always is the caller's own, unlike the session list, which can
/// hold sessions belonging to other users. It is the anchor that sessions are
/// filtered against.
pub fn username_request(base_url: &str, access_token: &str) -> (request: Result<
    ReadRequest,
    ApiError,
>)
    ensures
        reads(
            request,
            urls::url_join(urls::with_slash(base_url@), PROFILE_PATH@),
            access_token@,
        ),
        urls::appended(base_url@, PROFILE_PATH@) matches Some(url) ==> request is Ok
            && request->Ok_0.url@ == url,
{
    read_request(join_path(base_url, PROFILE_PATH), access_token)
}

/// Both paths are plain ones, so that they keep whatever path the server is
/// deployed under.
pub proof fn law_request_paths_are_plain()
    ensures
        urls::is_plain_path(SESSIONS_PATH@),
        urls::is_plain_path(PROFILE_PATH@),
{
    reveal_strlit("api/v1/sessions?scope=mine");
    reveal_strlit("api/v1/user/profile");
}

/// What the status of a reply means.
pub open spec fn status_verdict(status: u16) -> Result<(), ApiError> {
    match status {
        200u16 => Ok(()),
        401u16 => Err(ApiError::Unauthorized),
        403u16 => Err(ApiError::Forbidden),
        _ => Err(ApiError::Status(status)),
    }
}

/// What the status of a reply means: the body is worth reading, or an error.
pub fn check_status(status: u16) -> (verdict: Result<(), ApiError>)
    ensures
        verdict == status_verdict(status),
{
    match status {
        200 => Ok(()),
        401 => Err(ApiError::Unauthorized),
        403 => Err(ApiError::Forbidden),
        _ => Err(ApiError::Status(status)),
    }
}

/// Only one status is a success, only one calls for a refresh, only one denies
/// access for good, and every other is reported as it is.
pub proof fn law_statuses_are_told_apart(status: u16)
    ensures
        status_verdict(status) is Ok <==> status == 200,
        status_verdict(status) == Err::<(), ApiError>(ApiError::Unauthorized) <==> status == 401,
        status_verdict(status) == Err::<(), ApiError>(ApiError::Forbidden) <==> status == 403,
        status != 200 && status != 401 && status != 403 ==> status_verdict(status) == Err::<
            (),
            ApiError,
        >(ApiError::Status(status)),
{
}

/// A request goes to the URL it was given with the token it was given, and an
/// invalid URL is reported in the words of its cause.
pub proof fn law_requests_carry_what_they_were_given(
    request: Result<ReadRequest, ApiError>,
    url: Seq<char>,
    cause: Seq<char>,
    access_token: Seq<char>,
)
    ensures
        reads(request, Ok(url), access_token) <==> request is Ok && request->Ok_0.url@ == url
            && request->Ok_0.bearer@ == access_token,
        reads(request, Err(cause), access_token) ==> request is Err && request->Err_0.text()
            == "invalid server URL: "@ + cause,
{
}

/// The fields of a form are taken as they are, in their order.
pub proof fn law_form_fields_are_taken_in_order(fields: Seq<(&'static str, String)>, i: int)
    requires
        0 <= i < fields.len(),
    ensures
        field_texts(fields).len() == fields.len(),
        field_texts(fields)[i] == (fields[i].0@, fields[i].1@),
{
}

/// The words of each error.
pub proof fn law_request_errors_in_words(cause: String, status: u16)
    ensures
        ApiError::Network(cause).text() == "network error: "@ + cause@,
        ApiError::Url(cause).text() == "invalid server URL: "@ + cause@,
        ApiError::Unauthorized.text() == "unauthorized"@,
        ApiError::Forbidden.text() == "forbidden"@,
        ApiError::Status(status).text() == "server returned "@ + text::decimal(status as nat),
{
}

/// The addresses that are asked, and how long a request may take.
pub proof fn law_endpoints()
    ensures
        SESSIONS_PATH@ == "api/v1/sessions?scope=mine"@,
        PROFILE_PATH@ == "api/v1/user/profile"@,
        REQUEST_TIMEOUT_SECONDS == 15,
        CONNECT_TIMEOUT_SECONDS == 10,
{
}

} // verus!
