//! Building request addresses.

use lumastra_discord_rpc::api::client::{
    check_status, read_request, sessions_request, username_request, ApiError, ReadRequest,
    CONNECT_TIMEOUT_SECONDS, REQUEST_TIMEOUT_SECONDS,
};
use lumastra_discord_rpc::urls::join_path;

#[test]
fn appends_to_an_origin_only_base() {
    assert_eq!(
        join_path("https://example.com", "api/v1/sessions?scope=mine").unwrap().as_str(),
        "https://example.com/api/v1/sessions?scope=mine"
    );
}

#[test]
fn preserves_a_subpath_base() {
    assert_eq!(
        join_path("https://example.com/lumastra", "api/v1/sessions").unwrap().as_str(),
        "https://example.com/lumastra/api/v1/sessions"
    );
}

#[test]
fn tolerates_a_trailing_slash_without_doubling_it() {
    assert_eq!(
        join_path("https://example.com/lumastra/", "api/v1/sessions").unwrap().as_str(),
        "https://example.com/lumastra/api/v1/sessions"
    );
}

#[test]
fn rejects_a_url_it_cannot_parse() {
    assert!(join_path("not a url", "api/v1/sessions").is_err());
}

#[test]
fn gives_the_words_of_the_parser_for_a_bad_base() {
    assert_eq!(join_path("not a url", "x"), Err("relative URL without a base".to_string()));
    assert_eq!(join_path("", "x"), Err("relative URL without a base".to_string()));
}

#[test]
fn normalizes_the_base_like_any_url() {
    assert_eq!(
        join_path("HTTPS://Example.com:443/a/../b", "oauth/token").unwrap(),
        "https://example.com/b/oauth/token"
    );
}

#[test]
fn appends_any_path_that_needs_no_escaping() {
    let paths = [
        "Api/V1/user-profile.json?a=1&b=2",
        "a/b.c/...d/~e",
        "x/y:z@w;v,u+t*s(r)q!p$o",
        "-/_?q=/a?b",
        "a//b/",
    ];
    for path in paths {
        for base in ["https://example.com/lumastra", "https://example.com/lumastra/"] {
            assert_eq!(
                join_path(base, path).unwrap(),
                format!("https://example.com/lumastra/{path}")
            );
        }
    }
}

#[test]
fn asks_for_the_callers_sessions_with_the_bearer_token() {
    assert_eq!(
        sessions_request("https://s.example/lumastra", "tok-123"),
        Ok(ReadRequest {
            url: "https://s.example/lumastra/api/v1/sessions?scope=mine".into(),
            bearer: "tok-123".into(),
        })
    );
}

#[test]
fn asks_for_the_callers_own_profile() {
    assert_eq!(
        username_request("https://s.example", "tok-123"),
        Ok(ReadRequest {
            url: "https://s.example/api/v1/user/profile".into(),
            bearer: "tok-123".into(),
        })
    );
}

#[test]
fn reports_a_bad_server_url_before_any_request() {
    let error = sessions_request("nowhere", "tok").unwrap_err();
    assert_eq!(error, ApiError::Url("relative URL without a base".into()));
    assert_eq!(error.message(), "invalid server URL: relative URL without a base");
    assert_eq!(username_request("nowhere", "tok").unwrap_err(), error);
    assert_eq!(read_request(Err("odd".into()), "tok"), Err(ApiError::Url("odd".into())));
}

#[test]
fn tells_replies_apart_by_their_status() {
    assert_eq!(check_status(200), Ok(()));
    assert_eq!(check_status(401), Err(ApiError::Unauthorized));
    assert_eq!(check_status(403), Err(ApiError::Forbidden));
    assert_eq!(check_status(201), Err(ApiError::Status(201)));
    assert_eq!(check_status(500), Err(ApiError::Status(500)));
}

#[test]
fn puts_request_errors_into_words() {
    assert_eq!(ApiError::Network("timed out".into()).message(), "network error: timed out");
    assert_eq!(ApiError::Unauthorized.message(), "unauthorized");
    assert_eq!(ApiError::Forbidden.message(), "forbidden");
    assert_eq!(ApiError::Status(502).message(), "server returned 502");
    assert_eq!(ApiError::Status(0).message(), "server returned 0");
}

#[test]
fn bounds_how_long_a_request_may_take() {
    assert_eq!((REQUEST_TIMEOUT_SECONDS, CONNECT_TIMEOUT_SECONDS), (15, 10));
}
