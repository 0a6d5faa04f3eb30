//! Shared URL construction.
//!
//! Lumastra supports subfolder deployment (e.g. `https://host/lumastra`), so
//! every request path must be appended to the configured base URL rather than
//! replacing it. [`join_path`] is the one place where that happens.

use crate::config::Config;
use crate::text::{begins_with, characters};
use vstd::prelude::*;
use vstd::string::*;

verus! {

/// What `url::Url::parse` makes of a text: the serialized URL, or the words of
/// the error.
pub uninterp spec fn url_parse(input: Seq<char>) -> Result<Seq<char>, Seq<char>>;

/// What `url::Url::join` makes of a path, on the URL that `base` parses to:
/// the serialized URL, or the words of the error.
pub uninterp spec fn url_join(base: Seq<char>, path: Seq<char>) -> Result<Seq<char>, Seq<char>>;

/// A result whose value and error are texts, as sequences of characters.
pub open spec fn texts(result: Result<String, String>) -> Result<Seq<char>, Seq<char>> {
    match result {
        Ok(value) => Ok(value@),
        Err(error) => Err(error@),
    }
}

/// A character that stands for itself in the path and the query of a web
/// address: a letter, a digit, or a mark that is neither escaped nor resolved.
pub open spec fn is_plain(c: char) -> bool {
    ||| 'a' <= c && c <= 'z'
    ||| 'A' <= c && c <= 'Z'
    ||| '0' <= c && c <= '9'
    ||| c == '/' || c == '?' || c == '=' || c == '&'
    ||| c == '-' || c == '.' || c == '_' || c == '~'
    ||| c == '!' || c == '$' || c == '(' || c == ')' || c == '*' || c == '+'
    ||| c == ',' || c == ';' || c == ':' || c == '@'
}

/// Is the segment of `path` from `start` to `end` one of the two that are
/// resolved, `.` and `..`?
pub open spec fn is_dot_segment(path: Seq<char>, start: int, end: int) -> bool {
    &&& 0 <= start < end <= path.len()
    &&& end <= start + 2
    &&& start > 0 ==> path[start - 1] == '/'
    &&& end < path.len() ==> path[end] == '/' || path[end] == '?'
    &&& path[start] == '.' && path[end - 1] == '.'
}

/// Does a slash stand before position `i`?
pub open spec fn slash_before(path: Seq<char>, i: int) -> bool {
    exists|j: int| 0 <= j < i && #[trigger] path[j] == '/'
}

/// A relative path, with or without a query, that needs no escaping or
/// resolving: plain characters throughout, no slash in front, no dot segment,
/// and no colon in the first segment, where it would end a scheme.
pub open spec fn is_plain_path(path: Seq<char>) -> bool {
    &&& path.len() > 0
    &&& path[0] != '/' && path[0] != '?'
    &&& forall|i: int| 0 <= i < path.len() ==> is_plain(#[trigger] path[i])
    &&& forall|start: int, end: int| !#[trigger] is_dot_segment(path, start, end)
    &&& forall|i: int|
        0 <= i < path.len() && #[trigger] path[i] == ':' ==> slash_before(path, i)
}

/// An address of a web server.
pub open spec fn is_web_address(serialized: Seq<char>) -> bool {
    "http:"@.is_prefix_of(serialized) || "https:"@.is_prefix_of(serialized)
}

/// Ends in a slash and has neither a query nor a fragment.
pub open spec fn is_directory(base: Seq<char>) -> bool {
    &&& base.len() > 0
    &&& base.last() == '/'
    &&& !base.contains('?')
    &&& !base.contains('#')
}

/// `url::Url::parse`: a function of its argument alone, which the name
/// `url_parse` stands for. The URL is given as its serialization and the error
/// as its words.
#[verifier::external_body]
fn parse_url(input: &str) -> (parsed: Result<String, String>)
    ensures
        texts(parsed) == url_parse(input@),
{
    url::Url::parse(input).map(String::from).map_err(|error| error.to_string())
}

/// `url::Url::join`, on the URL that `base` parses to: a function of the two
/// texts, which the name `url_join` stands for.
///
/// Claimed besides: a base that does not parse gives the error of the parse;
/// and on a web address that ends in a slash, without query or fragment, a
/// plain path is appended to the serialized base as it stands, as long as the
/// result stays below the four gigabytes that the crate supports.
#[verifier::external_body]
fn join_url(base: &str, path: &str) -> (joined: Result<String, String>)
    ensures
        texts(joined) == url_join(base@, path@),
        url_parse(base@) is Err ==> texts(joined) == url_parse(base@),
        url_parse(base@) is Ok && is_web_address(url_parse(base@)->Ok_0) && is_directory(base@)
            && is_plain_path(path@) && url_parse(base@)->Ok_0.len() + path@.len() <= u32::MAX
            ==> joined is Ok && joined->Ok_0@ == url_parse(base@)->Ok_0 + path@,
{
    let joined = url::Url::parse(base).and_then(|url| url.join(path));
    joined.map(String::from).map_err(|error| error.to_string())
}

/// The base URL with a slash at its end. A base without one would lose its
/// last segment when a path is joined onto it.
pub open spec fn with_slash(base_url: Seq<char>) -> Seq<char> {
    if base_url.len() > 0 && base_url.last() == '/' {
        base_url
    } else {
        base_url.push('/')
    }
}

/// A plain path below a web address without query or fragment, appended to the
/// address with all of its own path; `None` where this is not what is asked.
pub open spec fn appended(base_url: Seq<char>, path: Seq<char>) -> Option<Seq<char>> {
    let base = url_parse(with_slash(base_url));
    if base is Ok && is_web_address(base->Ok_0) && !base_url.contains('?') && !base_url.contains(
        '#',
    ) && is_plain_path(path) && base->Ok_0.len() + path.len() <= u32::MAX {
        Some(base->Ok_0 + path)
    } else {
        None
    }
}

/// Join an API path onto a user-configured base URL, preserving any subpath.
///
/// `path` must be relative (no leading slash).
pub fn join_path(base_url: &str, path: &str) -> (joined: Result<String, String>)
    ensures
        texts(joined) == url_join(with_slash(base_url@), path@),
        url_parse(with_slash(base_url@)) is Err ==> texts(joined) == url_parse(
            with_slash(base_url@),
        ),
        appended(base_url@, path@) matches Some(url) ==> joined is Ok && joined->Ok_0@ == url,
{
    let units = characters(base_url);
    let mut base = base_url.to_string();
    if units.len() == 0 || units[units.len() - 1] != '/' {
        base.push('/');
    }
    proof {
        if !base_url@.contains('?') && !base_url@.contains('#') {
            assert(is_directory(base@)) by {
                assert(forall|c: char| #[trigger]
                    base@.contains(c) ==> base_url@.contains(c) || c == '/');
            }
        }
    }
    join_url(base.as_str(), path)
}

/// A configured slash at the end of the base URL makes no difference, and is
/// not doubled.
pub proof fn law_trailing_slash_makes_no_difference(base_url: Seq<char>, path: Seq<char>)
    requires
        base_url.len() > 0,
        base_url.last() != '/',
    ensures
        with_slash(base_url.push('/')) == with_slash(base_url),
        url_join(with_slash(base_url.push('/')), path) == url_join(with_slash(base_url), path),
{
}

/// A plain path below a web address in normal form is appended to it: the
/// address keeps the path it has, and the slash between the two is not doubled
/// where the address is configured with one.
pub proof fn law_subpath_is_kept_and_no_slash_doubled(base_url: Seq<char>, path: Seq<char>)
    requires
        base_url.len() > 0,
        base_url.last() != '/',
        url_parse(base_url.push('/')) == Ok::<Seq<char>, Seq<char>>(base_url.push('/')),
        is_web_address(base_url.push('/')),
        !base_url.contains('?'),
        !base_url.contains('#'),
        is_plain_path(path),
        base_url.len() + 1 + path.len() <= u32::MAX,
    ensures
        appended(base_url, path) == Some(base_url.push('/') + path),
        appended(base_url.push('/'), path) == Some(base_url.push('/') + path),
{
    assert(forall|c: char| #[trigger]
        base_url.push('/').contains(c) ==> base_url.contains(c) || c == '/');
}

/// What the settings page is told about a server URL, given what the text of
/// it parses to.
pub open spec fn verdict_on(parsed: Result<Seq<char>, Seq<char>>) -> Result<(), Seq<char>> {
    match parsed {
        Err(_) => Err("Server URL is not a valid URL"@),
        Ok(serialized) => if is_web_address(serialized) {
            Ok(())
        } else {
            Err("Server URL must start with http:// or https://"@)
        },
    }
}

/// A result whose error is a text, with the text as a sequence of characters.
pub open spec fn error_text(result: Result<(), String>) -> Result<(), Seq<char>> {
    match result {
        Ok(_) => Ok(()),
        Err(error) => Err(error@),
    }
}

/// Judge a server URL by what its text parses to: it must parse, and its
/// scheme must be `http` or `https`.
///
/// The scheme of a URL is what its serialization has before the first colon.
pub fn check_parsed_url(parsed: &Result<String, String>) -> (verdict: Result<(), String>)
    ensures
        error_text(verdict) == verdict_on(texts(*parsed)),
{
    match parsed {
        Err(_) => Err("Server URL is not a valid URL".to_string()),
        Ok(serialized) => if begins_with(serialized.as_str(), "http:") || begins_with(
            serialized.as_str(),
            "https:",
        ) {
            Ok(())
        } else {
            Err("Server URL must start with http:// or https://".to_string())
        },
    }
}

/// What the settings page is told about the server of these settings. No server
/// at all is fine.
pub open spec fn server_verdict(config: Config) -> Result<(), Seq<char>> {
    match config.server_url {
        None => Ok(()),
        Some(url) => verdict_on(url_parse(url@)),
    }
}

/// May these settings be saved?
///
/// A URL that fails to parse, or lacks a scheme that [`join_path`] can build
/// on, would fail every poll with no feedback anywhere else; it is turned down
/// here, where the settings page can show it. No URL at all is fine.
pub fn check_server_url(config: &Config) -> (verdict: Result<(), String>)
    ensures
        error_text(verdict) == server_verdict(*config),
{
    match &config.server_url {
        None => Ok(()),
        Some(url) => check_parsed_url(&parse_url(url.as_str())),
    }
}

/// What is joined onto ends in exactly the slashes that the configured URL has,
/// and in one where it has none.
pub proof fn law_base_ends_in_a_slash(base_url: Seq<char>)
    ensures
        with_slash(base_url).last() == '/',
        base_url.len() > 0 && base_url.last() == '/' ==> with_slash(base_url) == base_url,
        base_url.len() == 0 || base_url.last() != '/' ==> with_slash(base_url) == base_url + seq![
            '/',
        ],
{
    assert(base_url.push('/') =~= base_url + seq!['/']);
}

/// A plain path is appended to the whole of what the configured address parses
/// to, with nothing of either left out.
pub proof fn law_path_is_appended_to_the_whole_address(
    base_url: Seq<char>,
    address: Seq<char>,
    path: Seq<char>,
)
    requires
        url_parse(with_slash(base_url)) == Ok::<Seq<char>, Seq<char>>(address),
        (address.len() >= 5 && address.take(5) == "http:"@) || (address.len() >= 6
            && address.take(6) == "https:"@),
        !base_url.contains('?'),
        !base_url.contains('#'),
        is_plain_path(path),
        address.len() + path.len() <= u32::MAX,
    ensures
        appended(base_url, path) == Some(address + path),
{
    reveal_strlit("http:");
    reveal_strlit("https:");
    law_web_addresses_are_told_by_their_scheme(address);
}

/// A web address is one whose scheme, the text up to the first colon, is `http`
/// or `https`.
pub proof fn law_web_addresses_are_told_by_their_scheme(address: Seq<char>)
    ensures
        is_web_address(address) <==> (address.len() >= 5 && address.take(5) == seq![
            'h',
            't',
            't',
            'p',
            ':',
        ]) || (address.len() >= 6 && address.take(6) == seq!['h', 't', 't', 'p', 's', ':']),
        is_web_address(address) <==> (address.len() >= 5 && address.take(5) == "http:"@) || (
        address.len() >= 6 && address.take(6) == "https:"@),
{
    reveal_strlit("http:");
    reveal_strlit("https:");
    assert("http:"@ =~= seq!['h', 't', 't', 'p', ':']);
    assert("https:"@ =~= seq!['h', 't', 't', 'p', 's', ':']);
    assert("http:"@.is_prefix_of(address) <==> (address.len() >= 5 && address.take(5)
        == "http:"@));
    assert("https:"@.is_prefix_of(address) <==> (address.len() >= 6 && address.take(6)
        == "https:"@));
}

/// A server URL is accepted exactly when it parses to a web address. The words
/// for one that does not parse and for one with another scheme differ.
pub proof fn law_server_urls_are_web_addresses(parsed: Result<Seq<char>, Seq<char>>)
    ensures
        verdict_on(parsed) is Ok <==> parsed is Ok && ((parsed->Ok_0.len() >= 5
            && parsed->Ok_0.take(5) == "http:"@) || (parsed->Ok_0.len() >= 6
            && parsed->Ok_0.take(6) == "https:"@)),
        parsed is Err ==> verdict_on(parsed) == Err::<(), Seq<char>>(
            "Server URL is not a valid URL"@,
        ),
        parsed is Ok && verdict_on(parsed) is Err ==> verdict_on(parsed) == Err::<(), Seq<char>>(
            "Server URL must start with http:// or https://"@,
        ),
{
    if parsed is Ok {
        law_web_addresses_are_told_by_their_scheme(parsed->Ok_0);
    }
}

/// Settings without a server may be saved, and settings with one exactly when
/// it parses to a web address, whatever else they say.
pub proof fn law_settings_are_judged_by_their_server(config: Config, url: String)
    ensures
        server_verdict(Config { server_url: None, ..config }) is Ok,
        ({
            let parsed = url_parse(url@);
            let verdict = server_verdict(Config { server_url: Some(url), ..config });
            &&& verdict is Ok <==> parsed is Ok && ((parsed->Ok_0.len() >= 5
                && parsed->Ok_0.take(5) == "http:"@) || (parsed->Ok_0.len() >= 6
                && parsed->Ok_0.take(6) == "https:"@))
            &&& verdict is Err && parsed is Err ==> verdict->Err_0
                == "Server URL is not a valid URL"@
            &&& verdict is Err && parsed is Ok ==> verdict->Err_0
                == "Server URL must start with http:// or https://"@
        }),
{
    law_server_urls_are_web_addresses(url_parse(url@));
}

/// A result in texts is a success exactly where the result is one, with the
/// same value, and an error otherwise, in the same words.
pub proof fn law_results_keep_their_words(value: String, error: String)
    ensures
        texts(Ok(value)) == Ok::<Seq<char>, Seq<char>>(value@),
        texts(Err(error)) == Err::<Seq<char>, Seq<char>>(error@),
        error_text(Ok(())) == Ok::<(), Seq<char>>(()),
        error_text(Err(error)) == Err::<(), Seq<char>>(error@),
{
}

} // verus!
