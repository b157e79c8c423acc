//! Reading addresses out of command-line options.

use vstd::prelude::*;
use crate::text::{strip_leading, trim_leading};
use crate::connect::url_parse;
pub use crate::connect::ConnectUrl;

verus! {

/// The pattern whose first group is the `host:port` part of an option such
/// as `http://127.0.0.1:8080`: what follows the first `://`, up to the first
/// newline after it.
pub const HOST_PORT_PATTERN: &'static str = "://(.*)/?";

/// The separator between a scheme and the rest of an option.
pub open spec fn separator() -> Seq<char> {
    seq![':', '/', '/']
}

/// The position of the first `://` in `s` at or after `from`, if any.
pub open spec fn first_separator_from(s: Seq<char>, from: int) -> Option<int>
    decreases s.len() - from,
{
    if from < 0 || from + 3 > s.len() {
        None
    } else if s.subrange(from, from + 3) == separator() {
        Some(from)
    } else {
        first_separator_from(s, from + 1)
    }
}

/// The position of the first newline in `s` at or after `from`, or the end
/// of `s` when there is none.
pub open spec fn line_end_from(s: Seq<char>, from: int) -> int
    decreases s.len() - from,
{
    if from < 0 || from >= s.len() {
        s.len() as int
    } else if s[from] == '\n' {
        from
    } else {
        line_end_from(s, from + 1)
    }
}

/// What follows the first `://` in `s`, up to the first newline after it;
/// `None` when `s` holds no `://`. This is what `HOST_PORT_PATTERN`'s group
/// captures: the leftmost match starts at the first `://`, and the greedy
/// `.*`, which matches any character but a newline, runs to the line's end.
pub open spec fn after_first_separator(s: Seq<char>) -> Option<Seq<char>> {
    match first_separator_from(s, 0) {
        Some(i) => Some(s.subrange(i + 3, line_end_from(s, i + 3))),
        None => None,
    }
}

/// The text of capture group `group` in the leftmost-first match of the
/// regex `pattern` in `haystack`, as `Regex::captures`, `Captures::get` and
/// `Match::as_str` give it; `None` when nothing matches or the group takes
/// no part in the match.
pub uninterp spec fn regex_capture(pattern: Seq<char>, haystack: Seq<char>, group: nat) -> Option<Seq<char>>;

/// Whether `url::Url::parse` accepts `input` as an absolute URL.
pub uninterp spec fn url_parses(input: Seq<char>) -> bool;

/// The serialization (`Url::as_str`) of the URL that `url::Url::parse`
/// makes of `input`.
pub uninterp spec fn url_serialization(input: Seq<char>) -> Seq<char>;

#[verifier::external_type_specification]
#[verifier::external_body]
pub struct ExRegexError(regex::Error);

/// Compiles `pattern` with `regex::Regex::new` and, when that succeeds,
/// returns group `group` of the first match in `haystack` (`Regex::captures`,
/// `Captures::get`, `Match::as_str`). The contract claims that, when the
/// pattern compiles, the group's text is `regex_capture` of the arguments;
/// and, for `HOST_PORT_PATTERN` and its group 1, what the regex crate's
/// documented semantics give: the pattern compiles, and the group is
/// `after_first_separator` of the haystack (leftmost-first matching, `.`
/// matching any character but `\n`, greedy `*`). Whether any other pattern
/// compiles is left unsaid: near the size limit it depends on the target.
#[verifier::external_body]
fn regex_capture_group(pattern: &str, haystack: &str, group: usize) -> (r: Result<Option<String>, regex::Error>)
    ensures
        r matches Ok(found) ==> (found is Some <==> regex_capture(pattern@, haystack@, group as nat) is Some),
        r matches Ok(found) ==> (found matches Some(text) ==> text@ == regex_capture(pattern@, haystack@, group as nat)->0),
        pattern@ == HOST_PORT_PATTERN@ && group == 1 ==> r is Ok,
        r matches Ok(found) ==> (pattern@ == HOST_PORT_PATTERN@ && group == 1 ==> (found is Some <==> after_first_separator(haystack@) is Some)),
        r matches Ok(found) ==> (pattern@ == HOST_PORT_PATTERN@ && group == 1 ==> (found matches Some(text) ==> text@ == after_first_separator(haystack@)->0)),
{
    match regex::Regex::new(pattern) {
        Ok(re) => match re.captures(haystack) {
            Some(caps) => match caps.get(group) {
                Some(m) => Ok(Some(m.as_str().to_string())),
                None => Ok(None),
            },
            None => Ok(None),
        },
        Err(e) => Err(e),
    }
}

/// The `host:port` part of `uri`: what `HOST_PORT_PATTERN` captures.
pub open spec fn host_port_of(uri: Seq<char>) -> Option<Seq<char>> {
    after_first_separator(uri)
}

/// Looks for the `host:port` part of `uri`: `None` when there is none.
pub fn find_host_port(uri: &String) -> (r: Option<String>)
    ensures
        r is Some <==> host_port_of(uri@) is Some,
        r matches Some(s) ==> s@ == host_port_of(uri@)->0,
{
    match regex_capture_group(HOST_PORT_PATTERN, uri.as_str(), 1) {
        Ok(found) => found,
        Err(_) => None,
    }
}

/// The `host:port` part of `uri`, such as `127.0.0.1:8080` for
/// `http://127.0.0.1:8080`.
pub fn get_host_port(uri: &String) -> (host_port: String)
    requires
        host_port_of(uri@) is Some,
    ensures
        host_port@ == host_port_of(uri@)->0,
{
    match find_host_port(uri) {
        Some(s) => s,
        None => {
            assert(false);
            String::new()
        },
    }
}

/// Why an option could not be read as a URL.
#[derive(Debug, Clone, Copy, PartialEq, Eq)]
pub enum UrlError {
    /// `url::Url::parse` refused the text.
    Invalid,
}

/// Parses `input` as an absolute URL.
pub fn parse_url(input: &str) -> (r: Result<ConnectUrl, UrlError>)
    ensures
        r is Ok <==> url_parses(input@),
        r matches Ok(u) ==> u@ == url_serialization(input@),
{
    match url_parse(input) {
        Ok(url) => Ok(url),
        Err(_) => Err(UrlError::Invalid),
    }
}

/// The scheme that names a WebSocket client output.
pub const WS_CLIENT_SCHEME: &'static str = "ws-client://";

/// The scheme under which a WebSocket client output connects.
pub const WS_SCHEME: &'static str = "ws://";

/// The URL that a WebSocket client output connects to: `ws://` followed by
/// the option with every leading `ws-client://` removed.
pub open spec fn client_url_of(option: Seq<char>) -> Seq<char> {
    WS_SCHEME@ + strip_leading(option, WS_CLIENT_SCHEME@)
}

/// Builds the URL that a WebSocket client output connects to.
pub fn client_url_text(option: &String) -> (url: String)
    ensures
        url@ == client_url_of(option@),
{
    let rest = trim_leading(option.as_str(), WS_CLIENT_SCHEME);
    String::from_str(WS_SCHEME).concat(rest)
}

/// An option made of `ws-client://` and a rest that does not itself start
/// with `ws-client://` connects to `ws://` followed by that rest.
pub proof fn lemma_client_url_swaps_scheme(rest: Seq<char>)
    requires
        !WS_CLIENT_SCHEME@.is_prefix_of(rest),
    ensures
        client_url_of(WS_CLIENT_SCHEME@ + rest) == WS_SCHEME@ + rest,
{
    reveal_strlit("ws-client://");
    let o = WS_CLIENT_SCHEME@ + rest;
    assert(o.subrange(0, WS_CLIENT_SCHEME@.len() as int) =~= WS_CLIENT_SCHEME@);
    assert(o.skip(WS_CLIENT_SCHEME@.len() as int) =~= rest);
    assert(strip_leading(rest, WS_CLIENT_SCHEME@) == rest);
    assert(strip_leading(o, WS_CLIENT_SCHEME@) == strip_leading(rest, WS_CLIENT_SCHEME@));
}

/// Stripping the leading `ws-client://` copies is idempotent: the URL of an
/// option and of the option with one more `ws-client://` in front are the
/// same.
pub proof fn lemma_client_url_ignores_repeated_scheme(option: Seq<char>)
    ensures
        client_url_of(WS_CLIENT_SCHEME@ + option) == client_url_of(option),
{
    reveal_strlit("ws-client://");
    let o = WS_CLIENT_SCHEME@ + option;
    assert(o.subrange(0, WS_CLIENT_SCHEME@.len() as int) =~= WS_CLIENT_SCHEME@);
    assert(o.skip(WS_CLIENT_SCHEME@.len() as int) =~= option);
}

/// Where a prefix already holds a `://`, its first one is also the first of
/// any longer text that starts with the prefix.
proof fn lemma_first_separator_in_prefix(prefix: Seq<char>, rest: Seq<char>, from: int)
    requires
        0 <= from,
        first_separator_from(prefix, from) is Some,
    ensures
        first_separator_from(prefix + rest, from) == first_separator_from(prefix, from),
    decreases prefix.len() - from,
{
    let whole = prefix + rest;
    assert(whole.subrange(from, from + 3) =~= prefix.subrange(from, from + 3));
    if prefix.subrange(from, from + 3) != separator() {
        lemma_first_separator_in_prefix(prefix, rest, from + 1);
    }
}

/// A line end found after a prefix is the line end in the rest, shifted.
proof fn lemma_line_end_after_prefix(prefix: Seq<char>, rest: Seq<char>, from: int)
    requires
        0 <= from <= rest.len(),
    ensures
        line_end_from(prefix + rest, prefix.len() + from) == prefix.len() + line_end_from(rest, from),
    decreases rest.len() - from,
{
    if from < rest.len() {
        assert((prefix + rest)[prefix.len() + from] == rest[from]);
        if rest[from] != '\n' {
            lemma_line_end_after_prefix(prefix, rest, from + 1);
        }
    }
}

/// The line end is never before where the search starts, nor after the end.
proof fn lemma_line_end_bounds(s: Seq<char>, from: int)
    requires
        0 <= from <= s.len(),
    ensures
        from <= line_end_from(s, from) <= s.len(),
    decreases s.len() - from,
{
    if from < s.len() && s[from] != '\n' {
        lemma_line_end_bounds(s, from + 1);
    }
}

/// For an option made of a scheme ending in its only `://` and a rest, the
/// `host:port` part is the rest up to its first newline.
pub proof fn lemma_host_port_after_scheme(scheme: Seq<char>, rest: Seq<char>)
    requires
        scheme.len() >= 3,
        first_separator_from(scheme, 0) == Some(scheme.len() - 3),
    ensures
        host_port_of(scheme + rest) == Some(rest.subrange(0, line_end_from(rest, 0))),
{
    lemma_first_separator_in_prefix(scheme, rest, 0);
    lemma_line_end_after_prefix(scheme, rest, 0);
    lemma_line_end_bounds(rest, 0);
    let whole = scheme + rest;
    let end = line_end_from(rest, 0);
    assert(whole.subrange(scheme.len() as int, scheme.len() + end) =~= rest.subrange(0, end));
}

} // verus!
