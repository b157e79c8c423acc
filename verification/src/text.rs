//! Text utilities: prefix tests, repeated prefix removal and UTF-8 decoding.

use vstd::prelude::*;
use vstd::utf8::*;
use vstd::slice::*;

verus! {

/// `s` with every leading copy of the non-empty `pattern` removed; `s` itself
/// when `pattern` is empty.
pub open spec fn strip_leading(s: Seq<char>, pattern: Seq<char>) -> Seq<char>
    decreases s.len(),
{
    if pattern.len() > 0 && pattern.is_prefix_of(s) {
        strip_leading(s.skip(pattern.len() as int), pattern)
    } else {
        s
    }
}

/// `str::starts_with` with a string pattern: true exactly when `prefix` is a
/// prefix of `s`.
#[verifier::external_body]
pub(crate) fn starts_with(s: &str, prefix: &str) -> (r: bool)
    ensures
        r == prefix@.is_prefix_of(s@),
{
    s.starts_with(prefix)
}

/// `str::strip_prefix` with a string pattern: the rest of `s` after `prefix`
/// when `s` starts with it, and `None` otherwise.
#[verifier::external_body]
pub(crate) fn strip_prefix<'a>(s: &'a str, prefix: &str) -> (r: Option<&'a str>)
    ensures
        r is Some <==> prefix@.is_prefix_of(s@),
        r matches Some(rest) ==> rest@ == s@.skip(prefix@.len() as int),
{
    s.strip_prefix(prefix)
}

/// `String::from_utf8`: succeeds exactly on valid UTF-8, with the decoded
/// characters.
#[verifier::external_body]
fn string_from_utf8(bytes: Vec<u8>) -> (r: Result<String, std::string::FromUtf8Error>)
    ensures
        r is Ok <==> valid_utf8(bytes@),
        r matches Ok(s) ==> s@ == decode_utf8(bytes@),
{
    String::from_utf8(bytes)
}

#[verifier::external_type_specification]
#[verifier::external_body]
pub struct ExFromUtf8Error(std::string::FromUtf8Error);

/// Removes every leading copy of `pattern` from `s`, as `str::trim_start_matches`
/// does with a string pattern.
pub fn trim_leading<'a>(s: &'a str, pattern: &str) -> (r: &'a str)
    ensures
        r@ == strip_leading(s@, pattern@),
{
    if pattern.is_empty() {
        return s;
    }
    let mut rest = s;
    loop
        invariant
            pattern@.len() > 0,
            strip_leading(rest@, pattern@) == strip_leading(s@, pattern@),
        decreases rest@.len(),
    {
        match strip_prefix(rest, pattern) {
            Some(shorter) => {
                rest = shorter;
            },
            None => {
                return rest;
            },
        }
    }
}

/// Decodes bytes as UTF-8 text: `None` exactly when they are not valid UTF-8.
pub fn decode_text(bytes: Vec<u8>) -> (r: Option<String>)
    ensures
        r is Some <==> valid_utf8(bytes@),
        r matches Some(s) ==> s@ == decode_utf8(bytes@),
{
    match string_from_utf8(bytes) {
        Ok(s) => Some(s),
        Err(_) => None,
    }
}

/// The text of a datagram of `len` bytes received into `buf`: `None` when
/// those bytes are not valid UTF-8.
pub fn datagram_text(buf: &[u8], len: usize) -> (r: Option<String>)
    requires
        len <= buf@.len(),
    ensures
        r is Some <==> valid_utf8(buf@.take(len as int)),
        r matches Some(s) ==> s@ == decode_utf8(buf@.take(len as int)),
{
    let received = slice_subrange(buf, 0, len);
    assert(received@ == buf@.take(len as int));
    decode_text(slice_to_vec(received))
}

} // verus!
