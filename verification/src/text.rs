//! Operations on text that the rest of the library is stated over.

use vstd::prelude::*;
use vstd::utf8::*;
use crate::error::Failure;

verus! {

/// `text` with every occurrence of `from` replaced by `to`.
pub open spec fn replaced(text: Seq<char>, from: char, to: Seq<char>) -> Seq<char>
    decreases text.len(),
{
    if text.len() == 0 {
        text
    } else if text[0] == from {
        to + replaced(text.skip(1), from, to)
    } else {
        seq![text[0]] + replaced(text.skip(1), from, to)
    }
}

/// Whether `c` has the Unicode property White_Space.
pub open spec fn is_whitespace(c: char) -> bool {
    let n = c as u32;
    (0x09 <= n <= 0x0d) || n == 0x20 || n == 0x85 || n == 0xa0 || n == 0x1680 || (0x2000 <= n
        <= 0x200a) || n == 0x2028 || n == 0x2029 || n == 0x202f || n == 0x205f || n == 0x3000
}

/// `text` without the white space at its end.
pub open spec fn trimmed_end(text: Seq<char>) -> Seq<char>
    decreases text.len(),
{
    if text.len() > 0 && is_whitespace(text.last()) {
        trimmed_end(text.drop_last())
    } else {
        text
    }
}

/// The index of the last `sep` in `text`, or -1 where there is none.
pub open spec fn last_index_of(text: Seq<char>, sep: char) -> int
    decreases text.len(),
{
    if text.len() == 0 {
        -1
    } else if text.last() == sep {
        text.len() - 1
    } else {
        last_index_of(text.drop_last(), sep)
    }
}

/// The version token of a driver's output: what follows the last space of
/// the output without its trailing white space.
pub open spec fn version_token_of(stdout: Seq<u8>) -> Result<Seq<char>, Failure> {
    if !valid_utf8(stdout) {
        Err(Failure::OutputNotUtf8)
    } else {
        let line = trimmed_end(decode_utf8(stdout));
        let at = last_index_of(line, ' ');
        if at < 0 {
            Err(Failure::VersionMissing)
        } else {
            Ok(line.subrange(at + 1, line.len() as int))
        }
    }
}

#[verifier::external_type_specification]
#[verifier::external_body]
pub struct ExUtf8Error(core::str::Utf8Error);

/// Calls `str::replace` with a character as the pattern. The contract claims
/// that every occurrence of `from`, and nothing else, is replaced by `to`, in
/// order from the left.
#[verifier::external_body]
pub(crate) fn replace_char(text: &str, from: char, to: &str) -> (r: String)
    ensures
        r@ == replaced(text@, from, to@),
{
    text.replace(from, to)
}

/// Calls `core::str::from_utf8`. The contract claims that it succeeds on
/// exactly the well-formed UTF-8 byte strings, and then yields the characters
/// that the bytes encode.
#[verifier::external_body]
pub(crate) fn decode<'a>(bytes: &'a [u8]) -> (r: Result<&'a str, core::str::Utf8Error>)
    ensures
        r is Ok <==> valid_utf8(bytes@),
        r is Ok ==> r->Ok_0@ == decode_utf8(bytes@),
{
    core::str::from_utf8(bytes)
}

/// Calls `str::trim_end`. The contract claims that the result is the longest
/// prefix of `text` that does not end in a White_Space character.
#[verifier::external_body]
pub(crate) fn trim_end<'a>(text: &'a str) -> (r: &'a str)
    ensures
        r@ == trimmed_end(text@),
{
    text.trim_end()
}

/// Calls `str::rsplit_once` with a character as the delimiter. The contract
/// claims that the text is split at the last occurrence of `sep`, which
/// belongs to neither part, and that there is no result where `sep` does not
/// occur.
#[verifier::external_body]
pub(crate) fn rsplit_once_char<'a>(text: &'a str, sep: char) -> (r: Option<(&'a str, &'a str)>)
    ensures
        r is Some <==> last_index_of(text@, sep) >= 0,
        r is Some ==> r->Some_0.0@ == text@.subrange(0, last_index_of(text@, sep))
            && r->Some_0.1@ == text@.subrange(last_index_of(text@, sep) + 1, text@.len() as int),
{
    text.rsplit_once(sep)
}

/// Extracts the version token from what a driver printed when asked for its
/// version.
pub fn version_token<'a>(stdout: &'a [u8]) -> (r: Result<&'a str, Failure>)
    ensures
        r is Ok <==> version_token_of(stdout@) is Ok,
        r is Ok ==> r->Ok_0@ == version_token_of(stdout@)->Ok_0,
        r is Err ==> r->Err_0 == version_token_of(stdout@)->Err_0,
{
    match decode(stdout) {
        Err(_) => Err(Failure::OutputNotUtf8),
        Ok(text) => match rsplit_once_char(trim_end(text), ' ') {
            None => Err(Failure::VersionMissing),
            Some((_, token)) => Ok(token),
        },
    }
}

} // verus!
