//! Text primitives of the agent: substring search, case folding and UTF-8
//! validation, each with its meaning over sequences of characters or bytes.

use vstd::prelude::*;

verus! {

/// `needle` stands in `haystack` from position `start` on, character for
/// character.
pub open spec fn occurs_at(needle: Seq<char>, haystack: Seq<char>, start: int) -> bool {
    &&& 0 <= start
    &&& start + needle.len() <= haystack.len()
    &&& haystack.subrange(start, start + needle.len()) == needle
}

/// `needle` occurs in `haystack` as a run of consecutive characters. The
/// empty needle occurs in every haystack.
pub open spec fn occurs_in(needle: Seq<char>, haystack: Seq<char>) -> bool {
    exists|start: int| occurs_at(needle, haystack, start)
}

/// Trusted: `str::contains` with a string pattern. The standard library
/// documents it as true exactly when the pattern matches a sub-slice of the
/// string; both operands are valid UTF-8, so a match of the bytes is a match
/// of whole characters.
#[verifier::external_body]
pub(crate) fn contains(haystack: &str, needle: &str) -> (found: bool)
    ensures
        found == occurs_in(needle@, haystack@),
{
    haystack.contains(needle)
}

/// The lower-case form of a text, as the standard library's Unicode tables
/// define it. A character may fold to more than one character, so the
/// result can be longer than the text.
pub uninterp spec fn lowercase_of(text: Seq<char>) -> Seq<char>;

/// Trusted: `str::to_lowercase`. The result depends on the characters of the
/// text alone; the contract gives it its name and claims nothing more.
#[verifier::external_body]
pub(crate) fn to_lowercase(text: &str) -> (lowered: String)
    ensures
        lowered@ == lowercase_of(text@),
{
    text.to_lowercase()
}

/// The reason why a byte sequence is not UTF-8, as the standard library
/// reports it.
#[verifier::external_type_specification]
#[verifier::external_body]
pub struct ExUtf8Error(core::str::Utf8Error);

/// Trusted: `core::str::from_utf8`. It succeeds exactly on well-formed UTF-8,
/// and the string slice it returns holds the characters that the bytes encode.
#[verifier::external_body]
pub(crate) fn from_utf8(bytes: &[u8]) -> (decoded: Result<&str, core::str::Utf8Error>)
    ensures
        decoded is Ok <==> vstd::utf8::valid_utf8(bytes@),
        decoded matches Ok(text) ==> text@ == vstd::utf8::decode_utf8(bytes@),
{
    core::str::from_utf8(bytes)
}

} // verus!
