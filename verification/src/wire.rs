//! The payloads that cross the boundary: the text of an input region and
//! the encoded form of a verdict.

use vstd::prelude::*;
use vstd::string::{StrSliceExecFns, StringExecFns};
use vstd::utf8::{decode_utf8, encode_utf8, valid_utf8};
use crate::classifier::{MemeAnalysisResponse, ResponseView};
use crate::text::from_utf8;

verus! {

/// The text that an input region holds: its characters where the bytes are
/// well-formed UTF-8, and nothing where they are not.
pub open spec fn payload_text(input: Seq<u8>) -> Seq<char> {
    if valid_utf8(input) {
        decode_utf8(input)
    } else {
        Seq::empty()
    }
}

/// Reads an input region as text. A region that is not UTF-8 reads as the
/// empty text: the boundary has no channel to report it.
pub fn input_text(input: &[u8]) -> (text: &str)
    ensures
        text@ == payload_text(input@),
{
    match from_utf8(input) {
        Ok(text) => text,
        Err(_) => {
            let empty: &'static str = "";
            proof {
                reveal_strlit("");
                assert(empty@ =~= Seq::<char>::empty());
            }
            empty
        },
    }
}

/// The JSON text of a string value, quotes and escapes included, as the
/// encoder writes it.
pub uninterp spec fn json_string_of(text: Seq<char>) -> Seq<char>;

/// The error of the JSON encoder.
#[verifier::external_type_specification]
#[verifier::external_body]
pub struct ExJsonError(serde_json::Error);

/// Trusted: `serde_json::to_string` on a string slice. The encoder writes
/// into a buffer in memory and a string has no form that it refuses, so the
/// call succeeds; what it returns depends on the characters alone and goes
/// by the name `json_string_of`.
#[verifier::external_body]
pub(crate) fn json_string(text: &str) -> (encoded: Result<String, serde_json::Error>)
    ensures
        encoded is Ok,
        encoded matches Ok(json) ==> json@ == json_string_of(text@),
{
    serde_json::to_string(text)
}

/// The encoded response: one JSON object with the three members in this
/// order, their names spelled as the host expects them, and nothing between
/// the tokens.
pub open spec fn response_json(response: ResponseView) -> Seq<char> {
    "{\"archetype\":"@ + json_string_of(response.archetype) + ",\"analysis\":"@ + json_string_of(
        response.analysis,
    ) + ",\"investmentSuggestion\":"@ + json_string_of(response.investment_suggestion) + "}"@
}

/// The bytes of the encoded response.
pub open spec fn response_bytes(response: ResponseView) -> Seq<u8> {
    encode_utf8(response_json(response))
}

/// Encodes a verdict as the host reads it.
pub fn encode_response(response: &MemeAnalysisResponse) -> (encoded: Vec<u8>)
    ensures
        encoded@ == response_bytes(response@),
{
    let archetype = json_string(response.archetype.as_str()).unwrap();
    let analysis = json_string(response.analysis.as_str()).unwrap();
    let suggestion = json_string(response.investment_suggestion.as_str()).unwrap();
    let mut json = String::from_str("{\"archetype\":");
    json.append(archetype.as_str());
    json.append(",\"analysis\":");
    json.append(analysis.as_str());
    json.append(",\"investmentSuggestion\":");
    json.append(suggestion.as_str());
    json.append("}");
    json.as_str().as_bytes_vec()
}

} // verus!
