//! The output region and the entry points that the host drives: one run of
//! the agent replaces what the region holds, and the region can be read
//! until the next run.

use vstd::prelude::*;
use crate::archetype::{archetype_table, get_archetypes};
use crate::classifier::{classification, classify, MemeAnalysisRequest};
use crate::wire::{encode_response, response_bytes};

verus! {

/// The region in which the agent publishes its latest response. It is empty
/// until the first run.
pub struct OutputBuffer {
    bytes: Vec<u8>,
}

impl View for OutputBuffer {
    type V = Seq<u8>;

    closed spec fn view(&self) -> Seq<u8> {
        self.bytes@
    }
}

impl OutputBuffer {
    /// A region in which nothing has been published yet.
    pub fn new() -> (buffer: Self)
        ensures
            buffer@ == Seq::<u8>::empty(),
    {
        OutputBuffer { bytes: Vec::new() }
    }
}

/// The description that a run works on: that of the request, or the empty
/// description where the payload did not decode to a request.
pub open spec fn requested_description(decoded: Option<MemeAnalysisRequest>) -> Seq<char> {
    match decoded {
        Some(request) => request@,
        None => Seq::empty(),
    }
}

/// What a run publishes for a description: the encoded verdict on it,
/// classified against the agent's table.
pub open spec fn published(description: Seq<char>) -> Seq<u8> {
    response_bytes(classification(description, archetype_table()))
}

/// Runs one classification. `decoded` is the request that the payload
/// decoded to, or `None` where it did not decode; the region then holds the
/// encoded verdict, whatever it held before.
pub fn run(buffer: &mut OutputBuffer, decoded: Option<MemeAnalysisRequest>)
    ensures
        final(buffer)@ == published(requested_description(decoded)),
{
    let request = match decoded {
        Some(request) => request,
        None => MemeAnalysisRequest { meme_description: String::new() },
    };
    let archetypes = get_archetypes();
    let response = classify(request.meme_description.as_str(), &archetypes);
    buffer.bytes = encode_response(&response);
}

/// The bytes of the latest response: an empty region before the first run.
pub fn get_output_ptr(buffer: &OutputBuffer) -> (region: &[u8])
    ensures
        region@ == buffer@,
{
    buffer.bytes.as_slice()
}

/// The length of the latest response in bytes: zero before the first run.
pub fn get_output_len(buffer: &OutputBuffer) -> (len: usize)
    ensures
        len == buffer@.len(),
{
    buffer.bytes.len()
}

} // verus!
