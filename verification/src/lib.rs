//! A small classification agent. A host hands it a short free-text
//! description; the agent scores the description against a fixed table of
//! archetypes by the keywords it contains, and publishes the verdict as an
//! encoded response in an output region that the host reads.
//!
//! - `archetype`: the table.
//! - `classifier`: scoring, the choice of the winning archetype, the verdict.
//! - `wire`: the text of an input region and the encoded form of a verdict.
//! - `boundary`: the output region and the entry points `run`,
//!   `get_output_ptr` and `get_output_len`.
//! - `laws`: what holds of every classification and of every run.
//! - `text`: substring search, case folding and UTF-8 validation, as the
//!   standard library provides them.
//!
//! Decoding a payload into a request is the host side's business: `run` takes
//! the request that the payload decoded to, or `None`.

pub mod archetype;
pub mod boundary;
pub mod classifier;
pub mod laws;
pub mod text;
pub mod wire;

pub use archetype::{get_archetypes, MemeArchetype};
pub use boundary::{get_output_len, get_output_ptr, run, OutputBuffer};
pub use classifier::{MemeAnalysisRequest, MemeAnalysisResponse};
