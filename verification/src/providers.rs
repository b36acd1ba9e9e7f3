//! The types of the model providers' APIs, and how their responses become
//! agent outputs.
use vstd::prelude::*;

pub mod deepseek;
pub mod kimi;
pub mod cohere;
pub mod gemini;
pub mod openai;

verus! {

/// Errors of reading a provider's response.
#[derive(Debug, PartialEq, Eq, Structural)]
pub enum ProviderError {
    /// "No completion choice".
    NoCompletionChoice,
    /// "Too many documents, max is {max}".
    TooManyDocuments(usize),
    /// "no embedding data".
    NoEmbeddingData,
}

} // verus!
