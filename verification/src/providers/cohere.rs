//! The Cohere embedding API: the metadata of its responses.
use vstd::prelude::*;
use crate::providers::ProviderError;
use crate::text::{decimal, u64_text};

verus! {

/// The API version of a response.
#[derive(Debug)]
pub struct ApiVersion {
    pub version: String,
    pub is_deprecated: Option<bool>,
    pub is_experimental: Option<bool>,
}

/// The units a request was billed for.
#[derive(Debug, Clone, Copy)]
pub struct BilledUnits {
    pub input_tokens: u32,
    pub output_tokens: u32,
    pub search_units: u32,
    pub classifications: u32,
}

/// The metadata of a response.
#[derive(Debug)]
pub struct Meta {
    pub api_version: ApiVersion,
    pub billed_units: BilledUnits,
    pub warnings: Vec<String>,
}

impl BilledUnits {
    /// The four counts, one per line (what `Display` writes).
    pub fn to_text(&self) -> (r: String)
        ensures
            r@ == "Input tokens: "@ + decimal(self.input_tokens as nat) + "\nOutput tokens: "@
                + decimal(self.output_tokens as nat) + "\nSearch units: "@ + decimal(
                self.search_units as nat,
            ) + "\nClassifications: "@ + decimal(self.classifications as nat),
    {
        let mut r = String::from_str("Input tokens: ");
        let a = u64_text(self.input_tokens as u64);
        r.append(a.as_str());
        r.append("\nOutput tokens: ");
        let b = u64_text(self.output_tokens as u64);
        r.append(b.as_str());
        r.append("\nSearch units: ");
        let c = u64_text(self.search_units as u64);
        r.append(c.as_str());
        r.append("\nClassifications: ");
        let d = u64_text(self.classifications as u64);
        r.append(d.as_str());
        r
    }
}

/// An embedding response must hold one embedding per text: the counts of
/// embeddings and of texts.
pub fn check_embedding_count(embeddings: usize, texts: usize) -> (r: Result<(), (usize, usize)>)
    ensures
        r is Ok <==> embeddings == texts,
        r matches Err(e) ==> e == (texts, embeddings),
{
    if embeddings != texts {
        Err((texts, embeddings))
    } else {
        Ok(())
    }
}

/// The most texts an embeddings request may hold.
pub const MAX_DOCUMENTS: usize = 96;

/// An embeddings request may hold at most `MAX_DOCUMENTS` texts.
pub fn check_embedding_batch(texts: usize) -> (r: Result<(), ProviderError>)
    ensures
        r is Ok <==> texts <= MAX_DOCUMENTS,
        r matches Err(e) ==> e == ProviderError::TooManyDocuments(MAX_DOCUMENTS),
{
    if texts > MAX_DOCUMENTS {
        Err(ProviderError::TooManyDocuments(MAX_DOCUMENTS))
    } else {
        Ok(())
    }
}

} // verus!
