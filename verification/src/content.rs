//! The content of a chat message that the engine hands to a model: text, an
//! image or a piece of audio.
use vstd::prelude::*;
use vstd::std_specs::convert::FromSpecImpl;

verus! {

/// An image, by URL or base64 data, with the detail the model should see it at.
#[derive(Debug)]
pub struct ImageDetail {
    pub url: String,
    /// "low", "high" or "auto".
    pub detail: String,
}

/// A piece of base64 encoded audio with its format ("wav" or "mp3").
#[derive(Debug)]
pub struct AudioDetail {
    pub data: String,
    pub format: String,
}

/// One part of a message's content.
#[derive(Debug)]
pub enum HybridContent {
    Text { text: String },
    Image { image_url: ImageDetail },
    Audio { input_audio: AudioDetail },
}

impl From<String> for HybridContent {
    fn from(text: String) -> (c: HybridContent) {
        HybridContent::Text { text }
    }
}

impl FromSpecImpl<String> for HybridContent {
    open spec fn obeys_from_spec() -> bool {
        true
    }

    open spec fn from_spec(v: String) -> HybridContent {
        HybridContent::Text { text: v }
    }
}

} // verus!
