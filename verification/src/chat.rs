//! Chat messages made of content parts, as agents exchange them with models.
use vstd::prelude::*;

verus! {

/// A part of a chat message.
#[derive(Debug)]
pub enum ContentPart {
    Text { text: String },
    /// Reasoning text of a model.
    Reasoning { text: String },
    /// A file given by its URI.
    FileData { file_uri: String, mime_type: Option<String> },
    /// A file given by its (base64) data.
    InlineData { mime_type: String, data: String },
    /// A tool call; the arguments as JSON text.
    ToolCall { name: String, args: String, call_id: Option<String> },
    /// The output of a tool call, as JSON text.
    ToolOutput { name: String, output: String, call_id: Option<String>, remote_id: Option<String> },
}

/// The text of an optional string.
pub open spec fn ostr(o: Option<String>) -> Option<Seq<char>> {
    match o {
        Some(s) => Some(s@),
        None => None,
    }
}

/// A content part as plain text values.
pub enum PartView {
    Text(Seq<char>),
    Reasoning(Seq<char>),
    FileData(Seq<char>, Option<Seq<char>>),
    InlineData(Seq<char>, Seq<char>),
    ToolCall(Seq<char>, Seq<char>, Option<Seq<char>>),
    ToolOutput(Seq<char>, Seq<char>, Option<Seq<char>>, Option<Seq<char>>),
}

impl View for ContentPart {
    type V = PartView;

    open spec fn view(&self) -> PartView {
        match *self {
            ContentPart::Text { text } => PartView::Text(text@),
            ContentPart::Reasoning { text } => PartView::Reasoning(text@),
            ContentPart::FileData { file_uri, mime_type } => PartView::FileData(
                file_uri@,
                ostr(mime_type),
            ),
            ContentPart::InlineData { mime_type, data } => PartView::InlineData(mime_type@, data@),
            ContentPart::ToolCall { name, args, call_id } => PartView::ToolCall(
                name@,
                args@,
                ostr(call_id),
            ),
            ContentPart::ToolOutput { name, output, call_id, remote_id } => PartView::ToolOutput(
                name@,
                output@,
                ostr(call_id),
                ostr(remote_id),
            ),
        }
    }
}

/// The views of a list of parts.
pub open spec fn parts_view(v: Seq<ContentPart>) -> Seq<PartView> {
    v.map_values(|p: ContentPart| p@)
}

/// A chat message: its role and its parts.
#[derive(Debug)]
pub struct Message {
    /// "system", "user", "assistant" or "tool".
    pub role: String,
    pub content: Vec<ContentPart>,
    /// The name of the participant.
    pub name: Option<String>,
    /// When the message was made, in Unix milliseconds.
    pub timestamp: Option<u64>,
}

impl ContentPart {
    /// A text part.
    pub fn from_text(text: String) -> (p: ContentPart)
        ensures
            p@ == PartView::Text(text@),
    {
        ContentPart::Text { text }
    }
}


/// The compact JSON text of the value that a JSON text holds (`null` when it
/// holds none), as `serde_json` reads and writes it.
pub uninterp spec fn json_normalized(text: Seq<char>) -> Seq<char>;

/// Reads a JSON text and writes its value back compactly.
/// Trusted: calls `serde_json::from_str::<serde_json::Value>` (the default
/// `Value::Null` on an error) and `Value::to_string`; the contract only names
/// the result, as a function of the text alone.
#[verifier::external_body]
pub(crate) fn normalize_json(text: &str) -> (r: String)
    ensures
        r@ == json_normalized(text@),
{
    let v: serde_json::Value = serde_json::from_str(text).unwrap_or_default();
    v.to_string()
}

} // verus!
