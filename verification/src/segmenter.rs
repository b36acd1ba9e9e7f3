//! Splitting long documents into segments with a model: the instructions
//! and prompt of the request, and the short documents that need no model.
use vstd::prelude::*;
use crate::text::{decimal, usize_text};
use crate::model::{AgentOutput, ToolCall, evaluate_tokens};
use crate::thread_info::byte_len;

verus! {

/// The segments of a document.
#[derive(Debug)]
pub struct SegmentOutput {
    pub segments: Vec<String>,
}

/// A lowercase hexadecimal digit.
pub open spec fn hex_digit(n: u32) -> char {
    if n < 10 {
        (('0' as u32) + n) as char
    } else {
        (('a' as u32) + n - 10) as char
    }
}

/// How JSON writes a character in a string: `"` and `\` after a backslash;
/// backspace, form feed, line feed, carriage return and tab as `\b`, `\f`,
/// `\n`, `\r`, `\t`; another control character below U+0020 as `\u00`
/// and two lowercase hexadecimal digits; any other character as it is.
pub open spec fn json_char(c: char) -> Seq<char> {
    if c == '"' {
        seq!['\\', '"']
    } else if c == '\\' {
        seq!['\\', '\\']
    } else if c == '\u{8}' {
        seq!['\\', 'b']
    } else if c == '\u{c}' {
        seq!['\\', 'f']
    } else if c == '\n' {
        seq!['\\', 'n']
    } else if c == '\r' {
        seq!['\\', 'r']
    } else if c == '\t' {
        seq!['\\', 't']
    } else if (c as u32) < 0x20 {
        seq!['\\', 'u', '0', '0', hex_digit((c as u32) / 16), hex_digit((c as u32) % 16)]
    } else {
        seq![c]
    }
}

/// The characters of a string, each as JSON writes it.
pub open spec fn json_escaped(s: Seq<char>) -> Seq<char>
    decreases s.len(),
{
    if s.len() == 0 {
        Seq::empty()
    } else {
        json_escaped(s.drop_last()) + json_char(s.last())
    }
}

/// The text that `serde_json` writes for a string: the string escaped, in
/// double quotes.
pub open spec fn json_quoted(s: Seq<char>) -> Seq<char> {
    seq!['"'] + json_escaped(s) + seq!['"']
}

/// Writes a string as a JSON string.
/// Trusted: calls `serde_json::to_string` on the string, which quotes it and
/// escapes its characters as its escape table says (stated by `json_quoted`);
/// writing a `&str` cannot fail.
#[verifier::external_body]
fn json_string(s: &str) -> (r: String)
    ensures
        r@ == json_quoted(s@),
{
    serde_json::to_string(s).unwrap_or_default()
}

/// Splits documents into segments of at most `segment_tokens` tokens each,
/// and at most `max_tokens - 100` in all, with the tool `tool_name`.
#[derive(Debug)]
pub struct DocumentSegmenter {
    pub tool_name: String,
    pub segment_tokens: usize,
    pub max_tokens: usize,
}

/// The instructions of a segmenter.
pub open spec fn segmenter_system(d: DocumentSegmenter) -> Seq<char> {
    "You are an expert in summarizing and segmenting long documents. Your task is to take a lengthy knowledge document and break it into multiple concise segments. Each segment should meet the following requirements:\n\n1. Token Limit per Segment: Each segment must not exceed "@
        + decimal(d.segment_tokens as nat)
        + " tokens.\n2. Total Token Limit: The combined tokens of all segments must not exceed "@
        + decimal((d.max_tokens - 100) as nat)
        + " tokens.\n3. Semantic Integrity: Each segment should be semantically complete, meaning it should convey a clear idea or topic without being cut off mid-thought.\n4. Key Information: Ensure that all critical information from the original document is preserved in the segments.\n5. Clarity: Each segment should be easy to understand and free from unnecessary repetition.\n\nOutput Format:\nUse the `"@
        + d.tool_name@
        + "` tool to return the segments as a JSON array of strings. Each string represents a segment, and the total tokens of all segments must not exceed "@
        + decimal((d.max_tokens - 100) as nat)
        + "."@
}

/// The prompt of a segmenter for a document.
pub open spec fn segmenter_prompt(d: DocumentSegmenter, content: Seq<char>) -> Seq<char> {
    "Document Content:\n"@
        + content
        + "\n\nToken Limit per Segment: "@
        + decimal(d.segment_tokens as nat)
        + "\nTotal Token Limit: "@
        + decimal((d.max_tokens - 100) as nat)
        + "\nBreak the document into segments, ensuring each segment does not exceed "@
        + decimal(d.segment_tokens as nat)
        + " tokens and the total tokens do not exceed "@
        + decimal((d.max_tokens - 100) as nat)
        + ".  Use the `"@
        + d.tool_name@
        + "` tool to return the results."@
}

impl DocumentSegmenter {
    /// A segmenter; it keeps 100 tokens of `max_tokens` in reserve.
    pub fn new(tool_name: String, segment_tokens: usize, max_tokens: usize) -> (d: DocumentSegmenter)
        requires
            max_tokens >= 100,
        ensures
            d.tool_name == tool_name,
            d.segment_tokens == segment_tokens,
            d.max_tokens == max_tokens,
    {
        DocumentSegmenter { tool_name, segment_tokens, max_tokens }
    }

    /// The instructions of this segmenter.
    pub fn system_text(&self) -> (r: String)
        requires
            self.max_tokens >= 100,
        ensures
            r@ == segmenter_system(*self),
    {

        let seg = usize_text(self.segment_tokens);
        let guard = usize_text(self.max_tokens - 100);
        let mut r = String::new();
        r.append("You are an expert in summarizing and segmenting long documents. Your task is to take a lengthy knowledge document and break it into multiple concise segments. Each segment should meet the following requirements:\n\n1. Token Limit per Segment: Each segment must not exceed ");
        r.append(seg.as_str());
        r.append(" tokens.\n2. Total Token Limit: The combined tokens of all segments must not exceed ");
        r.append(guard.as_str());
        r.append(" tokens.\n3. Semantic Integrity: Each segment should be semantically complete, meaning it should convey a clear idea or topic without being cut off mid-thought.\n4. Key Information: Ensure that all critical information from the original document is preserved in the segments.\n5. Clarity: Each segment should be easy to understand and free from unnecessary repetition.\n\nOutput Format:\nUse the `");
        r.append(self.tool_name.as_str());
        r.append("` tool to return the segments as a JSON array of strings. Each string represents a segment, and the total tokens of all segments must not exceed ");
        r.append(guard.as_str());
        r.append(".");
        r
    }

    /// The prompt that asks a model to segment a document.
    pub fn prompt_text(&self, content: &str) -> (r: String)
        requires
            self.max_tokens >= 100,
        ensures
            r@ == segmenter_prompt(*self, content@),
    {
        let seg = usize_text(self.segment_tokens);
        let guard = usize_text(self.max_tokens - 100);
        let mut r = String::new();
        r.append("Document Content:\n");
        r.append(content);
        r.append("\n\nToken Limit per Segment: ");
        r.append(seg.as_str());
        r.append("\nTotal Token Limit: ");
        r.append(guard.as_str());
        r.append("\nBreak the document into segments, ensuring each segment does not exceed ");
        r.append(seg.as_str());
        r.append(" tokens and the total tokens do not exceed ");
        r.append(guard.as_str());
        r.append(".  Use the `");
        r.append(self.tool_name.as_str());
        r.append("` tool to return the results.");
        r
    }

    /// A document of at most `segment_tokens` tokens is one segment; no model
    /// is asked.
    pub fn fits_one_segment(&self, content: &str) -> (b: bool)
        ensures
            b == (byte_len(content@) / 3 <= self.segment_tokens),
    {
        evaluate_tokens(content) <= self.segment_tokens
    }

    /// The output for a document that is one segment: the segment, and an
    /// agent output whose only tool call (named after the tool) holds the
    /// segments as JSON, as its arguments and as its result.
    pub fn single_segment(&self, content: &str) -> (r: (SegmentOutput, AgentOutput))
        ensures
            r.0.segments@.len() == 1 && r.0.segments@[0]@ == content@,
            r.1.content@.len() == 0,
            r.1.failed_reason is None,
            r.1.full_history is None,
            r.1.tool_calls matches Some(cs) && cs@.len() == 1 && cs@[0].id@ == self.tool_name@
                && cs@[0].name@ == self.tool_name@ && cs@[0].args@ == "{\"segments\":["@ + json_quoted(
                content@,
            ) + "]}"@ && (cs@[0].result matches Some(x) && x@ == cs@[0].args@),
    {
        let mut segments: Vec<String> = Vec::new();
        segments.push(content.to_owned());
        let mut args = String::from_str("{\"segments\":[");
        let q = json_string(content);
        args.append(q.as_str());
        args.append("]}");
        let result = args.clone();
        let mut calls: Vec<ToolCall> = Vec::new();
        calls.push(ToolCall { id: self.tool_name.clone(), name: self.tool_name.clone(), args, result: Some(result) });
        let mut out = AgentOutput::with_content(String::new());
        out.tool_calls = Some(calls);
        (SegmentOutput { segments }, out)
    }
}

} // verus!
