//! The OpenAI APIs: embeddings, and the types of the Responses API with the
//! conversions between its items and chat messages.
use vstd::prelude::*;
use crate::model::Usage as ModelUsage;
use crate::providers::ProviderError;
use crate::text::{decimal, usize_text};
use crate::chat::{ContentPart, Message, PartView, parts_view, ostr, json_normalized, normalize_json};

verus! {

/// Token usage of an OpenAI embeddings response.
#[derive(Debug, Clone, Copy)]
pub struct Usage {
    pub prompt_tokens: usize,
    /// Absent from embedding responses (0 then).
    pub completion_tokens: usize,
    pub total_tokens: usize,
}

/// The most texts one embeddings request may hold.
pub const MAX_DOCUMENTS: usize = 1024;

impl Usage {
    /// "Prompt tokens: {prompt}, completion tokens: {completion}" (what `Display` writes).
    pub fn to_text(&self) -> (r: String)
        ensures
            r@ == "Prompt tokens: "@ + decimal(self.prompt_tokens as nat) + ", completion tokens: "@
                + decimal(self.completion_tokens as nat),
    {
        let mut r = String::from_str("Prompt tokens: ");
        let a = usize_text(self.prompt_tokens);
        r.append(a.as_str());
        r.append(", completion tokens: ");
        let b = usize_text(self.completion_tokens);
        r.append(b.as_str());
        r
    }

    /// The usage of an embeddings request: prompt tokens in, and the rest of
    /// the total (never below 0) out.
    pub fn embedding_usage(&self) -> (u: ModelUsage)
        ensures
            u.input_tokens == self.prompt_tokens,
            u.output_tokens == if self.total_tokens >= self.prompt_tokens {
                self.total_tokens - self.prompt_tokens
            } else {
                0
            },
    {
        let out = if self.total_tokens >= self.prompt_tokens {
            self.total_tokens - self.prompt_tokens
        } else {
            0
        };
        ModelUsage { input_tokens: self.prompt_tokens as u64, output_tokens: out as u64 }
    }
}

/// An embeddings request may hold at most `MAX_DOCUMENTS` texts.
pub fn check_embedding_batch(texts: usize) -> (r: Result<(), ProviderError>)
    ensures
        r is Ok <==> texts <= MAX_DOCUMENTS,
        r matches Err(e) ==> e == ProviderError::TooManyDocuments(MAX_DOCUMENTS),
{
    if texts > MAX_DOCUMENTS {
        Err(ProviderError::TooManyDocuments(MAX_DOCUMENTS))
    } else {
        Ok(())
    }
}

/// Audio given to a model.
#[derive(Debug)]
pub struct InputAudio {
    pub data: String,
    pub format: String,
}

/// A content item of a Responses API message.
#[derive(Debug)]
pub enum ContentItem {
    /// "input_text".
    Text { text: String },
    /// "output_text".
    OutputText { text: String },
    /// "refusal".
    Refusal { refusal: String },
    /// "input_image"; detail is "high", "low" or "auto".
    Image { detail: String, image_url: String, file_id: Option<String> },
    /// "input_file".
    File {
        file_data: Option<String>,
        file_url: Option<String>,
        file_id: Option<String>,
        filename: Option<String>,
    },
    /// "input_audio".
    Audio { input_audio: InputAudio },
}

/// A summary of reasoning.
#[derive(Debug)]
pub enum ReasoningSummary {
    SummaryText { text: String },
}

/// Reasoning content.
#[derive(Debug)]
pub enum ReasoningContent {
    ReasoningText { text: String },
}

/// An input or output item of the Responses API.
#[derive(Debug)]
pub enum MessageItem {
    Message { role: String, content: Vec<ContentItem>, status: Option<String>, id: Option<String> },
    /// A function call; arguments as JSON text.
    FunctionCall {
        name: String,
        arguments: String,
        call_id: String,
        id: Option<String>,
        status: Option<String>,
    },
    /// The output of a function call, as JSON text.
    FunctionCallOutput { output: String, call_id: String, id: Option<String>, status: Option<String> },
    Reasoning {
        id: String,
        summary: Vec<ReasoningSummary>,
        content: Option<Vec<ReasoningContent>>,
        status: Option<String>,
    },
}

/// Token usage of a Responses API response.
#[derive(Debug, Clone, Copy)]
pub struct ResponsesUsage {
    pub input_tokens: u64,
    pub output_tokens: u64,
    pub total_tokens: u64,
}

/// Why a response is incomplete.
#[derive(Debug)]
pub struct IncompleteDetailsReason {
    pub reason: String,
}

/// An error of a response.
#[derive(Debug)]
pub struct ResponseError {
    pub code: String,
    pub message: String,
}

/// The status of a response.
#[derive(Debug, Clone, Copy, PartialEq, Eq, Structural)]
pub enum ResponseStatus {
    InProgress,
    Completed,
    Failed,
    Cancelled,
    Queued,
    Incomplete,
}

/// Whether a response may be truncated to fit the context window.
#[derive(Debug, Clone, Copy, PartialEq, Eq, Structural)]
pub enum TruncationStrategy {
    Auto,
    Disabled,
}

impl TruncationStrategy {
    /// The default strategy.
    pub fn default_value() -> (t: TruncationStrategy)
        ensures
            t == TruncationStrategy::Disabled,
    {
        TruncationStrategy::Disabled
    }
}

/// The inputs of structured outputs.
#[derive(Debug)]
pub struct StructuredOutputsInput {
    pub name: String,
    /// The output schema, as JSON text.
    pub schema: String,
    pub strict: bool,
}

/// The format of the text output.
#[derive(Debug)]
pub enum TextFormat {
    JsonSchema(StructuredOutputsInput),
    Text,
}

/// The text output configuration.
#[derive(Debug)]
pub struct TextConfig {
    pub format: TextFormat,
}

impl TextConfig {
    /// Structured output with the given schema name and schema, strictly.
    pub fn structured_output(name: String, schema: String) -> (c: TextConfig)
        ensures
            c.format matches TextFormat::JsonSchema(s) && s.name == name && s.schema == schema
                && s.strict,
    {
        TextConfig { format: TextFormat::JsonSchema(StructuredOutputsInput { name, schema, strict: true }) }
    }
}

/// How much a model reasons.
#[derive(Debug, Clone, Copy, PartialEq, Eq, Structural)]
pub enum ReasoningEffort {
    Minimal,
    Low,
    Medium,
    High,
}

/// How detailed a reasoning summary is.
#[derive(Debug, Clone, Copy, PartialEq, Eq, Structural)]
pub enum ReasoningSummaryLevel {
    Auto,
    Concise,
    Detailed,
}

/// Reasoning settings of a request.
#[derive(Debug, Clone, Copy, PartialEq, Eq, Structural)]
pub struct Reasoning {
    pub effort: Option<ReasoningEffort>,
    pub summary: Option<ReasoningSummaryLevel>,
}

/// The billing service tier.
#[derive(Debug, Clone, Copy, PartialEq, Eq, Structural)]
pub enum OpenAIServiceTier {
    Auto,
    Default,
    Flex,
}

/// Some content item is a refusal.
pub open spec fn refuses(content: Seq<ContentItem>) -> bool {
    exists|j: int| 0 <= j < content.len() && #[trigger] content[j] is Refusal
}

/// Whether a message item is a message holding a refusal.
pub open spec fn has_refusal(item: MessageItem) -> bool {
    match item {
        MessageItem::Message { content, .. } => refuses(content@),
        _ => false,
    }
}

/// Whether some content item is a refusal.
fn content_refuses(content: &Vec<ContentItem>) -> (b: bool)
    ensures
        b == refuses(content@),
{
    let mut j: usize = 0;
    while j < content.len()
        invariant
            j <= content.len(),
            forall|k: int| 0 <= k < j ==> !(#[trigger] content@[k] is Refusal),
        decreases content.len() - j,
    {
        if let ContentItem::Refusal { .. } = &content[j] {
            assert(content@[j as int] is Refusal);
            return true;
        }
        j = j + 1;
    }
    false
}

/// Whether a message item holds a refusal.
fn item_has_refusal(item: &MessageItem) -> (b: bool)
    ensures
        b == has_refusal(*item),
{
    match item {
        MessageItem::Message { content, .. } => content_refuses(content),
        _ => false,
    }
}

/// Whether a Responses API response may have failed: it reports an error,
/// it has no output, or a message of its output refuses.
pub fn maybe_failed(has_error: bool, output: &Vec<MessageItem>) -> (b: bool)
    ensures
        b == (has_error || output@.len() == 0 || exists|i: int|
            0 <= i < output@.len() && has_refusal(#[trigger] output@[i])),
{
    if has_error || output.len() == 0 {
        return true;
    }
    let mut i: usize = 0;
    while i < output.len()
        invariant
            i <= output.len(),
            forall|k: int| 0 <= k < i ==> !has_refusal(#[trigger] output@[k]),
        decreases output.len() - i,
    {
        if item_has_refusal(&output[i]) {
            return true;
        }
        i = i + 1;
    }
    false
}


/// A part that becomes an item of its own: reasoning, a tool call or a tool output.
pub open spec fn is_item_part(p: PartView) -> bool {
    p is Reasoning || p is ToolCall || p is ToolOutput
}

/// A part that becomes content of the message item: text or a file.
pub open spec fn is_content_part(p: PartView) -> bool {
    p is Text || p is FileData || p is InlineData
}

/// The optional text, or empty.
pub open spec fn or_empty(o: Option<Seq<char>>) -> Seq<char> {
    match o {
        Some(s) => s,
        None => Seq::empty(),
    }
}

/// `it` is the item that part `p` becomes.
pub open spec fn item_for(p: PartView, it: MessageItem) -> bool {
    match p {
        PartView::Reasoning(text) => match it {
            MessageItem::Reasoning { id, summary, content, status } => id@.len() == 0
                && summary@.len() == 1 && summary@[0] == (ReasoningSummary::SummaryText {
                text: summary@[0]->SummaryText_text,
            }) && summary@[0]->SummaryText_text@ == text && content is None && status is None,
            _ => false,
        },
        PartView::ToolCall(name, args, call_id) => match it {
            MessageItem::FunctionCall { name: n, arguments, call_id: c, id, status } => n@ == name
                && arguments@ == args && c@ == or_empty(call_id) && id is None && status is None,
            _ => false,
        },
        PartView::ToolOutput(_name, output, call_id, _remote) => match it {
            MessageItem::FunctionCallOutput { output: o, call_id: c, id, status } => o@ == output
                && c@ == or_empty(call_id) && id is None && status is None,
            _ => false,
        },
        _ => false,
    }
}

/// `c` is the content item that part `p` becomes.
pub open spec fn content_for(p: PartView, c: ContentItem) -> bool {
    match p {
        PartView::Text(t) => match c {
            ContentItem::Text { text } => text@ == t,
            _ => false,
        },
        PartView::FileData(uri, _) => match c {
            ContentItem::File { file_data, file_url, file_id, filename } => file_data is None
                && ostr(file_url) == Some(uri) && file_id is None && filename is None,
            _ => false,
        },
        PartView::InlineData(mime, data) => match c {
            ContentItem::File { file_data, file_url, file_id, filename } => ostr(file_data) == Some(
                "data:"@ + mime + ";base64,"@ + data,
            ) && file_url is None && file_id is None && filename is None,
            _ => false,
        },
        _ => false,
    }
}

/// The text of an optional string, or an empty string.
fn string_or_empty(o: &Option<String>) -> (r: String)
    ensures
        r@ == or_empty(ostr(*o)),
{
    match o {
        Some(s) => s.clone(),
        None => String::new(),
    }
}

/// The items of the Responses API that a chat message becomes: reasoning,
/// tool calls and tool outputs each as an item of its own, in order, then one
/// message item with the message's text and file parts, if there are any.
pub fn message_into(msg: Message) -> (r: Vec<MessageItem>)
    ensures
        ({
            let ps = parts_view(msg.content@);
            let direct = ps.filter(|p: PartView| is_item_part(p));
            let cont = ps.filter(|p: PartView| is_content_part(p));
            &&& r@.len() == direct.len() + if cont.len() > 0 { 1int } else { 0int }
            &&& forall|k: int| 0 <= k < direct.len() ==> item_for(direct[k], #[trigger] r@[k])
            &&& cont.len() > 0 ==> (r@.last() matches MessageItem::Message { role, content, status, id }
                && role@ == msg.role@ && status is None && id is None && content@.len()
                == cont.len() && forall|k: int|
                0 <= k < cont.len() ==> content_for(cont[k], #[trigger] content@[k]))
        }),
{
    let ghost ps = parts_view(msg.content@);
    let ghost pd = |p: PartView| is_item_part(p);
    let ghost pc = |p: PartView| is_content_part(p);
    let mut rt: Vec<MessageItem> = Vec::new();
    let mut content: Vec<ContentItem> = Vec::new();
    let mut i: usize = 0;
    assert(ps.take(0) =~= Seq::<PartView>::empty());
    while i < msg.content.len()
        invariant
            i <= msg.content.len(),
            ps == parts_view(msg.content@),
            pd == (|p: PartView| is_item_part(p)),
            pc == (|p: PartView| is_content_part(p)),
            rt@.len() == ps.take(i as int).filter(pd).len(),
            forall|k: int|
                0 <= k < rt@.len() ==> item_for(ps.take(i as int).filter(pd)[k], #[trigger] rt@[k]),
            content@.len() == ps.take(i as int).filter(pc).len(),
            forall|k: int|
                0 <= k < content@.len() ==> content_for(
                    ps.take(i as int).filter(pc)[k],
                    #[trigger] content@[k],
                ),
        decreases msg.content.len() - i,
    {
        let ghost prev = ps.take(i as int);
        let ghost pv = msg.content@[i as int]@;
        proof {
            assert(ps.take(i + 1) =~= prev.push(pv));
            prev.lemma_filter_push(pv, pd);
            prev.lemma_filter_push(pv, pc);
        }
        match &msg.content[i] {
            ContentPart::Text { text } => {
                content.push(ContentItem::Text { text: text.clone() });
            },
            ContentPart::Reasoning { text } => {
                let mut summary: Vec<ReasoningSummary> = Vec::new();
                summary.push(ReasoningSummary::SummaryText { text: text.clone() });
                rt.push(
                    MessageItem::Reasoning {
                        id: String::new(),
                        summary,
                        content: None,
                        status: None,
                    },
                );
            },
            ContentPart::FileData { file_uri, .. } => {
                content.push(
                    ContentItem::File {
                        file_data: None,
                        file_url: Some(file_uri.clone()),
                        file_id: None,
                        filename: None,
                    },
                );
            },
            ContentPart::InlineData { mime_type, data } => {
                let mut d = String::from_str("data:");
                d.append(mime_type.as_str());
                d.append(";base64,");
                d.append(data.as_str());
                content.push(
                    ContentItem::File { file_data: Some(d), file_url: None, file_id: None, filename: None },
                );
            },
            ContentPart::ToolCall { name, args, call_id } => {
                rt.push(
                    MessageItem::FunctionCall {
                        name: name.clone(),
                        arguments: args.clone(),
                        call_id: string_or_empty(call_id),
                        id: None,
                        status: None,
                    },
                );
            },
            ContentPart::ToolOutput { output, call_id, .. } => {
                rt.push(
                    MessageItem::FunctionCallOutput {
                        output: output.clone(),
                        call_id: string_or_empty(call_id),
                        id: None,
                        status: None,
                    },
                );
            },
        }
        i = i + 1;
    }
    assert(ps.take(msg.content.len() as int) =~= ps);
    if content.len() > 0 {
        rt.push(MessageItem::Message { role: msg.role, content, status: None, id: None });
    }
    rt
}


/// The parts that the content items of a message item give, and the last
/// refusal among them: text and output text give text; refusals give none.
pub open spec fn from_content(cs: Seq<ContentItem>) -> (Seq<PartView>, Option<Seq<char>>)
    decreases cs.len(),
{
    if cs.len() == 0 {
        (Seq::empty(), None)
    } else {
        let (ps, f) = from_content(cs.drop_last());
        match cs.last() {
            ContentItem::Text { text } => (ps.push(PartView::Text(text@)), f),
            ContentItem::OutputText { text } => (ps.push(PartView::Text(text@)), f),
            ContentItem::Refusal { refusal } => (ps, Some(refusal@)),
            _ => (ps, f),
        }
    }
}

/// The reasoning parts that a reasoning summary gives.
pub open spec fn summary_parts(ss: Seq<ReasoningSummary>) -> Seq<PartView>
    decreases ss.len(),
{
    if ss.len() == 0 {
        Seq::empty()
    } else {
        summary_parts(ss.drop_last()).push(
            match ss.last() {
                ReasoningSummary::SummaryText { text } => PartView::Reasoning(text@),
            },
        )
    }
}

/// What output items give, read in order: the parts of the message, the last
/// refusal, and the role of the last message item.
pub open spec fn from_items(items: Seq<MessageItem>) -> (Seq<PartView>, Option<Seq<char>>, Option<Seq<char>>)
    decreases items.len(),
{
    if items.len() == 0 {
        (Seq::empty(), None, None)
    } else {
        let (ps, f, role) = from_items(items.drop_last());
        match items.last() {
            MessageItem::Message { role: r, content, .. } => {
                let (cp, cf) = from_content(content@);
                (ps + cp, if cf is Some { cf } else { f }, Some(r@))
            },
            MessageItem::FunctionCall { name, arguments, call_id, .. } => (
                ps.push(PartView::ToolCall(name@, json_normalized(arguments@), Some(call_id@))),
                f,
                role,
            ),
            MessageItem::FunctionCallOutput { output, call_id, .. } => (
                ps.push(
                    PartView::ToolOutput(Seq::empty(), json_normalized(output@), Some(call_id@), None),
                ),
                f,
                role,
            ),
            MessageItem::Reasoning { summary, .. } => (ps + summary_parts(summary@), f, role),
        }
    }
}

/// Appends the parts that content items give, and records their last refusal.
fn add_content_parts(cs: &Vec<ContentItem>, parts: &mut Vec<ContentPart>, failed: &mut Option<String>)
    ensures
        parts_view(final(parts)@) == parts_view(old(parts)@) + from_content(cs@).0,
        ostr(*final(failed)) == if from_content(cs@).1 is Some {
            from_content(cs@).1
        } else {
            ostr(*old(failed))
        },
{
    let mut j: usize = 0;
    assert(cs@.take(0) =~= Seq::<ContentItem>::empty());
    assert(parts_view(parts@) =~= parts_view(old(parts)@) + Seq::<PartView>::empty());
    while j < cs.len()
        invariant
            j <= cs.len(),
            parts_view(parts@) == parts_view(old(parts)@) + from_content(cs@.take(j as int)).0,
            ostr(*failed) == if from_content(cs@.take(j as int)).1 is Some {
                from_content(cs@.take(j as int)).1
            } else {
                ostr(*old(failed))
            },
        decreases cs.len() - j,
    {
        let ghost before = parts_view(parts@);
        assert(cs@.take(j + 1).drop_last() =~= cs@.take(j as int));
        match &cs[j] {
            ContentItem::Text { text } => {
                parts.push(ContentPart::Text { text: text.clone() });
                assert(parts_view(parts@) =~= before.push(PartView::Text(text@)));
            },
            ContentItem::OutputText { text } => {
                parts.push(ContentPart::Text { text: text.clone() });
                assert(parts_view(parts@) =~= before.push(PartView::Text(text@)));
            },
            ContentItem::Refusal { refusal } => {
                *failed = Some(refusal.clone());
            },
            _ => {},
        }
        j = j + 1;
    }
    assert(cs@.take(cs.len() as int) =~= cs@);
}

/// Appends the reasoning parts that a reasoning summary gives.
fn add_summary_parts(ss: &Vec<ReasoningSummary>, parts: &mut Vec<ContentPart>)
    ensures
        parts_view(final(parts)@) == parts_view(old(parts)@) + summary_parts(ss@),
{
    let mut j: usize = 0;
    assert(ss@.take(0) =~= Seq::<ReasoningSummary>::empty());
    assert(parts_view(parts@) =~= parts_view(old(parts)@) + Seq::<PartView>::empty());
    while j < ss.len()
        invariant
            j <= ss.len(),
            parts_view(parts@) == parts_view(old(parts)@) + summary_parts(ss@.take(j as int)),
        decreases ss.len() - j,
    {
        let ghost before = parts_view(parts@);
        assert(ss@.take(j + 1).drop_last() =~= ss@.take(j as int));
        match &ss[j] {
            ReasoningSummary::SummaryText { text } => {
                parts.push(ContentPart::Reasoning { text: text.clone() });
                assert(parts_view(parts@) =~= before.push(PartView::Reasoning(text@)));
            },
        }
        j = j + 1;
    }
    assert(ss@.take(ss.len() as int) =~= ss@);
}

/// The chat message that output items give, and the last refusal among them:
/// texts, tool calls (arguments read as JSON), tool outputs (read as JSON) and
/// reasoning summaries become parts, in order; the role is that of the last
/// message item ("assistant" when there is none); no parts give no message.
pub fn message_from(output: Vec<MessageItem>) -> (r: (Option<Message>, Option<String>))
    ensures
        ({
            let (ps, f, role) = from_items(output@);
            &&& ostr(r.1) == f
            &&& ps.len() == 0 ==> r.0 is None
            &&& ps.len() > 0 ==> (r.0 matches Some(m) && parts_view(m.content@) == ps && m.role@
                == (match role {
                Some(x) => x,
                None => "assistant"@,
            }) && m.name is None && m.timestamp is None)
        }),
{
    let mut role = String::from_str("assistant");
    let mut parts: Vec<ContentPart> = Vec::new();
    let mut failed: Option<String> = None;
    let mut i: usize = 0;
    assert(output@.take(0) =~= Seq::<MessageItem>::empty());
    while i < output.len()
        invariant
            i <= output.len(),
            parts_view(parts@) == from_items(output@.take(i as int)).0,
            ostr(failed) == from_items(output@.take(i as int)).1,
            role@ == (match from_items(output@.take(i as int)).2 {
                Some(x) => x,
                None => "assistant"@,
            }),
        decreases output.len() - i,
    {
        assert(output@.take(i + 1).drop_last() =~= output@.take(i as int));
        let ghost before = parts_view(parts@);
        match &output[i] {
            MessageItem::Message { role: r, content, .. } => {
                role = r.clone();
                add_content_parts(content, &mut parts, &mut failed);
            },
            MessageItem::FunctionCall { name, arguments, call_id, .. } => {
                let args = normalize_json(arguments.as_str());
                parts.push(ContentPart::ToolCall { name: name.clone(), args, call_id: Some(call_id.clone()) });
                assert(parts_view(parts@) =~= before.push(
                    PartView::ToolCall(name@, json_normalized(arguments@), Some(call_id@)),
                ));
            },
            MessageItem::FunctionCallOutput { output: out, call_id, .. } => {
                let o = normalize_json(out.as_str());
                parts.push(
                    ContentPart::ToolOutput {
                        name: String::new(),
                        output: o,
                        call_id: Some(call_id.clone()),
                        remote_id: None,
                    },
                );
                assert(parts_view(parts@) =~= before.push(
                    PartView::ToolOutput(Seq::empty(), json_normalized(out@), Some(call_id@), None),
                ));
            },
            MessageItem::Reasoning { summary, .. } => {
                add_summary_parts(summary, &mut parts);
            },
        }
        i = i + 1;
    }
    assert(output@.take(output.len() as int) =~= output@);
    if parts.len() == 0 {
        (None, failed)
    } else {
        (Some(Message { role, content: parts, name: None, timestamp: None }), failed)
    }
}

} // verus!
