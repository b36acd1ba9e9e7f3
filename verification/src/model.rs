//! The core data of agents and completions: usage accounting, token
//! estimates, tool requests and calls, documents, and the prompt that a
//! completion request builds from its documents.
use vstd::prelude::*;
use crate::text::{debug_quoted, debug_quote, decimal, usize_text};
use crate::thread_info::byte_len;
use crate::sorted::{keys_increasing, key_map, insert_sorted};
use crate::chat::ContentPart;
use crate::function::FunctionDefinition;

verus! {

/// A request to call a tool.
#[derive(Debug)]
pub struct ToolReqeust {
    /// The tool's name.
    pub name: String,
    /// The arguments, as JSON text.
    pub args: String,
}

/// The usage statistics of an agent or tool execution.
#[derive(Debug, Clone, Copy, PartialEq, Eq, Structural)]
pub struct Usage {
    pub input_tokens: u64,
    pub output_tokens: u64,
}

/// `a + b`, or `u64::MAX` where the sum does not fit.
pub open spec fn saturating_sum(a: u64, b: u64) -> u64 {
    if a + b > u64::MAX {
        u64::MAX
    } else {
        (a + b) as u64
    }
}

impl Usage {
    /// No tokens.
    pub fn zero() -> (u: Usage)
        ensures
            u.input_tokens == 0 && u.output_tokens == 0,
    {
        Usage { input_tokens: 0, output_tokens: 0 }
    }

    /// Adds the tokens of `other`, saturating at `u64::MAX`.
    pub fn accumulate(&mut self, other: &Usage)
        ensures
            final(self).input_tokens == saturating_sum(old(self).input_tokens, other.input_tokens),
            final(self).output_tokens == saturating_sum(old(self).output_tokens, other.output_tokens),
    {
        self.input_tokens = self.input_tokens.saturating_add(other.input_tokens);
        self.output_tokens = self.output_tokens.saturating_add(other.output_tokens);
    }
}

/// The number of tokens of a text, in the simplest way: a third of its
/// length in bytes.
pub fn evaluate_tokens(content: &str) -> (n: usize)
    ensures
        n == byte_len(content@) / 3,
{
    content.len() / 3
}

/// A tool call of a model, with its id, function name and arguments.
#[derive(Debug)]
pub struct ToolCall {
    pub id: String,
    pub name: String,
    /// The arguments, as JSON text.
    pub args: String,
    /// The result of the call, once the engine made it.
    pub result: Option<String>,
}

/// An image given to a model.
#[derive(Debug)]
pub struct ImageDetail {
    /// A URL of the image, or its base64 encoded data.
    pub url: String,
    /// "low", "high" or "auto".
    pub detail: Option<String>,
}

/// Audio given to a model.
#[derive(Debug)]
pub struct AudioDetail {
    /// Base64 encoded audio data.
    pub data: String,
    /// "wav" or "mp3".
    pub format: String,
}

/// A knowledge document with its user, text and metadata.
#[derive(Debug)]
pub struct Knowledge {
    pub id: String,
    pub user: String,
    pub text: String,
    /// The metadata, each value as JSON text, keys in increasing order.
    pub meta: Vec<(String, String)>,
}

/// A knowledge document with text and properties.
#[derive(Debug)]
pub struct Document {
    pub id: String,
    pub text: String,
    /// The properties, keys strictly increasing (a map).
    pub additional_props: Vec<(String, String)>,
}

/// The keys of a property list are strictly increasing.
pub open spec fn props_wf(p: Seq<(String, String)>) -> bool {
    keys_increasing(p)
}

/// The text of properties: `key="value" ` for each, values quoted as `{:?}` does.
pub open spec fn props_text(p: Seq<(String, String)>) -> Seq<char>
    decreases p.len(),
{
    if p.len() == 0 {
        Seq::empty()
    } else {
        props_text(p.drop_last()) + p.last().0@ + "="@ + debug_quoted(p.last().1@) + " "@
    }
}

/// The text of a document: its id, its properties (if any) and its text.
pub open spec fn doc_text(d: Document) -> Seq<char> {
    "<doc id="@ + debug_quoted(d.id@) + ">\n"@ + (if d.additional_props@.len() == 0 {
        Seq::empty()
    } else {
        "<meta "@ + props_text(d.additional_props@) + "/>\n"@
    }) + debug_quoted(d.text@) + "\n</doc>\n"@
}

/// The texts of documents, one after the other.
pub open spec fn docs_concat(ds: Seq<Document>) -> Seq<char>
    decreases ds.len(),
{
    if ds.len() == 0 {
        Seq::empty()
    } else {
        docs_concat(ds.drop_last()) + doc_text(ds.last())
    }
}

/// The text of a list of documents: nothing when empty, otherwise the
/// documents between `<attachments>` tags.
pub open spec fn docs_text(ds: Seq<Document>) -> Seq<char> {
    if ds.len() == 0 {
        Seq::empty()
    } else {
        "<attachments>\n"@ + docs_concat(ds) + "</attachments>"@
    }
}

impl Document {
    /// A document without properties.
    pub fn new(id: String, text: String) -> (d: Document)
        ensures
            d.id == id,
            d.text == text,
            d.additional_props@.len() == 0,
    {
        Document { id, text, additional_props: Vec::new() }
    }

    /// Sets property `key` to `value`, keeping the keys in order: an existing
    /// key gets the new value, a new key is placed where it belongs.
    pub fn insert_prop(&mut self, key: String, value: String)
        requires
            props_wf(old(self).additional_props@),
        ensures
            final(self).id == old(self).id,
            final(self).text == old(self).text,
            props_wf(final(self).additional_props@),
            key_map(final(self).additional_props@) == key_map(old(self).additional_props@).insert(
                key@,
                value,
            ),
    {
        insert_sorted(&mut self.additional_props, key, value);
    }
}

/// The properties after inserting `entries` in order into `m`, a later entry
/// replacing an earlier one of the same key.
pub open spec fn inserted_all(m: Map<Seq<char>, String>, entries: Seq<(String, String)>) -> Map<Seq<char>, String>
    decreases entries.len(),
{
    if entries.len() == 0 {
        m
    } else {
        inserted_all(m, entries.drop_last()).insert(entries.last().0@, entries.last().1)
    }
}

/// The properties of a document made from a knowledge document: its user
/// under "user", then its metadata (which may replace the user).
pub open spec fn knowledge_props(k: Knowledge) -> Map<Seq<char>, String> {
    inserted_all(Map::empty().insert("user"@, k.user), k.meta@)
}

impl Document {
    /// The document of a knowledge document: its id and text, its user and
    /// its metadata as properties.
    pub fn from_knowledge(k: Knowledge) -> (d: Document)
        ensures
            d.id == k.id,
            d.text == k.text,
            props_wf(d.additional_props@),
            key_map(d.additional_props@) == knowledge_props(k),
    {
        let ghost kg = k;
        let Knowledge { id, user, text, meta } = k;
        let mut d = Document::new(id, text);
        let ghost empty_props = d.additional_props@;
        assert(key_map(empty_props) =~= Map::<Seq<char>, String>::empty());
        d.insert_prop(String::from_str("user"), user);
        let ghost start = key_map(d.additional_props@);
        assert(start == Map::<Seq<char>, String>::empty().insert("user"@, kg.user));
        let ghost all = meta@;
        for e in it: meta.into_iter()
            invariant
                it.seq() == all,
                all == kg.meta@,
                d.id == kg.id,
                d.text == kg.text,
                props_wf(d.additional_props@),
                start == Map::<Seq<char>, String>::empty().insert("user"@, kg.user),
                key_map(d.additional_props@) == inserted_all(start, all.take(it.index() as int)),
        {
            proof {
                assert(all.take(it.index() as int + 1).drop_last() =~= all.take(it.index() as int));
            }
            let (key, value) = e;
            d.insert_prop(key, value);
        }
        proof {
            assert(all.take(all.len() as int) =~= all);
        }
        d
    }
}

impl Document {
    /// The text of this document (what `Display` writes): its id, its
    /// properties in key order, and its text, each value quoted as `{:?}` does.
    pub fn to_text(&self) -> (r: String)
        ensures
            r@ == doc_text(*self),
    {
        let mut r = String::from_str("<doc id=");
        let id = debug_quote(self.id.as_str());
        r.append(id.as_str());
        r.append(">\n");
        if self.additional_props.len() > 0 {
            r.append("<meta ");
            let mut i: usize = 0;
            let ghost start = r@;
            while i < self.additional_props.len()
                invariant
                    i <= self.additional_props.len(),
                    r@ == start + props_text(self.additional_props@.take(i as int)),
                decreases self.additional_props.len() - i,
            {
                let (k, v) = &self.additional_props[i];
                r.append(k.as_str());
                r.append("=");
                let q = debug_quote(v.as_str());
                r.append(q.as_str());
                r.append(" ");
                proof {
                    let t = self.additional_props@.take(i + 1);
                    assert(t.drop_last() =~= self.additional_props@.take(i as int));
                    assert(t.last() == self.additional_props@[i as int]);
                }
                i = i + 1;
            }
            assert(self.additional_props@.take(self.additional_props.len() as int)
                =~= self.additional_props@);
            r.append("/>\n");
        }
        let t = debug_quote(self.text.as_str());
        r.append(t.as_str());
        r.append("\n</doc>\n");
        r
    }
}

/// A list of documents.
#[derive(Debug)]
pub struct Documents(pub Vec<Document>);

impl Documents {
    /// No documents.
    pub fn empty() -> (d: Documents)
        ensures
            d.0@.len() == 0,
    {
        Documents(Vec::new())
    }

    /// The documents of knowledge documents, in order.
    pub fn from_knowledges(ks: Vec<Knowledge>) -> (d: Documents)
        ensures
            d.0@.len() == ks@.len(),
            forall|i: int|
                0 <= i < ks@.len() ==> (#[trigger] d.0@[i]).id == ks@[i].id && d.0@[i].text
                    == ks@[i].text && props_wf(d.0@[i].additional_props@) && key_map(
                    d.0@[i].additional_props@,
                ) == knowledge_props(ks@[i]),
    {
        let ghost all = ks@;
        let mut docs: Vec<Document> = Vec::new();
        for k in it: ks.into_iter()
            invariant
                it.seq() == all,
                docs@.len() == it.index(),
                forall|i: int|
                    0 <= i < it.index() ==> (#[trigger] docs@[i]).id == all[i].id && docs@[i].text
                        == all[i].text && props_wf(docs@[i].additional_props@) && key_map(
                        docs@[i].additional_props@,
                    ) == knowledge_props(all[i]),
        {
            let d = Document::from_knowledge(k);
            docs.push(d);
        }
        Documents(docs)
    }

    /// Documents with the given texts, named `doc_0`, `doc_1`, ... in order,
    /// without properties.
    pub fn from_texts(texts: Vec<String>) -> (d: Documents)
        ensures
            d.0@.len() == texts@.len(),
            forall|i: int|
                0 <= i < texts@.len() ==> (#[trigger] d.0@[i]).id@ == "doc_"@ + decimal(i as nat)
                    && d.0@[i].text == texts@[i] && d.0@[i].additional_props@.len() == 0,
    {
        let mut docs: Vec<Document> = Vec::new();
        let mut texts = texts;
        let ghost all = texts@;
        let n = texts.len();
        let mut rest: Vec<String> = Vec::new();
        // Take the texts from the back, then lay the documents out from the front.
        while texts.len() > 0
            invariant
                texts@.len() + rest@.len() == n,
                all.len() == n,
                texts@ == all.take(texts@.len() as int),
                forall|k: int| 0 <= k < rest@.len() ==> rest@[k] == all[n - 1 - k],
            decreases texts.len(),
        {
            let t = texts.pop().unwrap();
            rest.push(t);
            assert(texts@ =~= all.take(texts@.len() as int));
        }
        let mut i: usize = 0;
        while rest.len() > 0
            invariant
                i + rest@.len() == n,
                all.len() == n,
                docs@.len() == i,
                forall|k: int| 0 <= k < rest@.len() ==> rest@[k] == all[n - 1 - k],
                forall|k: int|
                    0 <= k < i ==> (#[trigger] docs@[k]).id@ == "doc_"@ + decimal(k as nat)
                        && docs@[k].text == all[k] && docs@[k].additional_props@.len() == 0,
            decreases rest.len(),
        {
            let t = rest.pop().unwrap();
            let mut id = String::from_str("doc_");
            let num = usize_text(i);
            id.append(num.as_str());
            docs.push(Document::new(id, t));
            i = i + 1;
        }
        Documents(docs)
    }

    /// The text of these documents (what `Display` writes): nothing when there
    /// are none, otherwise each document's text between `<attachments>` tags.
    pub fn to_text(&self) -> (r: String)
        ensures
            r@ == docs_text(self.0@),
    {
        if self.0.len() == 0 {
            return String::new();
        }
        let mut r = String::from_str("<attachments>\n");
        let ghost start = r@;
        let mut i: usize = 0;
        while i < self.0.len()
            invariant
                i <= self.0.len(),
                r@ == start + docs_concat(self.0@.take(i as int)),
            decreases self.0.len() - i,
        {
            let t = self.0[i].to_text();
            r.append(t.as_str());
            proof {
                let s = self.0@.take(i + 1);
                assert(s.drop_last() =~= self.0@.take(i as int));
                assert(s.last() == self.0@[i as int]);
            }
            i = i + 1;
        }
        assert(self.0@.take(self.0.len() as int) =~= self.0@);
        r.append("</attachments>");
        r
    }
}

/// A request to a completion model: the system message, the conversation so
/// far, the documents and the prompt, and the tools the model may call.
#[derive(Debug)]
pub struct CompletionRequest {
    /// The system message.
    pub system: Option<String>,
    /// The name of the system role.
    pub system_name: Option<String>,
    /// The chat history, each message as JSON text.
    pub chat_history: Vec<String>,
    /// The documents to embed into the prompt.
    pub documents: Documents,
    /// The prompt, as the "user" role; it can be empty.
    pub prompt: String,
    /// Content parts sent in place of the prompt when there are any.
    pub content_parts: Vec<ContentPart>,
    /// The name of the prompter.
    pub prompter_name: Option<String>,
    /// The tools the model may call.
    pub tools: Vec<FunctionDefinition>,
    /// Whether a tool must be chosen.
    pub tool_choice_required: bool,
    /// The most tokens to generate.
    pub max_tokens: Option<usize>,
    /// The JSON format the model must answer in, as JSON text.
    pub response_format: Option<String>,
    /// Stop sequences.
    pub stop: Option<Vec<String>>,
}

/// The prompt with its documents, as `prompt_with_context` builds it.
pub open spec fn spec_prompt_with_context(docs: Seq<Document>, prompt: Seq<char>) -> Option<Seq<char>> {
    if docs.len() == 0 && prompt.len() == 0 {
        None
    } else if docs.len() == 0 {
        Some(prompt)
    } else if prompt.len() == 0 {
        Some(docs_text(docs))
    } else {
        Some(docs_text(docs) + "\n\n"@ + prompt)
    }
}

impl CompletionRequest {
    /// A request with the given system message and prompt, and nothing else.
    pub fn new(system: Option<String>, prompt: String) -> (r: CompletionRequest)
        ensures
            r.system == system,
            r.prompt == prompt,
            r.system_name is None,
            r.documents.0@.len() == 0,
            r.prompter_name is None,
            !r.tool_choice_required,
            r.max_tokens is None,
            r.stop is None,
            r.chat_history@.len() == 0,
            r.content_parts@.len() == 0,
            r.tools@.len() == 0,
            r.response_format is None,
    {
        CompletionRequest {
            system,
            system_name: None,
            chat_history: Vec::new(),
            documents: Documents::empty(),
            prompt,
            content_parts: Vec::new(),
            prompter_name: None,
            tools: Vec::new(),
            tool_choice_required: false,
            max_tokens: None,
            response_format: None,
            stop: None,
        }
    }

    /// Adds tools after the ones there.
    pub fn append_tools(self, tools: Vec<FunctionDefinition>) -> (r: CompletionRequest)
        ensures
            r.tools@ == self.tools@ + tools@,
            r.system == self.system && r.system_name == self.system_name,
            r.chat_history == self.chat_history && r.documents == self.documents,
            r.prompt == self.prompt && r.content_parts == self.content_parts,
            r.prompter_name == self.prompter_name,
            r.tool_choice_required == self.tool_choice_required && r.max_tokens == self.max_tokens,
            r.response_format == self.response_format && r.stop == self.stop,
    {
        let mut r = self;
        let mut tools = tools;
        r.tools.append(&mut tools);
        r
    }

    /// Adds a document without properties.
    pub fn context(self, id: String, text: String) -> (r: CompletionRequest)
        ensures
            r.documents.0@.len() == self.documents.0@.len() + 1,
            r.documents.0@.drop_last() == self.documents.0@,
            r.documents.0@.last().id == id && r.documents.0@.last().text == text
                && r.documents.0@.last().additional_props@.len() == 0,
            r.system == self.system && r.system_name == self.system_name,
            r.chat_history == self.chat_history && r.prompt == self.prompt,
            r.content_parts == self.content_parts && r.prompter_name == self.prompter_name,
            r.tools == self.tools && r.tool_choice_required == self.tool_choice_required,
            r.max_tokens == self.max_tokens && r.response_format == self.response_format,
            r.stop == self.stop,
    {
        let mut r = self;
        r.documents.0.push(Document::new(id, text));
        assert(r.documents.0@.drop_last() =~= self.documents.0@);
        r
    }

    /// Adds documents after the ones there.
    pub fn append_documents(self, docs: Documents) -> (r: CompletionRequest)
        ensures
            r.documents.0@ == self.documents.0@ + docs.0@,
            r.system == self.system && r.system_name == self.system_name,
            r.chat_history == self.chat_history && r.prompt == self.prompt,
            r.content_parts == self.content_parts && r.prompter_name == self.prompter_name,
            r.tools == self.tools && r.tool_choice_required == self.tool_choice_required,
            r.max_tokens == self.max_tokens && r.response_format == self.response_format,
            r.stop == self.stop,
    {
        let mut r = self;
        let mut d = docs;
        r.documents.0.append(&mut d.0);
        r
    }

    /// The prompt with its documents: none when both are empty; the prompt
    /// alone, the documents alone, or the documents, a blank line and the prompt.
    pub fn prompt_with_context(&self) -> (r: Option<String>)
        ensures
            match r {
                Some(t) => spec_prompt_with_context(self.documents.0@, self.prompt@) == Some(t@),
                None => spec_prompt_with_context(self.documents.0@, self.prompt@) is None,
            },
    {
        if self.documents.0.len() == 0 && self.prompt.as_str().is_empty() {
            return None;
        }
        if self.documents.0.len() == 0 {
            Some(self.prompt.clone())
        } else if self.prompt.as_str().is_empty() {
            Some(self.documents.to_text())
        } else {
            let mut t = self.documents.to_text();
            t.append("\n\n");
            t.append(self.prompt.as_str());
            Some(t)
        }
    }
}


/// The output of an agent or a completion.
#[derive(Debug)]
pub struct AgentOutput {
    /// The content, which may be empty.
    pub content: String,
    /// Why the execution failed; `None` when it succeeded.
    pub failed_reason: Option<String>,
    /// The tool calls that the output asks for.
    pub tool_calls: Option<Vec<ToolCall>>,
    /// The full history of the completion, each message as JSON text.
    pub full_history: Option<Vec<String>>,
    /// The usage statistics.
    pub usage: Usage,
}

impl AgentOutput {
    /// An output with the given content and nothing else.
    pub fn with_content(content: String) -> (o: AgentOutput)
        ensures
            o.content == content,
            o.failed_reason is None,
            o.tool_calls is None,
            o.full_history is None,
            o.usage.input_tokens == 0 && o.usage.output_tokens == 0,
    {
        AgentOutput {
            content,
            failed_reason: None,
            tool_calls: None,
            full_history: None,
            usage: Usage::zero(),
        }
    }
}

} // verus!
