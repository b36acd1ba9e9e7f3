//! The Gemini generate-content API: its types, the text and tool calls of a
//! response's content, and whether a response may have failed.
use vstd::prelude::*;
use crate::model::{ToolCall, Usage as ModelUsage};

verus! {

/// The producer of a content.
#[derive(Debug, Clone, Copy, PartialEq, Eq, Structural)]
pub enum Role {
    User,
    Model,
}

impl Role {
    /// The default role.
    pub fn default_value() -> (r: Role)
        ensures
            r == Role::User,
    {
        Role::User
    }

    /// The role's name in chat messages: "user" or "assistant" (what `Display` writes).
    pub fn to_text(&self) -> (s: String)
        ensures
            s@ == match *self {
                Role::User => "user"@,
                Role::Model => "assistant"@,
            },
    {
        match self {
            Role::User => String::from_str("user"),
            Role::Model => String::from_str("assistant"),
        }
    }
}

/// The kinds of parts of a content.
#[derive(Debug)]
pub enum PartKind {
    CodeExecutionResult { outcome: String, output: String },
    ExecutableCode { language: String, code: String },
    FileData { file_uri: String, mime_type: Option<String> },
    /// A function call; its arguments as JSON text, if any.
    FunctionCall { name: String, args: Option<String>, id: Option<String> },
    /// A function response; the response as JSON text.
    FunctionResponse {
        name: String,
        response: String,
        id: Option<String>,
        will_continue: Option<bool>,
        scheduling: Option<String>,
    },
    InlineData { mime_type: String, data: String },
    Text(String),
}

/// A part of a content.
#[derive(Debug)]
pub struct ContentPart {
    /// Whether the part is a thought.
    pub thought: Option<bool>,
    /// An opaque signature of the thought (base64).
    pub thought_signature: Option<String>,
    pub data: PartKind,
}

/// A content: its producer and its parts.
#[derive(Debug)]
pub struct Content {
    pub role: Option<Role>,
    pub parts: Vec<ContentPart>,
}

/// The text parts of a content that are not thoughts, in order.
pub open spec fn answer_texts(parts: Seq<ContentPart>) -> Seq<Seq<char>>
    decreases parts.len(),
{
    if parts.len() == 0 {
        Seq::empty()
    } else {
        let rest = answer_texts(parts.drop_last());
        let p = parts.last();
        match p.data {
            PartKind::Text(t) => if p.thought != Some(true) {
                rest.push(t@)
            } else {
                rest
            },
            _ => rest,
        }
    }
}

/// Texts joined with a newline between each two.
pub open spec fn join_lines(texts: Seq<Seq<char>>) -> Seq<char>
    decreases texts.len(),
{
    if texts.len() == 0 {
        Seq::empty()
    } else if texts.len() == 1 {
        texts[0]
    } else {
        join_lines(texts.drop_last()) + "\n"@ + texts.last()
    }
}

/// The function calls of a content's parts, in order, as (id, name, arguments):
/// a missing id is empty, missing arguments are `null`.
pub open spec fn function_calls(parts: Seq<ContentPart>) -> Seq<(Seq<char>, Seq<char>, Seq<char>)>
    decreases parts.len(),
{
    if parts.len() == 0 {
        Seq::empty()
    } else {
        let rest = function_calls(parts.drop_last());
        let p = parts.last();
        match p.data {
            PartKind::FunctionCall { name, args, id } => rest.push(
                (
                    match id {
                        Some(i) => i@,
                        None => Seq::empty(),
                    },
                    name@,
                    match args {
                        Some(a) => a@,
                        None => "null"@,
                    },
                ),
            ),
            _ => rest,
        }
    }
}

impl Content {
    /// The answer of this content: its non-thought texts joined by newlines,
    /// and its function calls as tool calls.
    pub fn to_output(&self) -> (r: (String, Vec<ToolCall>))
        ensures
            r.0@ == join_lines(answer_texts(self.parts@)),
            r.1@.len() == function_calls(self.parts@).len(),
            forall|i: int|
                0 <= i < r.1@.len() ==> (#[trigger] r.1@[i]).id@ == function_calls(self.parts@)[i].0
                    && r.1@[i].name@ == function_calls(self.parts@)[i].1 && r.1@[i].args@
                    == function_calls(self.parts@)[i].2 && r.1@[i].result is None,
    {
        let mut text = String::new();
        let mut any = false;
        let mut tools: Vec<ToolCall> = Vec::new();
        let mut i: usize = 0;
        while i < self.parts.len()
            invariant
                i <= self.parts.len(),
                any == (answer_texts(self.parts@.take(i as int)).len() > 0),
                text@ == join_lines(answer_texts(self.parts@.take(i as int))),
                tools@.len() == function_calls(self.parts@.take(i as int)).len(),
                forall|k: int|
                    0 <= k < tools@.len() ==> (#[trigger] tools@[k]).id@ == function_calls(
                        self.parts@.take(i as int),
                    )[k].0 && tools@[k].name@ == function_calls(self.parts@.take(i as int))[k].1
                        && tools@[k].args@ == function_calls(self.parts@.take(i as int))[k].2
                        && tools@[k].result is None,
            decreases self.parts.len() - i,
        {
            let part = &self.parts[i];
            let ghost prev = self.parts@.take(i as int);
            proof {
                let t = self.parts@.take(i + 1);
                assert(t.drop_last() =~= prev);
                assert(t.last() == self.parts@[i as int]);
            }
            match &part.data {
                PartKind::Text(t) => {
                    let thought = match part.thought {
                        Some(b) => b,
                        None => false,
                    };
                    if !thought {
                        if any {
                            text.append("\n");
                        }
                        text.append(t.as_str());
                        any = true;
                        proof {
                            let texts = answer_texts(self.parts@.take(i + 1));
                            assert(texts == answer_texts(prev).push(t@));
                            if answer_texts(prev).len() == 0 {
                                assert(texts =~= seq![t@]);
                                assert(text@ =~= t@);
                            } else {
                                assert(texts.drop_last() =~= answer_texts(prev));
                            }
                        }
                    }
                },
                PartKind::FunctionCall { name, args, id } => {
                    let id_text = match id {
                        Some(x) => x.clone(),
                        None => String::new(),
                    };
                    let args_text = match args {
                        Some(a) => a.clone(),
                        None => String::from_str("null"),
                    };
                    tools.push(ToolCall { id: id_text, name: name.clone(), args: args_text, result: None });
                },
                _ => {},
            }
            i = i + 1;
        }
        assert(self.parts@.take(self.parts.len() as int) =~= self.parts@);
        (text, tools)
    }
}

/// The function-calling mode.
#[derive(Debug, Clone, Copy, PartialEq, Eq, Structural)]
pub enum FunctionCallingMode {
    ModeUnspecified,
    Auto,
    Any,
    /// The model calls no function ("NONE" in the API).
    Disabled,
}

/// How the model may call functions.
#[derive(Debug)]
pub struct FunctionCallingConfig {
    pub mode: FunctionCallingMode,
    /// The functions the model may call (with mode `Any`).
    pub allowed_function_names: Option<Vec<String>>,
}

/// The tool configuration of a request.
#[derive(Debug)]
pub struct ToolConfig {
    pub function_calling_config: FunctionCallingConfig,
}

impl ToolConfig {
    /// The default configuration: automatic function calling, any function.
    pub fn default_value() -> (c: ToolConfig)
        ensures
            c.function_calling_config.mode == FunctionCallingMode::Auto,
            c.function_calling_config.allowed_function_names is None,
    {
        ToolConfig {
            function_calling_config: FunctionCallingConfig {
                mode: FunctionCallingMode::Auto,
                allowed_function_names: None,
            },
        }
    }
}

/// The code-execution tool (no settings).
#[derive(Debug, Clone, Copy)]
pub struct CodeExecution {}

/// Why a prompt was blocked.
#[derive(Debug, Clone, Copy, PartialEq, Eq, Structural)]
pub enum BlockReason {
    BlockReasonUnspecified,
    Safety,
    Other,
    Blocklist,
    ProhibitedContent,
}

/// The probability that content is unsafe.
#[derive(Debug, Clone, Copy, PartialEq, Eq, Structural)]
pub enum HarmProbability {
    HarmProbabilityUnspecified,
    Negligible,
    Low,
    Medium,
    High,
}

/// The category of a safety rating.
#[derive(Debug, Clone, Copy, PartialEq, Eq, Structural)]
pub enum HarmCategory {
    HarmCategoryUnspecified,
    HarmCategoryDerogatory,
    HarmCategoryToxicity,
    HarmCategoryViolence,
    HarmCategorySexually,
    HarmCategoryMedical,
    HarmCategoryDangerous,
    HarmCategoryHarassment,
    HarmCategoryHateSpeech,
    HarmCategorySexuallyExplicit,
    HarmCategoryDangerousContent,
    HarmCategoryCivicIntegrity,
}

/// A safety rating of content.
#[derive(Debug, Clone, Copy, PartialEq, Eq, Structural)]
pub struct SatisfyRating {
    pub category: HarmCategory,
    pub probability: HarmProbability,
    pub blocked: Option<bool>,
}

/// Why the model stopped generating.
#[derive(Debug, Clone, Copy, PartialEq, Eq, Structural)]
pub enum FinishReason {
    FinishReasonUnspecified,
    Stop,
    MaxTokens,
    Safety,
    Recitation,
    Language,
    Other,
    Blocklist,
    ProhibitedContent,
    Spii,
    MalformedFunctionCall,
    ImageSafety,
}

/// Feedback on a prompt.
#[derive(Debug)]
pub struct PromptFeedback {
    /// Set when the prompt was blocked.
    pub block_reason: Option<BlockReason>,
    pub safety_ratings: Option<Vec<SatisfyRating>>,
}

/// Token counts of a response.
#[derive(Debug, Clone, Copy)]
pub struct UsageMetadata {
    pub prompt_token_count: u32,
    pub candidates_token_count: u32,
    pub total_token_count: u32,
    pub thoughts_token_count: u32,
}

/// Thinking settings.
#[derive(Debug, Clone, Copy)]
pub struct ThinkingConfig {
    pub include_thoughts: bool,
    pub thinking_budget: Option<u32>,
}

/// A source cited by a response.
#[derive(Debug)]
pub struct CitationSource {
    /// Start of the attributed segment, in bytes.
    pub start_index: Option<u32>,
    /// End of the attributed segment, exclusive.
    pub end_index: Option<u32>,
    pub uri: Option<String>,
    pub license: Option<String>,
}

/// The citations of a response.
#[derive(Debug)]
pub struct CitationMetadata {
    pub citation_sources: Vec<CitationSource>,
}

/// A response candidate.
#[derive(Debug)]
pub struct Candidate {
    pub content: Content,
    /// Unset while the model has not stopped.
    pub finish_reason: Option<FinishReason>,
    pub safety_ratings: Option<Vec<SatisfyRating>>,
    pub citation_metadata: Option<CitationMetadata>,
    pub token_count: Option<u32>,
    pub index: Option<u32>,
}

/// A generate-content response.
#[derive(Debug)]
pub struct GenerateContentResponse {
    pub candidates: Vec<Candidate>,
    pub prompt_feedback: Option<PromptFeedback>,
    pub usage_metadata: UsageMetadata,
    pub model_version: Option<String>,
    pub response_id: Option<String>,
}

/// What reports a response's failure.
#[derive(Debug, Clone, Copy, PartialEq, Eq, Structural)]
pub enum FailureSource {
    /// The prompt feedback.
    Feedback,
    /// The candidate with this index.
    Candidate(usize),
}

/// The index of the first candidate that stopped naturally, if any.
pub open spec fn first_stop(cs: Seq<Candidate>) -> Option<int>
    decreases cs.len(),
{
    if cs.len() == 0 {
        None
    } else {
        match first_stop(cs.drop_last()) {
            Some(i) => Some(i),
            None => if cs.last().finish_reason == Some(FinishReason::Stop) {
                Some(cs.len() - 1)
            } else {
                None
            },
        }
    }
}


/// The answer is the first candidate that stopped naturally: the one found
/// stopped naturally, none before it did, and none is found only when no
/// candidate stopped naturally.
pub proof fn first_stop_law(cs: Seq<Candidate>)
    ensures
        first_stop(cs) matches Some(i) ==> 0 <= i < cs.len() && cs[i].finish_reason == Some(
            FinishReason::Stop,
        ) && forall|j: int| 0 <= j < i ==> (#[trigger] cs[j]).finish_reason != Some(FinishReason::Stop),
        first_stop(cs) is None ==> forall|j: int| 0 <= j < cs.len() ==> (#[trigger] cs[j]).finish_reason
            != Some(FinishReason::Stop),
    decreases cs.len(),
{
    if cs.len() > 0 {
        let p = cs.drop_last();
        first_stop_law(p);
        match first_stop(p) {
            Some(i) => {
                assert(cs[i] == p[i]);
                assert forall|j: int| 0 <= j < i implies (#[trigger] cs[j]).finish_reason != Some(
                    FinishReason::Stop,
                ) by {
                    assert(cs[j] == p[j]);
                }
            },
            None => {
                assert forall|j: int| 0 <= j < cs.len() - 1 implies (#[trigger] cs[j]).finish_reason
                    != Some(FinishReason::Stop) by {
                    assert(cs[j] == p[j]);
                }
            },
        }
    }
}

impl GenerateContentResponse {
    /// The usage of this response: prompt tokens in, candidate tokens out.
    pub fn model_usage(&self) -> (u: ModelUsage)
        ensures
            u.input_tokens == self.usage_metadata.prompt_token_count,
            u.output_tokens == self.usage_metadata.candidates_token_count,
    {
        ModelUsage {
            input_tokens: self.usage_metadata.prompt_token_count as u64,
            output_tokens: self.usage_metadata.candidates_token_count as u64,
        }
    }

    /// The index of the first candidate that stopped naturally (whose content
    /// is the answer), if any.
    pub fn answer_index(&self) -> (r: Option<usize>)
        ensures
            match r {
                Some(i) => first_stop(self.candidates@) == Some(i as int),
                None => first_stop(self.candidates@) is None,
            },
    {
        let mut i: usize = 0;
        while i < self.candidates.len()
            invariant
                i <= self.candidates.len(),
                first_stop(self.candidates@.take(i as int)) is None,
            decreases self.candidates.len() - i,
        {
            proof {
                let t = self.candidates@.take(i + 1);
                assert(t.drop_last() =~= self.candidates@.take(i as int));
            }
            if self.candidates[i].finish_reason == Some(FinishReason::Stop) {
                proof {
                    lemma_first_stop_prefix(self.candidates@, i as int + 1);
                }
                return Some(i);
            }
            i = i + 1;
        }
        assert(self.candidates@.take(self.candidates.len() as int) =~= self.candidates@);
        None
    }

    /// What reports this response's failure, as reading it in order does: the
    /// prompt feedback when there is one; otherwise the last candidate before
    /// the answer (or the last one, when none stopped naturally); none when the
    /// answer is the first candidate or there is no candidate.
    pub fn failure_source(&self) -> (r: Option<FailureSource>)
        ensures
            self.prompt_feedback is Some ==> r == Some(FailureSource::Feedback),
            self.prompt_feedback is None ==> r == match first_stop(self.candidates@) {
                Some(s) => if s > 0 {
                    Some(FailureSource::Candidate((s - 1) as usize))
                } else {
                    None
                },
                None => if self.candidates@.len() > 0 {
                    Some(FailureSource::Candidate((self.candidates@.len() - 1) as usize))
                } else {
                    None
                },
            },
    {
        if self.prompt_feedback.is_some() {
            return Some(FailureSource::Feedback);
        }
        match self.answer_index() {
            Some(s) => {
                if s > 0 {
                    Some(FailureSource::Candidate(s - 1))
                } else {
                    None
                }
            },
            None => {
                if self.candidates.len() > 0 {
                    Some(FailureSource::Candidate(self.candidates.len() - 1))
                } else {
                    None
                }
            },
        }
    }

    /// Whether the response may have failed: it carries prompt feedback, or no
    /// candidate stopped naturally.
    pub fn maybe_failed(&self) -> (b: bool)
        ensures
            b == (self.prompt_feedback is Some || first_stop(self.candidates@) is None),
    {
        self.prompt_feedback.is_some() || self.answer_index().is_none()
    }
}

/// The first natural stop of a prefix is the first of the whole sequence.
proof fn lemma_first_stop_prefix(cs: Seq<Candidate>, n: int)
    requires
        0 < n <= cs.len(),
        first_stop(cs.take(n - 1)) is None,
        cs[n - 1].finish_reason == Some(FinishReason::Stop),
    ensures
        first_stop(cs) == Some(n - 1),
    decreases cs.len() - n,
{
    assert(cs.take(n).drop_last() =~= cs.take(n - 1));
    assert(first_stop(cs.take(n)) == Some(n - 1));
    if n < cs.len() {
        lemma_first_stop_extend(cs, n);
    } else {
        assert(cs.take(n) =~= cs);
    }
}

/// Extending a prefix whose natural stop is found keeps that stop.
proof fn lemma_first_stop_extend(cs: Seq<Candidate>, n: int)
    requires
        0 < n <= cs.len(),
        first_stop(cs.take(n)) is Some,
    ensures
        first_stop(cs) == first_stop(cs.take(n)),
    decreases cs.len() - n,
{
    if n < cs.len() {
        assert(cs.take(n + 1).drop_last() =~= cs.take(n));
        lemma_first_stop_extend(cs, n + 1);
    } else {
        assert(cs.take(n) =~= cs);
    }
}

} // verus!
