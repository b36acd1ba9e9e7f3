//! The DeepSeek chat completion API.
use vstd::prelude::*;
use crate::model::{AgentOutput, ToolCall, Usage as ModelUsage};
use crate::providers::ProviderError;
use crate::text::{str_eq, decimal, usize_text};

verus! {

/// Token usage of a DeepSeek response.
#[derive(Debug, Clone, Copy)]
pub struct Usage {
    /// Tokens of the prompt.
    pub prompt_tokens: usize,
    /// Tokens of the prompt and the completion.
    pub total_tokens: usize,
}

impl Usage {
    /// "Prompt tokens: {prompt} Total tokens: {total}" (what `Display` writes).
    pub fn to_text(&self) -> (r: String)
        ensures
            r@ == "Prompt tokens: "@ + decimal(self.prompt_tokens as nat) + " Total tokens: "@
                + decimal(self.total_tokens as nat),
    {
        let mut r = String::from_str("Prompt tokens: ");
        let a = usize_text(self.prompt_tokens);
        r.append(a.as_str());
        r.append(" Total tokens: ");
        let b = usize_text(self.total_tokens);
        r.append(b.as_str());
        r
    }
}

/// A function that a tool call names.
#[derive(Debug)]
pub struct Function {
    pub name: String,
    /// The arguments, as JSON text.
    pub arguments: String,
}

/// A tool call in a DeepSeek message.
#[derive(Debug)]
pub struct ToolCallOutput {
    pub id: String,
    /// The type of the call ("function").
    pub kind: String,
    pub function: Function,
}

/// A message of a DeepSeek response.
#[derive(Debug)]
pub struct MessageOutput {
    pub role: String,
    pub content: String,
    pub refusal: Option<String>,
    pub tool_calls: Option<Vec<ToolCallOutput>>,
}

/// A completion choice of a DeepSeek response.
#[derive(Debug)]
pub struct Choice {
    pub index: usize,
    pub message: MessageOutput,
    pub finish_reason: String,
}

/// A DeepSeek chat completion response.
#[derive(Debug)]
pub struct CompletionResponse {
    pub id: String,
    pub object: String,
    pub created: u64,
    pub model: String,
    pub choices: Vec<Choice>,
    pub usage: Option<Usage>,
}

/// A tool call of a model, as the agent output holds it.
pub open spec fn call_of(t: ToolCallOutput, c: ToolCall) -> bool {
    c.id@ == t.id@ && c.name@ == t.function.name@ && c.args@ == t.function.arguments@
        && c.result is None
}

/// The failure a choice reports: its refusal, if any; otherwise its finish
/// reason unless that is "stop" or "tool_calls".
pub open spec fn choice_failure(c: Choice) -> Option<Seq<char>> {
    match c.message.refusal {
        Some(r) => Some(r@),
        None => if c.finish_reason@ == "stop"@ || c.finish_reason@ == "tool_calls"@ {
            None
        } else {
            Some(c.finish_reason@)
        },
    }
}


/// A choice fails with its refusal when it has one; otherwise it succeeds
/// exactly when it finished with "stop" or "tool_calls", and any other
/// finish reason is the failure.
pub proof fn choice_failure_law(c: Choice)
    ensures
        c.message.refusal matches Some(r) ==> choice_failure(c) == Some(r@),
        c.message.refusal is None ==> (choice_failure(c) is None <==> (c.finish_reason@ == "stop"@
            || c.finish_reason@ == "tool_calls"@)),
        c.message.refusal is None && choice_failure(c) is Some ==> choice_failure(c) == Some(
            c.finish_reason@,
        ),
{
}

/// The tool calls of a message as tool calls of an agent output.
fn calls_of(tools: Vec<ToolCallOutput>) -> (r: Vec<ToolCall>)
    ensures
        r.len() == tools.len(),
        forall|i: int| 0 <= i < r.len() ==> call_of(#[trigger] tools[i], r[i]),
{
    let mut r: Vec<ToolCall> = Vec::new();
    let mut i: usize = 0;
    while i < tools.len()
        invariant
            i <= tools.len(),
            r.len() == i,
            forall|k: int| 0 <= k < i ==> call_of(#[trigger] tools[k], r[k]),
        decreases tools.len() - i,
    {
        let t = &tools[i];
        r.push(
            ToolCall {
                id: t.id.clone(),
                name: t.function.name.clone(),
                args: t.function.arguments.clone(),
                result: None,
            },
        );
        i = i + 1;
    }
    r
}

impl CompletionResponse {
    /// The agent output of this response: the content and the tool calls of
    /// its last choice, and the failure that choice reports.
    pub fn into_output(self) -> (r: Result<AgentOutput, ProviderError>)
        ensures
            r is Err <==> self.choices@.len() == 0,
            r matches Err(e) ==> e == ProviderError::NoCompletionChoice,
            r matches Ok(o) ==> {
                let c = self.choices@.last();
                &&& o.content@ == c.message.content@
                &&& match c.message.tool_calls {
                    Some(ts) => o.tool_calls matches Some(cs) && cs@.len() == ts@.len() && forall|i: int|
                        0 <= i < ts@.len() ==> call_of(#[trigger] ts@[i], cs@[i]),
                    None => o.tool_calls is None,
                }
                &&& match o.failed_reason {
                    Some(f) => choice_failure(c) == Some(f@),
                    None => choice_failure(c) is None,
                }
                &&& o.full_history is None
                &&& o.usage == ModelUsage { input_tokens: 0, output_tokens: 0 }
                &&& c.message.refusal matches Some(rf) ==> o.failed_reason matches Some(f) && f@ == rf@
                &&& c.message.refusal is None ==> (o.failed_reason is None <==> (c.finish_reason@ == "stop"@
                    || c.finish_reason@ == "tool_calls"@))
                &&& c.message.refusal is None && o.failed_reason is Some ==> o.failed_reason->0@
                    == c.finish_reason@
            },
    {
        let mut choices = self.choices;
        let choice = match choices.pop() {
            Some(c) => c,
            None => {
                return Err(ProviderError::NoCompletionChoice);
            },
        };
        let Choice { index: _, message, finish_reason } = choice;
        let MessageOutput { role: _, content, refusal, tool_calls } = message;
        let mut output = AgentOutput::with_content(content);
        output.tool_calls = match tool_calls {
            Some(ts) => Some(calls_of(ts)),
            None => None,
        };
        if !(str_eq(finish_reason.as_str(), "stop") || str_eq(finish_reason.as_str(), "tool_calls")) {
            output.failed_reason = Some(finish_reason);
        }
        if let Some(r) = refusal {
            output.failed_reason = Some(r);
        }
        Ok(output)
    }
}

} // verus!
