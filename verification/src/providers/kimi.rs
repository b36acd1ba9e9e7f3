//! The Kimi chat completion API.
use vstd::prelude::*;
use crate::model::Usage as ModelUsage;
use crate::text::{str_eq, decimal, usize_text};

verus! {

/// Token usage of a Kimi response.
#[derive(Debug, Clone, Copy)]
pub struct Usage {
    pub prompt_tokens: usize,
    pub completion_tokens: usize,
}

impl Usage {
    /// "Prompt tokens: {prompt} completion tokens: {completion}" (what `Display` writes).
    pub fn to_text(&self) -> (r: String)
        ensures
            r@ == "Prompt tokens: "@ + decimal(self.prompt_tokens as nat) + " completion tokens: "@
                + decimal(self.completion_tokens as nat),
    {
        let mut r = String::from_str("Prompt tokens: ");
        let a = usize_text(self.prompt_tokens);
        r.append(a.as_str());
        r.append(" completion tokens: ");
        let b = usize_text(self.completion_tokens);
        r.append(b.as_str());
        r
    }

    /// The usage of an agent output: prompt tokens in, completion tokens out.
    pub fn to_model_usage(&self) -> (u: ModelUsage)
        ensures
            u.input_tokens == self.prompt_tokens,
            u.output_tokens == self.completion_tokens,
    {
        ModelUsage { input_tokens: self.prompt_tokens as u64, output_tokens: self.completion_tokens as u64 }
    }
}

/// A message sent to Kimi.
#[derive(Debug)]
pub struct MessageInput {
    pub role: String,
    /// The content, as JSON text.
    pub content: String,
    pub tool_call_id: Option<String>,
}

/// A function that a tool call names.
#[derive(Debug)]
pub struct Function {
    pub name: String,
    /// The arguments, as JSON text.
    pub arguments: String,
}

/// A tool call in a Kimi message.
#[derive(Debug)]
pub struct ToolCallOutput {
    pub id: String,
    /// The type of the call ("function").
    pub kind: String,
    pub function: Function,
}

/// A message of a Kimi response.
#[derive(Debug)]
pub struct MessageOutput {
    pub role: String,
    pub content: Option<String>,
    pub tool_calls: Option<Vec<ToolCallOutput>>,
}

/// A completion choice of a Kimi response.
#[derive(Debug)]
pub struct Choice {
    pub index: usize,
    pub message: MessageOutput,
    pub finish_reason: String,
}

/// A Kimi chat completion response.
#[derive(Debug)]
pub struct CompletionResponse {
    pub id: String,
    pub object: String,
    pub created: u64,
    pub model: String,
    pub choices: Vec<Choice>,
    pub usage: Option<Usage>,
}

/// A choice that finished well ("stop" or "tool_calls") with content or tool calls.
pub open spec fn choice_succeeded(c: Choice) -> bool {
    (c.finish_reason@ == "stop"@ || c.finish_reason@ == "tool_calls"@) && (c.message.content is Some
        || c.message.tool_calls is Some)
}


/// A choice succeeds only when it finished with "stop" or "tool_calls" and
/// brings content or tool calls; any other finish reason fails it.
pub proof fn choice_success_law(c: Choice)
    ensures
        choice_succeeded(c) ==> (c.finish_reason@ == "stop"@ || c.finish_reason@ == "tool_calls"@),
        choice_succeeded(c) ==> (c.message.content is Some || c.message.tool_calls is Some),
        !(c.finish_reason@ == "stop"@ || c.finish_reason@ == "tool_calls"@) ==> !choice_succeeded(c),
{
}

impl CompletionResponse {
    /// Whether the response may have failed: no choice finished well with
    /// content or tool calls.
    pub fn maybe_failed(&self) -> (b: bool)
        ensures
            b == !(exists|i: int| 0 <= i < self.choices@.len() && choice_succeeded(
                #[trigger] self.choices@[i],
            )),
    {
        let mut i: usize = 0;
        while i < self.choices.len()
            invariant
                i <= self.choices.len(),
                forall|k: int| 0 <= k < i ==> !choice_succeeded(#[trigger] self.choices@[k]),
            decreases self.choices.len() - i,
        {
            let c = &self.choices[i];
            if (str_eq(c.finish_reason.as_str(), "stop") || str_eq(c.finish_reason.as_str(), "tool_calls"))
                && (c.message.content.is_some() || c.message.tool_calls.is_some()) {
                assert(choice_succeeded(self.choices@[i as int]));
                return false;
            }
            i = i + 1;
        }
        true
    }

    /// The usage of this response as an agent output's (none when absent).
    pub fn model_usage(&self) -> (u: ModelUsage)
        ensures
            match self.usage {
                Some(x) => u.input_tokens == x.prompt_tokens && u.output_tokens == x.completion_tokens,
                None => u.input_tokens == 0 && u.output_tokens == 0,
            },
    {
        match &self.usage {
            Some(x) => x.to_model_usage(),
            None => ModelUsage::zero(),
        }
    }

    /// The failure the last choice reports: its finish reason unless that is
    /// "stop" or "tool_calls"; `None` when there is no choice at all.
    pub fn last_failure(&self) -> (r: Option<Option<String>>)
        ensures
            self.choices@.len() == 0 <==> r is None,
            r matches Some(f) ==> {
                let c = self.choices@.last();
                if c.finish_reason@ == "stop"@ || c.finish_reason@ == "tool_calls"@ {
                    f is None
                } else {
                    f matches Some(t) && t@ == c.finish_reason@
                }
            },
            r matches Some(None) ==> self.choices@.last().finish_reason@ == "stop"@
                || self.choices@.last().finish_reason@ == "tool_calls"@,
            r matches Some(Some(t)) ==> t@ == self.choices@.last().finish_reason@,
    {
        if self.choices.len() == 0 {
            return None;
        }
        let c = &self.choices[self.choices.len() - 1];
        if str_eq(c.finish_reason.as_str(), "stop") || str_eq(c.finish_reason.as_str(), "tool_calls") {
            Some(None)
        } else {
            Some(Some(c.finish_reason.clone()))
        }
    }
}

} // verus!
