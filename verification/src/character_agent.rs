//! The decisions of a character agent around each prompt: whether to ask its
//! attention or to weigh the prompt's knowledge value, when to stop, which
//! tools to offer, and how the chat with a user is kept.
use vstd::prelude::*;
use crate::attention::{Attention, AttentionCommand, ContentQuality};
use crate::character::{Character, keep_recent, drop_older_half, recent_start};
use crate::model::{AgentOutput, Usage, evaluate_tokens};
use crate::store::MAX_STORE_OBJECT_SIZE;
use crate::text::texts_of;
use crate::thread_info::byte_len;

verus! {

/// What the agent does first with a prompt.
#[derive(Debug, Clone, Copy, PartialEq, Eq, Structural)]
pub enum PromptCheck {
    /// Ask the attention whether to reply at all.
    AskAttention,
    /// Weigh the prompt's knowledge value.
    EvaluateQuality,
}

/// A prompt of at most `min_content_tokens` tokens goes to the attention's
/// reply decision; a longer one is weighed for its knowledge value.
pub fn prompt_check(attention: &Attention, prompt: &str) -> (r: PromptCheck)
    ensures
        r == (if byte_len(prompt@) / 3 <= attention.min_content_tokens {
            PromptCheck::AskAttention
        } else {
            PromptCheck::EvaluateQuality
        }),
{
    if evaluate_tokens(prompt) <= attention.min_content_tokens {
        PromptCheck::AskAttention
    } else {
        PromptCheck::EvaluateQuality
    }
}

/// The text of the answer to a prompt the agent will not reply to.
pub open spec fn stop_text() -> Seq<char> {
    "I'm sorry, I will stop responding."@
}

/// The failure reason of that answer.
pub open spec fn stop_reason() -> Seq<char> {
    "STOP_COMMAND"@
}

/// The answer of an agent that stops: a fixed apology that fails with
/// "STOP_COMMAND".
pub fn stop_output() -> (o: AgentOutput)
    ensures
        o.content@ == stop_text(),
        o.failed_reason matches Some(f) && f@ == stop_reason(),
        o.tool_calls is None,
        o.full_history is None,
        o.usage.input_tokens == 0 && o.usage.output_tokens == 0,
{
    AgentOutput {
        content: String::from_str("I'm sorry, I will stop responding."),
        failed_reason: Some(String::from_str("STOP_COMMAND")),
        tool_calls: None,
        full_history: None,
        usage: Usage::zero(),
    }
}

/// The answer when the attention's command ends the run: the stop answer for
/// `Stop` and `Ignore`, none (go on) for `Respond`.
pub fn refused_reply(command: AttentionCommand) -> (r: Option<AgentOutput>)
    ensures
        r is Some <==> command != AttentionCommand::Respond,
        r matches Some(o) ==> (o.content@ == stop_text() && (o.failed_reason matches Some(f) && f@
            == stop_reason())),
{
    match command {
        AttentionCommand::Respond => None,
        _ => Some(stop_output()),
    }
}

/// Knowledge is looked up for the reply only when the prompt itself has no
/// knowledge value.
pub fn looks_up_knowledge(quality: ContentQuality) -> (b: bool)
    ensures
        b == (quality == ContentQuality::Ignore),
{
    match quality {
        ContentQuality::Ignore => true,
        _ => false,
    }
}

/// A prompt of good or exceptional knowledge value is added to the knowledge
/// base.
pub fn keeps_as_knowledge(quality: ContentQuality) -> (b: bool)
    ensures
        b == (quality != ContentQuality::Ignore),
{
    !looks_up_knowledge(quality)
}

impl Character {
    /// The names of the tools the character may call: those it needs, then
    /// those it may use.
    pub fn tool_names(&self) -> (r: Vec<String>)
        ensures
            texts_of(r@) == texts_of(self.learning.tools@) + texts_of(self.learning.optional_tools@),
    {
        let mut r: Vec<String> = Vec::new();
        let ghost a = self.learning.tools@;
        let ghost b = self.learning.optional_tools@;
        let n = self.learning.tools.len();
        for i in 0..n
            invariant
                n == a.len(),
                a == self.learning.tools@,
                r@.len() == i,
                forall|k: int| 0 <= k < i ==> #[trigger] r@[k]@ == a[k]@,
        {
            r.push(self.learning.tools[i].clone());
        }
        let m = self.learning.optional_tools.len();
        for j in 0..m
            invariant
                n == a.len(),
                m == b.len(),
                b == self.learning.optional_tools@,
                r@.len() == n + j,
                forall|k: int| 0 <= k < n ==> #[trigger] r@[k]@ == a[k]@,
                forall|k: int| n <= k < n + j ==> #[trigger] r@[k]@ == b[k - n]@,
        {
            r.push(self.learning.optional_tools[j].clone());
        }
        assert(texts_of(r@) =~= texts_of(a) + texts_of(b));
        r
    }
}

/// The chat with a user after an exchange: the user's message and, when there
/// is one, the reply are added, and the last `MAX_CHAT_HISTORY` messages kept.
pub fn record_exchange<T>(chat: &mut Vec<T>, message: T, reply: Option<T>)
    ensures
        final(chat)@ == (match reply {
            Some(a) => old(chat)@.push(message).push(a),
            None => old(chat)@.push(message),
        }).skip(recent_start(
            (match reply {
                Some(a) => old(chat)@.push(message).push(a),
                None => old(chat)@.push(message),
            }).len(),
        )),
{
    chat.push(message);
    match reply {
        Some(a) => chat.push(a),
        None => {},
    }
    keep_recent(chat);
}

/// Whether a chat encoded in `encoded_len` bytes fits the store.
pub open spec fn fits_store(encoded_len: nat) -> bool {
    encoded_len < MAX_STORE_OBJECT_SIZE
}

/// A chat too large for the store loses its older half; `true` when it fit
/// and is kept whole. The caller encodes the chat again after a `false`, and
/// saves it if it fits then, else drops it.
pub fn shrink_to_fit<T>(chat: &mut Vec<T>, encoded_len: usize) -> (fit: bool)
    ensures
        fit == fits_store(encoded_len as nat),
        fit ==> final(chat)@ == old(chat)@,
        !fit ==> final(chat)@ == old(chat)@.skip((old(chat)@.len() / 2) as int),
{
    if encoded_len < MAX_STORE_OBJECT_SIZE {
        true
    } else {
        drop_older_half(chat);
        false
    }
}

} // verus!
