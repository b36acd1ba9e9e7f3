//! Attention decisions of an agent plugin: when a message needs a model's
//! decision, and the requests that ask the model.
use vstd::prelude::*;
use crate::text::{contains_seq, str_contains};
use crate::model::CompletionRequest;
use crate::thread_info::byte_len;
use crate::attention::{mentions_any, texts, stop_phrases, find_any};

verus! {

/// What to do about a message.
#[derive(Debug, Clone, Copy, PartialEq, Eq, Structural)]
pub enum AttentionCommand {
    Respond,
    Ignore,
    Stop,
}

/// The system message of a reply decision.
pub open spec fn reply_system() -> Seq<char> {
    "You are in a room with other users. You should only respond when addressed or when the conversation is relevant to you.\n\nResponse options:\nRESPOND - Message is directed at you or conversation is relevant\nIGNORE - Message is not interesting or not directed at you\nSTOP - User wants you to stop or conversation has concluded"@
}

/// Each recent message on a line of its own, after "- ".
pub open spec fn recent_lines(msgs: Seq<Seq<char>>) -> Seq<char>
    decreases msgs.len(),
{
    if msgs.len() == 0 {
        Seq::empty()
    } else if msgs.len() == 1 {
        "- "@ + msgs[0]
    } else {
        recent_lines(msgs.drop_last()) + "\n- "@ + msgs.last()
    }
}

/// The prompt of a reply decision.
pub open spec fn reply_prompt(recent: Seq<Seq<char>>, message: Seq<char>) -> Seq<char> {
    "Recent messages:\n"@ + recent_lines(recent) + "\n\nLatest message: "@ + message + "\n\nChoose one response option:"@
}

/// The prompt of a decision on a tweet.
pub open spec fn tweet_prompt(content: Seq<char>) -> Seq<char> {
    "Tweet: "@ + content + "\n\nRespond with only 'true' or 'false':"@
}

/// The system message of a decision to like a tweet.
pub open spec fn like_system() -> Seq<char> {
    "You are deciding whether to like a tweet. Consider if the content is positive, interesting, or relevant."@
}

/// The system message of a decision to retweet.
pub open spec fn retweet_system() -> Seq<char> {
    "You are deciding whether to retweet. Only retweet if the content is highly valuable, interesting, or aligns with your values."@
}

/// The system message of a decision to quote a tweet.
pub open spec fn quote_system() -> Seq<char> {
    "You are deciding whether to quote tweet. Quote tweet if the content deserves commentary, could benefit from additional context, or warrants a thoughtful response."@
}

/// The prompt of a decision on a tweet.
fn tweet_prompt_text(content: &str) -> (r: String)
    ensures
        r@ == tweet_prompt(content@),
{
    let mut r = String::from_str("Tweet: ");
    r.append(content);
    r.append("\n\nRespond with only 'true' or 'false':");
    r
}

/// An agent plugin's attention: the stop phrases it heeds and the least
/// length in bytes of a message worth a model's decision.
#[derive(Debug)]
pub struct Attention {
    /// The stop phrases.
    pub phrases: Vec<String>,
    /// The least length of a message, in bytes.
    pub min_prompt_len: usize,
}

impl Attention {
    /// An attention with the given stop phrases and least message length.
    pub fn new(phrases: Vec<String>, min_prompt_len: usize) -> (a: Attention)
        ensures
            texts(a.phrases@) == texts(phrases@),
            a.min_prompt_len == min_prompt_len,
    {
        Attention { phrases, min_prompt_len }
    }

    /// The default attention: the usual stop phrases and 10 bytes.
    pub fn default_value() -> (a: Attention)
        ensures
            texts(a.phrases@) == stop_phrases(),
            a.min_prompt_len == 10,
    {
        let mut phrases: Vec<String> = Vec::new();
        phrases.push(String::from_str("shut up"));
        phrases.push(String::from_str("dont talk"));
        phrases.push(String::from_str("silence"));
        phrases.push(String::from_str("stop talking"));
        phrases.push(String::from_str("be quiet"));
        phrases.push(String::from_str("hush"));
        phrases.push(String::from_str("wtf"));
        phrases.push(String::from_str("stfu"));
        phrases.push(String::from_str("stupid bot"));
        phrases.push(String::from_str("dumb bot"));
        phrases.push(String::from_str("stop responding"));
        phrases.push(String::from_str("can you not"));
        phrases.push(String::from_str("can you stop"));
        assert(texts(phrases@) =~= stop_phrases());
        Attention { phrases, min_prompt_len: 10 }
    }

    /// What a message commands before any model is asked: `Stop` when it
    /// holds a stop phrase, `Ignore` when it is shorter than the least length;
    /// `None` when a model must decide.
    pub fn reply_precheck(&self, message: &str) -> (r: Option<AttentionCommand>)
        ensures
            mentions_any(message@, texts(self.phrases@)) ==> r == Some(AttentionCommand::Stop),
            !mentions_any(message@, texts(self.phrases@)) && byte_len(message@)
                < self.min_prompt_len ==> r == Some(AttentionCommand::Ignore),
            !mentions_any(message@, texts(self.phrases@)) && byte_len(message@)
                >= self.min_prompt_len ==> r is None,
    {
        if find_any(message, &self.phrases) {
            return Some(AttentionCommand::Stop);
        }
        if message.len() < self.min_prompt_len {
            return Some(AttentionCommand::Ignore);
        }
        None
    }

    /// The request that asks a model whether to reply to the latest message.
    pub fn reply_request(&self, message: &str, recent_messages: &Vec<String>) -> (r: CompletionRequest)
        ensures
            r.system matches Some(s) && s@ == reply_system(),
            r.prompt@ == reply_prompt(texts(recent_messages@), message@),
            r.documents.0@.len() == 0,
    {
        let mut prompt = String::from_str("Recent messages:\n");
        let mut i: usize = 0;
        while i < recent_messages.len()
            invariant
                i <= recent_messages.len(),
                prompt@ == "Recent messages:\n"@ + recent_lines(texts(recent_messages@.take(i as int))),
            decreases recent_messages.len() - i,
        {
            if i > 0 {
                prompt.append("\n- ");
            } else {
                prompt.append("- ");
            }
            prompt.append(recent_messages[i].as_str());
            proof {
                let t = texts(recent_messages@.take(i + 1));
                assert(texts(recent_messages@.take(i + 1)).drop_last() =~= texts(recent_messages@.take(i as int)));
                assert(t.last() == recent_messages@[i as int]@);
                if i == 0 {
                    assert(t =~= seq![recent_messages@[0]@]);
                }
                assert(prompt@ =~= "Recent messages:\n"@ + recent_lines(t));
            }
            i = i + 1;
        }
        assert(recent_messages@.take(recent_messages.len() as int) =~= recent_messages@);
        prompt.append("\n\nLatest message: ");
        prompt.append(message);
        prompt.append("\n\nChoose one response option:");
        CompletionRequest::new(Some(String::from_str("You are in a room with other users. You should only respond when addressed or when the conversation is relevant to you.\n\nResponse options:\nRESPOND - Message is directed at you or conversation is relevant\nIGNORE - Message is not interesting or not directed at you\nSTOP - User wants you to stop or conversation has concluded")), prompt)
    }

    /// The request that asks a model whether to like a tweet.
    pub fn like_request(&self, content: &str) -> (r: CompletionRequest)
        ensures
            r.system matches Some(s) && s@ == like_system(),
            r.prompt@ == tweet_prompt(content@),
            r.documents.0@.len() == 0,
    {
        CompletionRequest::new(Some(String::from_str("You are deciding whether to like a tweet. Consider if the content is positive, interesting, or relevant.")), tweet_prompt_text(content))
    }

    /// The request that asks a model whether to retweet.
    pub fn retweet_request(&self, content: &str) -> (r: CompletionRequest)
        ensures
            r.system matches Some(s) && s@ == retweet_system(),
            r.prompt@ == tweet_prompt(content@),
            r.documents.0@.len() == 0,
    {
        CompletionRequest::new(Some(String::from_str("You are deciding whether to retweet. Only retweet if the content is highly valuable, interesting, or aligns with your values.")), tweet_prompt_text(content))
    }

    /// The request that asks a model whether to quote a tweet.
    pub fn quote_request(&self, content: &str) -> (r: CompletionRequest)
        ensures
            r.system matches Some(s) && s@ == quote_system(),
            r.prompt@ == tweet_prompt(content@),
            r.documents.0@.len() == 0,
    {
        CompletionRequest::new(Some(String::from_str("You are deciding whether to quote tweet. Quote tweet if the content deserves commentary, could benefit from additional context, or warrants a thoughtful response.")), tweet_prompt_text(content))
    }
}

/// Reads a model's answer to a reply request (`None` when the completion
/// failed): it mentions RESPOND, or else STOP; otherwise the message is ignored.
pub fn command_of(answer: Option<&str>) -> (c: AttentionCommand)
    ensures
        c == (match answer {
            Some(a) => if contains_seq(a@, "RESPOND"@) {
                AttentionCommand::Respond
            } else if contains_seq(a@, "STOP"@) {
                AttentionCommand::Stop
            } else {
                AttentionCommand::Ignore
            },
            None => AttentionCommand::Ignore,
        }),
        c == AttentionCommand::Respond ==> (answer matches Some(a) && contains_seq(a@, "RESPOND"@)),
        c == AttentionCommand::Stop ==> (answer matches Some(a) && contains_seq(a@, "STOP"@)
            && !contains_seq(a@, "RESPOND"@)),
        answer matches Some(a) && contains_seq(a@, "RESPOND"@) ==> c == AttentionCommand::Respond,
{
    match answer {
        Some(a) => {
            if str_contains(a, "RESPOND") {
                AttentionCommand::Respond
            } else if str_contains(a, "STOP") {
                AttentionCommand::Stop
            } else {
                AttentionCommand::Ignore
            }
        },
        None => AttentionCommand::Ignore,
    }
}

} // verus!
