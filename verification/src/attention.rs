//! Attention decisions of an agent in a shared conversation: when to
//! evaluate content or a message at all, the requests that ask a model, and
//! how the model's answer is read.
use vstd::prelude::*;
use crate::text::{
    ascii_lower, contains_seq, debug_quoted, debug_quote, str_contains, to_ascii_lowercase,
    to_lowercase, unicode_lower, join, join_spec, texts_of,
};
use crate::model::{CompletionRequest, evaluate_tokens};
use crate::thread_info::byte_len;

verus! {

/// What to do about a message.
#[derive(Debug, Clone, Copy, PartialEq, Eq, Structural)]
pub enum AttentionCommand {
    Stop,
    Ignore,
    Respond,
}

/// The knowledge value of a piece of content.
#[derive(Debug, Clone, Copy, PartialEq, Eq, Structural)]
pub enum ContentQuality {
    Ignore,
    Good,
    Exceptional,
}

impl AttentionCommand {
    /// The default command.
    pub fn default_value() -> (c: AttentionCommand)
        ensures
            c == AttentionCommand::Ignore,
    {
        AttentionCommand::Ignore
    }
}

impl ContentQuality {
    /// The default quality.
    pub fn default_value() -> (q: ContentQuality)
        ensures
            q == ContentQuality::Ignore,
    {
        ContentQuality::Ignore
    }
}

/// The phrases with which users ask an agent to stop talking.
pub open spec fn stop_phrases() -> Seq<Seq<char>> {
    seq!["shut up"@, "dont talk"@, "silence"@, "stop talking"@, "be quiet"@, "hush"@, "wtf"@, "stfu"@, "stupid bot"@, "dumb bot"@, "stop responding"@, "can you not"@, "can you stop"@]
}

/// The texts of a list of strings.
pub open spec fn texts(v: Seq<String>) -> Seq<Seq<char>> {
    v.map_values(|s: String| s@)
}

/// Some phrase of `phrases` occurs in `text`.
pub open spec fn mentions_any(text: Seq<char>, phrases: Seq<Seq<char>>) -> bool {
    exists|i: int| 0 <= i < phrases.len() && contains_seq(text, #[trigger] phrases[i])
}

/// What a model's answer to an evaluation request says of the content: the
/// answer mentions HIGH_REWARD, or else MEDIUM_REWARD; no answer is no value.
pub open spec fn spec_quality_of(answer: Option<Seq<char>>) -> ContentQuality {
    match answer {
        Some(a) => if contains_seq(a, "HIGH_REWARD"@) {
            ContentQuality::Exceptional
        } else if contains_seq(a, "MEDIUM_REWARD"@) {
            ContentQuality::Good
        } else {
            ContentQuality::Ignore
        },
        None => ContentQuality::Ignore,
    }
}

/// What a model's answer to a reply request commands: the answer mentions
/// RESPOND, or else STOP; no answer means to ignore the message.
pub open spec fn spec_command_of(answer: Option<Seq<char>>) -> AttentionCommand {
    match answer {
        Some(a) => if contains_seq(a, "RESPOND"@) {
            AttentionCommand::Respond
        } else if contains_seq(a, "STOP"@) {
            AttentionCommand::Stop
        } else {
            AttentionCommand::Ignore
        },
        None => AttentionCommand::Ignore,
    }
}


/// An evaluation answer ranks content by the highest reward it names: one
/// that names HIGH_REWARD is exceptional, one that names only MEDIUM_REWARD
/// is good, one that names neither (or no answer) is ignored; and an answer
/// naming HIGH_REWARD ranks above any answer that does not.
pub proof fn evaluation_answer_ranks(a: Seq<char>, b: Seq<char>)
    ensures
        contains_seq(a, "HIGH_REWARD"@) ==> spec_quality_of(Some(a)) == ContentQuality::Exceptional,
        !contains_seq(a, "HIGH_REWARD"@) && contains_seq(a, "MEDIUM_REWARD"@) ==> spec_quality_of(Some(a))
            == ContentQuality::Good,
        !contains_seq(a, "HIGH_REWARD"@) && !contains_seq(a, "MEDIUM_REWARD"@) ==> spec_quality_of(Some(a))
            == ContentQuality::Ignore,
        spec_quality_of(None) == ContentQuality::Ignore,
        contains_seq(a, "HIGH_REWARD"@) && !contains_seq(b, "HIGH_REWARD"@) ==> spec_quality_of(Some(a))
            != spec_quality_of(Some(b)),
{
}

/// A model's yes-or-no answer is yes when its ASCII lowercase mentions
/// "true"; no answer is no.
pub open spec fn spec_answer_is_yes(answer: Option<Seq<char>>) -> bool {
    match answer {
        Some(a) => contains_seq(ascii_lower(a), "true"@),
        None => false,
    }
}


/// A reply answer commands a reply when it names RESPOND (whatever else it
/// names), a stop when it names STOP but not RESPOND, and otherwise (or
/// without an answer) to ignore the message; an answer never commands a stop
/// while naming RESPOND.
pub proof fn reply_answer_commands(a: Seq<char>)
    ensures
        contains_seq(a, "RESPOND"@) ==> spec_command_of(Some(a)) == AttentionCommand::Respond,
        !contains_seq(a, "RESPOND"@) && contains_seq(a, "STOP"@) ==> spec_command_of(Some(a))
            == AttentionCommand::Stop,
        !contains_seq(a, "RESPOND"@) && !contains_seq(a, "STOP"@) ==> spec_command_of(Some(a))
            == AttentionCommand::Ignore,
        spec_command_of(Some(a)) == AttentionCommand::Stop ==> contains_seq(a, "STOP"@),
        spec_command_of(Some(a)) == AttentionCommand::Respond ==> contains_seq(a, "RESPOND"@),
        spec_command_of(None) == AttentionCommand::Ignore,
{
}

/// A yes-or-no answer is yes exactly when its ASCII lowercase mentions
/// "true"; no answer is never yes.
pub proof fn yes_answer_law(a: Seq<char>)
    ensures
        spec_answer_is_yes(Some(a)) <==> contains_seq(ascii_lower(a), "true"@),
        !spec_answer_is_yes(None),
{
}

/// The text of an optional answer.
pub open spec fn answer_view(answer: Option<&str>) -> Option<Seq<char>> {
    match answer {
        Some(a) => Some(a@),
        None => None,
    }
}

/// Reads a model's answer to an evaluation request (`None` when the
/// completion failed).
pub fn quality_of(answer: Option<&str>) -> (q: ContentQuality)
    ensures
        q == spec_quality_of(answer_view(answer)),
        answer matches Some(a) && contains_seq(a@, "HIGH_REWARD"@) ==> q == ContentQuality::Exceptional,
        answer matches Some(a) && !contains_seq(a@, "HIGH_REWARD"@) && contains_seq(a@, "MEDIUM_REWARD"@)
            ==> q == ContentQuality::Good,
        answer matches Some(a) && !contains_seq(a@, "HIGH_REWARD"@) && !contains_seq(a@, "MEDIUM_REWARD"@)
            ==> q == ContentQuality::Ignore,
        answer is None ==> q == ContentQuality::Ignore,
{
    match answer {
        Some(a) => {
            if str_contains(a, "HIGH_REWARD") {
                ContentQuality::Exceptional
            } else if str_contains(a, "MEDIUM_REWARD") {
                ContentQuality::Good
            } else {
                ContentQuality::Ignore
            }
        },
        None => ContentQuality::Ignore,
    }
}

/// Reads a model's answer to a reply request (`None` when the completion failed).
pub fn command_of(answer: Option<&str>) -> (c: AttentionCommand)
    ensures
        c == spec_command_of(answer_view(answer)),
{
    match answer {
        Some(a) => {
            if str_contains(a, "RESPOND") {
                AttentionCommand::Respond
            } else if str_contains(a, "STOP") {
                AttentionCommand::Stop
            } else {
                AttentionCommand::Ignore
            }
        },
        None => AttentionCommand::Ignore,
    }
}

/// Reads a model's yes-or-no answer (`None` when the completion failed).
pub fn answer_is_yes(answer: Option<&str>) -> (b: bool)
    ensures
        b == spec_answer_is_yes(answer_view(answer)),
{
    match answer {
        Some(a) => {
            let lower = to_ascii_lowercase(a);
            str_contains(lower.as_str(), "true")
        },
        None => false,
    }
}

/// Whether some phrase of `phrases` occurs in `text`.
pub fn find_any(text: &str, phrases: &Vec<String>) -> (b: bool)
    ensures
        b == mentions_any(text@, texts(phrases@)),
{
    let mut i: usize = 0;
    while i < phrases.len()
        invariant
            i <= phrases.len(),
            forall|k: int| 0 <= k < i ==> !contains_seq(text@, #[trigger] texts(phrases@)[k]),
        decreases phrases.len() - i,
    {
        if str_contains(text, phrases[i].as_str()) {
            assert(contains_seq(text@, texts(phrases@)[i as int]));
            return true;
        }
        i = i + 1;
    }
    false
}

/// The system message of a content evaluation.
pub open spec fn evaluation_system() -> Seq<char> {
    "You are an expert evaluator for article content quality, specializing in assessing knowledge value. Your task is to analyze the provided article, classify its quality into three levels, and determine the appropriate storage and reward action.\n\n## Evaluation criteria:\n1. Knowledge Depth: Does the article provide detailed, well-researched, or expert-level insights?\n2. Originality: Is the content unique, creative, or innovative?\n3. Relevance: Is the content actionable, practical, or useful for the intended audience?\n\n## Classification Levels:\n- HIGH_REWARD: The article has exceptional knowledge value, with deep insights, originality, and significant relevance.\n- MEDIUM_REWARD: The article has good knowledge value, meeting most criteria but with some areas for improvement.\n- IGNORE: The article does not meet the criteria for high or medium knowledge value and requires no action."@
}

/// The prompt of a content evaluation, before the content.
pub open spec fn evaluation_prompt_head() -> Seq<char> {
    "## Evaluation Task:\n1. Analyze the article based on Knowledge Depth, Originality, and Relevance.\n2. Classify the article into one of the three levels:\n- HIGH_REWARD: Exceptional quality.\n- MEDIUM_REWARD: Good quality.\n- IGNORE: Low quality or no significant knowledge value.\n3. Provide a brief explanation for your classification, citing specific strengths or weaknesses of the article.\n\n## Below is the full content of the article:\n\n"@
}

/// The system message of a decision to like a post.
pub open spec fn like_system() -> Seq<char> {
    "You are tasked with deciding whether to like a post. Your decision should be based on the following criteria:\n- Positivity: Does the post convey a positive or uplifting tone?\n- Interest: Is the post engaging, thought-provoking, or entertaining?\n- Relevance: Is the post aligned with your assigned interests or context?\n\nIf the post meets at least one of these criteria, respond with 'true'. Otherwise, respond with 'false'.\n            "@
}

/// The system message of a decision to retweet a post.
pub open spec fn retweet_system() -> Seq<char> {
    "You are tasked with deciding whether to retweet a post. Your decision should be based on the following criteria:\n- High Value: Does the post provide significant knowledge, insights, or meaningful contributions?\n- Interest: Is the post highly engaging, thought-provoking, or likely to resonate with a broader audience?\n- Alignment: Does the post reflect your values, beliefs, or the message you want to amplify?\n\nRetweet only if the post strongly satisfies at least one of these criteria."@
}

/// The system message of a decision to quote a post.
pub open spec fn quote_system() -> Seq<char> {
    "You are tasked with deciding whether to quote a post. Base your decision on the following criteria:\n- Deserves Commentary: Does the post raise a point, idea, or question that merits your unique perspective or opinion?\n- Needs Additional Context: Could the post's content benefit from clarification, expansion, or supplementary information to enhance its value?\n- Warrants Thoughtful Response: Does the post address a topic or issue that requires a nuanced, constructive, or meaningful reply?\n\nQuote the post only if it satisfies at least one of these criteria significantly."@
}

/// The prompt of a decision on a post: the post quoted as `{:?}` does, and the task.
pub open spec fn post_prompt(content: Seq<char>) -> Seq<char> {
    "## Post Content:\n"@ + debug_quoted(content) + "\n\n## Decision Task:\nEvaluate the post based on the criteria above and respond with only 'true' or 'false'."@
}

/// The prompt of a decision on a post.
fn post_prompt_text(content: &str) -> (r: String)
    ensures
        r@ == post_prompt(content@),
{
    let mut r = String::from_str("## Post Content:\n");
    let q = debug_quote(content);
    r.append(q.as_str());
    r.append("\n\n## Decision Task:\nEvaluate the post based on the criteria above and respond with only 'true' or 'false'.");
    r
}

/// An agent's attention: the stop phrases it heeds and the least number of
/// tokens of a message, and of content, worth a model's decision.
#[derive(Debug)]
pub struct Attention {
    /// The stop phrases, matched against lowercase messages.
    pub phrases: Vec<String>,
    pub min_prompt_tokens: usize,
    pub min_content_tokens: usize,
}

impl Attention {
    /// The stop phrases.
    pub open spec fn phrases_view(&self) -> Seq<Seq<char>> {
        texts(self.phrases@)
    }

    /// An attention with the given stop phrases and thresholds.
    pub fn new(phrases: Vec<String>, min_prompt_tokens: usize, min_content_tokens: usize) -> (a: Attention)
        ensures
            a.phrases_view() == texts(phrases@),
            a.min_prompt_tokens == min_prompt_tokens,
            a.min_content_tokens == min_content_tokens,
    {
        Attention { phrases, min_prompt_tokens, min_content_tokens }
    }

    /// The default attention: the usual stop phrases, 4 tokens for a message
    /// and 60 for content.
    pub fn default_value() -> (a: Attention)
        ensures
            a.phrases_view() == stop_phrases(),
            a.min_prompt_tokens == 4,
            a.min_content_tokens == 60,
    {
        let mut phrases: Vec<String> = Vec::new();
        phrases.push(String::from_str("shut up"));
        phrases.push(String::from_str("dont talk"));
        phrases.push(String::from_str("silence"));
        phrases.push(String::from_str("stop talking"));
        phrases.push(String::from_str("be quiet"));
        phrases.push(String::from_str("hush"));
        phrases.push(String::from_str("wtf"));
        phrases.push(String::from_str("stfu"));
        phrases.push(String::from_str("stupid bot"));
        phrases.push(String::from_str("dumb bot"));
        phrases.push(String::from_str("stop responding"));
        phrases.push(String::from_str("can you not"));
        phrases.push(String::from_str("can you stop"));
        assert(texts(phrases@) =~= stop_phrases());
        Attention { phrases, min_prompt_tokens: 4, min_content_tokens: 60 }
    }

    /// Content shorter than `min_content_tokens` is not worth evaluating
    /// (its quality is `Ignore` without asking a model).
    pub fn worth_evaluating(&self, content: &str) -> (b: bool)
        ensures
            b == (byte_len(content@) / 3 >= self.min_content_tokens),
    {
        evaluate_tokens(content) >= self.min_content_tokens
    }

    /// The request that asks a model for the knowledge value of content.
    pub fn evaluation_request(&self, content: &str) -> (r: CompletionRequest)
        ensures
            r.system matches Some(s) && s@ == evaluation_system(),
            r.prompt@ == evaluation_prompt_head() + content@,
            r.documents.0@.len() == 0,
    {
        let system = String::from_str("You are an expert evaluator for article content quality, specializing in assessing knowledge value. Your task is to analyze the provided article, classify its quality into three levels, and determine the appropriate storage and reward action.\n\n## Evaluation criteria:\n1. Knowledge Depth: Does the article provide detailed, well-researched, or expert-level insights?\n2. Originality: Is the content unique, creative, or innovative?\n3. Relevance: Is the content actionable, practical, or useful for the intended audience?\n\n## Classification Levels:\n- HIGH_REWARD: The article has exceptional knowledge value, with deep insights, originality, and significant relevance.\n- MEDIUM_REWARD: The article has good knowledge value, meeting most criteria but with some areas for improvement.\n- IGNORE: The article does not meet the criteria for high or medium knowledge value and requires no action.");
        let mut prompt = String::from_str("## Evaluation Task:\n1. Analyze the article based on Knowledge Depth, Originality, and Relevance.\n2. Classify the article into one of the three levels:\n- HIGH_REWARD: Exceptional quality.\n- MEDIUM_REWARD: Good quality.\n- IGNORE: Low quality or no significant knowledge value.\n3. Provide a brief explanation for your classification, citing specific strengths or weaknesses of the article.\n\n## Below is the full content of the article:\n\n");
        prompt.append(content);
        CompletionRequest::new(Some(system), prompt)
    }

    /// What a message commands before any model is asked: `Stop` when its
    /// lowercase text holds a stop phrase, `Ignore` when that text is shorter
    /// than `min_prompt_tokens`; `None` when a model must decide.
    pub fn reply_precheck(&self, message: &str) -> (r: Option<AttentionCommand>)
        ensures
            mentions_any(unicode_lower(message@), self.phrases_view()) ==> r == Some(
                AttentionCommand::Stop,
            ),
            !mentions_any(unicode_lower(message@), self.phrases_view()) && byte_len(
                unicode_lower(message@),
            ) / 3 < self.min_prompt_tokens ==> r == Some(AttentionCommand::Ignore),
            !mentions_any(unicode_lower(message@), self.phrases_view()) && byte_len(
                unicode_lower(message@),
            ) / 3 >= self.min_prompt_tokens ==> r is None,
    {
        let lower = to_lowercase(message);
        if find_any(lower.as_str(), &self.phrases) {
            return Some(AttentionCommand::Stop);
        }
        if evaluate_tokens(lower.as_str()) < self.min_prompt_tokens {
            return Some(AttentionCommand::Ignore);
        }
        None
    }

    /// A post shorter than `min_prompt_tokens` gets no like, retweet or quote
    /// (without asking a model).
    pub fn worth_deciding(&self, content: &str) -> (b: bool)
        ensures
            b == (byte_len(content@) / 3 >= self.min_prompt_tokens),
    {
        evaluate_tokens(content) >= self.min_prompt_tokens
    }

    /// The request that asks a model whether to like a post.
    pub fn like_request(&self, content: &str) -> (r: CompletionRequest)
        ensures
            r.system matches Some(s) && s@ == like_system(),
            r.prompt@ == post_prompt(content@),
            r.documents.0@.len() == 0,
    {
        CompletionRequest::new(Some(String::from_str("You are tasked with deciding whether to like a post. Your decision should be based on the following criteria:\n- Positivity: Does the post convey a positive or uplifting tone?\n- Interest: Is the post engaging, thought-provoking, or entertaining?\n- Relevance: Is the post aligned with your assigned interests or context?\n\nIf the post meets at least one of these criteria, respond with 'true'. Otherwise, respond with 'false'.\n            ")), post_prompt_text(content))
    }

    /// The request that asks a model whether to retweet a post.
    pub fn retweet_request(&self, content: &str) -> (r: CompletionRequest)
        ensures
            r.system matches Some(s) && s@ == retweet_system(),
            r.prompt@ == post_prompt(content@),
            r.documents.0@.len() == 0,
    {
        CompletionRequest::new(Some(String::from_str("You are tasked with deciding whether to retweet a post. Your decision should be based on the following criteria:\n- High Value: Does the post provide significant knowledge, insights, or meaningful contributions?\n- Interest: Is the post highly engaging, thought-provoking, or likely to resonate with a broader audience?\n- Alignment: Does the post reflect your values, beliefs, or the message you want to amplify?\n\nRetweet only if the post strongly satisfies at least one of these criteria.")), post_prompt_text(content))
    }

    /// The request that asks a model whether to quote a post.
    pub fn quote_request(&self, content: &str) -> (r: CompletionRequest)
        ensures
            r.system matches Some(s) && s@ == quote_system(),
            r.prompt@ == post_prompt(content@),
            r.documents.0@.len() == 0,
    {
        CompletionRequest::new(Some(String::from_str("You are tasked with deciding whether to quote a post. Base your decision on the following criteria:\n- Deserves Commentary: Does the post raise a point, idea, or question that merits your unique perspective or opinion?\n- Needs Additional Context: Could the post's content benefit from clarification, expansion, or supplementary information to enhance its value?\n- Warrants Thoughtful Response: Does the post address a topic or issue that requires a nuanced, constructive, or meaningful reply?\n\nQuote the post only if it satisfies at least one of these criteria significantly.")), post_prompt_text(content))
    }
}

/// The system message that asks whether to reply, for an agent named `name`.
pub open spec fn reply_system(name: Seq<char>) -> Seq<char> {
    "You are "@ + name + ".\n"@ + reply_rules()
}

/// The rules of the reply decision.
pub open spec fn reply_rules() -> Seq<char> {
    "You are part of a multi-user discussion environment. Your primary task is to evaluate the relevance of each message to your assigned conversation topics and decide whether to respond. Always prioritize messages that directly mention you or are closely related to the conversation topic.\n\n## Response options:\n- RESPOND: The message is directly addressed to you or is highly relevant to the conversation topic.\n- IGNORE: The message is not addressed to you and is unrelated to the conversation topic.\n- STOP: The user has explicitly requested you to stop or the conversation has ended."@
}

/// The prompt that asks whether to reply: the topics, the recent messages
/// one per line, and the latest message, each line as the speaker and the
/// message.
pub open spec fn reply_prompt(topics: Seq<Seq<char>>, recent: Seq<Seq<char>>, latest: Seq<char>) -> Seq<char> {
    "## Assigned Conversation Topics:\n"@ + join_spec(topics, ", "@) + "\n## Recent Messages:\n"@
        + join_spec(recent, "\n"@) + "\n## Latest message:\n"@ + latest + reply_task()
}

/// The closing task of the reply prompt.
pub open spec fn reply_task() -> Seq<char> {
    "\n\n## Decision Task:\nEvaluate whether the latest message requires your response. Choose one response option from the list above and provide a brief explanation for your choice."@
}

impl Attention {
    /// The request that asks a model whether the agent `my_name`, keeping to
    /// `topics`, should reply to the latest message; `recent` and `latest`
    /// are the messages' lines (the speaker, ": " and the message).
    pub fn reply_request(&self, my_name: &str, topics: &Vec<String>, recent: &Vec<String>, latest: &str) -> (r: CompletionRequest)
        ensures
            r.system matches Some(s) && s@ == reply_system(my_name@),
            r.prompt@ == reply_prompt(texts_of(topics@), texts_of(recent@), latest@),
            r.system_name is None && r.prompter_name is None,
            r.documents.0@.len() == 0 && r.tools@.len() == 0 && r.chat_history@.len() == 0,
    {
        let mut system = "You are ".to_string();
        system.append(my_name);
        system.append(".\n");
        system.append("You are part of a multi-user discussion environment. Your primary task is to evaluate the relevance of each message to your assigned conversation topics and decide whether to respond. Always prioritize messages that directly mention you or are closely related to the conversation topic.\n\n## Response options:\n- RESPOND: The message is directly addressed to you or is highly relevant to the conversation topic.\n- IGNORE: The message is not addressed to you and is unrelated to the conversation topic.\n- STOP: The user has explicitly requested you to stop or the conversation has ended.");
        let mut prompt = "## Assigned Conversation Topics:\n".to_string();
        let t = join(topics, ", ");
        prompt.append(t.as_str());
        prompt.append("\n## Recent Messages:\n");
        let m = join(recent, "\n");
        prompt.append(m.as_str());
        prompt.append("\n## Latest message:\n");
        prompt.append(latest);
        prompt.append("\n\n## Decision Task:\nEvaluate whether the latest message requires your response. Choose one response option from the list above and provide a brief explanation for your choice.");
        CompletionRequest::new(Some(system), prompt)
    }
}

} // verus!
