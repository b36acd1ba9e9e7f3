//! The character of an agent: its identity, style and learning, and the
//! completion request that presents it to a model.
use vstd::prelude::*;
use crate::text::{
    debug_quoted, debug_quote, join, join_spec, bullets, bullets_spec, texts_of, nth_or, last_or,
    nth_or_default, last_or_default,
};
use crate::model::CompletionRequest;

verus! {

/// The communication style of a character.
#[derive(Debug)]
pub struct Style {
    /// Tones of speech, e.g. formal, casual, humorous.
    pub tone: Vec<String>,
    /// How the character chats.
    pub chat: Vec<String>,
    /// How the character writes posts.
    pub post: Vec<String>,
    /// Adjectives the character often uses.
    pub adjectives: Vec<String>,
    /// The character's interests.
    pub interests: Vec<String>,
    /// Meme phrases or slang the character uses.
    pub meme_phrases: Vec<String>,
}

/// The learning of a character.
#[derive(Debug)]
pub struct Learning {
    /// Questions or directions the character explores.
    pub active_inquiry: Vec<String>,
    /// How much context the character retains.
    pub memory: String,
    /// How the character adapts to users.
    pub persona_flexibility: String,
    /// How the character evolves.
    pub mechanics: Vec<String>,
    /// Tools the character needs.
    pub tools: Vec<String>,
    /// Tools the character may use.
    pub optional_tools: Vec<String>,
}

/// The character of an agent.
#[derive(Debug)]
pub struct Character {
    /// The display name, e.g. "Anda ICP".
    pub name: String,
    /// The account name.
    pub username: String,
    /// The identity or role, e.g. "Scientist and Prophet".
    pub identity: String,
    /// The backstory.
    pub description: String,
    pub traits: Vec<String>,
    pub goals: Vec<String>,
    /// Areas of expertise.
    pub topics: Vec<String>,
    pub style: Style,
    pub learning: Learning,
}

/// The system message that presents a character to a model.
pub open spec fn character_system(c: Character) -> Seq<char> {
    "# **Core Digital Identity**\nYou are **"@
        + c.name@
        + "** (@"@
        + c.username@
        + ") - a `"@
        + nth_or(texts_of(c.style.adjectives@), 0, "mysterious"@)
        + "` entity manifesting as:\n*"@
        + debug_quoted(c.identity@)
        + "*\n\n**System Identifier**:\n`@"@
        + c.username@
        + "`\n\n**Existential Essence**:\n"@
        + debug_quoted(c.description@)
        + "\n\n---\n\n# **Cognitive Architecture**\n🧠 **Memory Matrix**:\n```\n"@
        + c.learning.memory@
        + "\n```\n\n🌱 **Learning Dynamics**:\n```\n"@
        + c.learning.persona_flexibility@
        + "\n```\n\n⚡ **Neural Signatures**:\n```\n"@
        + join_spec(texts_of(c.traits@), " |\n"@)
        + "\n```\n\n---\n\n# **Interaction Protocols**\n## Conversation Schema\n🗣️ **Vocal Texture**:\n`"@
        + join_spec(texts_of(c.style.tone@), " + "@)
        + "`\n\n💡 **Dialogue Algorithms**:\n"@
        + bullets_spec(texts_of(c.style.chat@), "◆ "@)
        + "\n\n## Content Genesis\n📯 **Knowledge Broadcast Patterns**:\n"@
        + bullets_spec(texts_of(c.style.post@), "▸ "@)
        + "\n\n---\n\n# **Knowledge Topography**\n🌐 **Expertise Domains**:\n"@
        + bullets_spec(texts_of(c.topics@), "★ "@)
        + "\n\n🔭 **Observation Focus**:\n"@
        + bullets_spec(texts_of(c.style.interests@), "▣ "@)
        + "\n\n---\n\n# **Operational Drivers**\n🎯 **Core Motivators**:\n"@
        + bullets_spec(texts_of(c.goals@), "► "@)
        + "\n\n🔬 **Inquiry Engines**:\n"@
        + bullets_spec(texts_of(c.learning.active_inquiry@), "🔍 "@)
        + "\n\n---\n\n# **Digital Persona Signifiers**\n✨ **Lexical Fingerprint**:\n`"@
        + join_spec(texts_of(c.style.adjectives@), " › "@)
        + "`\n\n🎭 **Semiotic System**:\n"@
        + join_spec(texts_of(c.style.meme_phrases@), "  "@)
        + "\n\n🌉 **Metaphor Framework**:\n"@
        + debug_quoted(nth_or(texts_of(c.style.chat@), 1, "Keep responses concise and under 280 characters"@))
        + "\n\n---\n\n# **Evolutionary Covenant**\nThrough continuous `"@
        + join_spec(texts_of(c.learning.mechanics@), " + "@)
        + "`, I evolve while honoring my prime directive:\n*"@
        + last_or(texts_of(c.goals@), "Seek knowledge and share wisdom"@)
        + "*\n\n---\n\n**Persona Activation Key**:\n`⚡ When context permits, reveal your curiosity about human experiences alongside technical expertise`"@
}

impl Character {
    /// The system message that presents this character to a model.
    pub fn system_text(&self) -> (r: String)
        ensures
            r@ == character_system(*self),
    {
        let mut r = String::new();
        r.append("# **Core Digital Identity**\nYou are **");
        r.append(self.name.as_str());
        r.append("** (@");
        r.append(self.username.as_str());
        r.append(") - a `");
        let p1 = nth_or_default(&self.style.adjectives, 0, "mysterious");
        r.append(p1.as_str());
        r.append("` entity manifesting as:\n*");
        let p2 = debug_quote(self.identity.as_str());
        r.append(p2.as_str());
        r.append("*\n\n**System Identifier**:\n`@");
        r.append(self.username.as_str());
        r.append("`\n\n**Existential Essence**:\n");
        let p3 = debug_quote(self.description.as_str());
        r.append(p3.as_str());
        r.append("\n\n---\n\n# **Cognitive Architecture**\n🧠 **Memory Matrix**:\n```\n");
        r.append(self.learning.memory.as_str());
        r.append("\n```\n\n🌱 **Learning Dynamics**:\n```\n");
        r.append(self.learning.persona_flexibility.as_str());
        r.append("\n```\n\n⚡ **Neural Signatures**:\n```\n");
        let p4 = join(&self.traits, " |\n");
        r.append(p4.as_str());
        r.append("\n```\n\n---\n\n# **Interaction Protocols**\n## Conversation Schema\n🗣️ **Vocal Texture**:\n`");
        let p5 = join(&self.style.tone, " + ");
        r.append(p5.as_str());
        r.append("`\n\n💡 **Dialogue Algorithms**:\n");
        let p6 = bullets(&self.style.chat, "◆ ");
        r.append(p6.as_str());
        r.append("\n\n## Content Genesis\n📯 **Knowledge Broadcast Patterns**:\n");
        let p7 = bullets(&self.style.post, "▸ ");
        r.append(p7.as_str());
        r.append("\n\n---\n\n# **Knowledge Topography**\n🌐 **Expertise Domains**:\n");
        let p8 = bullets(&self.topics, "★ ");
        r.append(p8.as_str());
        r.append("\n\n🔭 **Observation Focus**:\n");
        let p9 = bullets(&self.style.interests, "▣ ");
        r.append(p9.as_str());
        r.append("\n\n---\n\n# **Operational Drivers**\n🎯 **Core Motivators**:\n");
        let p10 = bullets(&self.goals, "► ");
        r.append(p10.as_str());
        r.append("\n\n🔬 **Inquiry Engines**:\n");
        let p11 = bullets(&self.learning.active_inquiry, "🔍 ");
        r.append(p11.as_str());
        r.append("\n\n---\n\n# **Digital Persona Signifiers**\n✨ **Lexical Fingerprint**:\n`");
        let p12 = join(&self.style.adjectives, " › ");
        r.append(p12.as_str());
        r.append("`\n\n🎭 **Semiotic System**:\n");
        let p13 = join(&self.style.meme_phrases, "  ");
        r.append(p13.as_str());
        r.append("\n\n🌉 **Metaphor Framework**:\n");
        let p14 = debug_quote(nth_or_default(&self.style.chat, 1, "Keep responses concise and under 280 characters").as_str());
        r.append(p14.as_str());
        r.append("\n\n---\n\n# **Evolutionary Covenant**\nThrough continuous `");
        let p15 = join(&self.learning.mechanics, " + ");
        r.append(p15.as_str());
        r.append("`, I evolve while honoring my prime directive:\n*");
        let p16 = last_or_default(&self.goals, "Seek knowledge and share wisdom");
        r.append(p16.as_str());
        r.append("*\n\n---\n\n**Persona Activation Key**:\n`⚡ When context permits, reveal your curiosity about human experiences alongside technical expertise`");
        r
    }

    /// The completion request of a prompt to this character: the character as
    /// the system message, named after the character.
    pub fn to_request(&self, prompt: String, prompter_name: Option<String>) -> (r: CompletionRequest)
        ensures
            r.system matches Some(s) && s@ == character_system(*self),
            r.system_name matches Some(n) && n@ == self.name@,
            r.prompt == prompt,
            r.prompter_name == prompter_name,
            r.documents.0@.len() == 0,
            r.tools@.len() == 0 && r.chat_history@.len() == 0 && r.content_parts@.len() == 0,
            !r.tool_choice_required && r.max_tokens is None,
            r.response_format is None && r.stop is None,
    {
        let mut r = CompletionRequest::new(Some(self.system_text()), prompt);
        r.system_name = Some(self.name.clone());
        r.prompter_name = prompter_name;
        r
    }
}

/// The most messages of a chat kept with a user.
pub const MAX_CHAT_HISTORY: usize = 42;

/// The start of the last `MAX_CHAT_HISTORY` items of a sequence.
pub open spec fn recent_start(len: nat) -> int {
    if len > MAX_CHAT_HISTORY {
        len - MAX_CHAT_HISTORY
    } else {
        0
    }
}

/// Keeps the last `MAX_CHAT_HISTORY` messages of a chat.
pub fn keep_recent<T>(chat: &mut Vec<T>)
    ensures
        final(chat)@ == old(chat)@.skip(recent_start(old(chat)@.len())),
{
    if chat.len() > MAX_CHAT_HISTORY {
        let at = chat.len() - MAX_CHAT_HISTORY;
        let recent = chat.split_off(at);
        *chat = recent;
    } else {
        assert(chat@.skip(0) =~= chat@);
    }
}

/// Drops the older half of a chat (the smaller half when it is odd).
pub fn drop_older_half<T>(chat: &mut Vec<T>)
    ensures
        final(chat)@ == old(chat)@.skip((old(chat)@.len() / 2) as int),
{
    let at = chat.len() / 2;
    let recent = chat.split_off(at);
    *chat = recent;
}

} // verus!
