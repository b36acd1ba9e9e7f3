//! The character of an agent plugin, and the completion request that
//! presents it to a model.
use vstd::prelude::*;
use crate::text::{join, join_spec, texts_of};
use crate::model::CompletionRequest;

verus! {

/// The communication style of a character.
#[derive(Debug)]
pub struct Style {
    pub tone: Vec<String>,
    pub chat: Vec<String>,
    pub post: Vec<String>,
    pub adjectives: Vec<String>,
    pub interests: Vec<String>,
    pub meme_phrases: Vec<String>,
    /// Example messages for reference.
    pub example_messages: Vec<String>,
}

/// The character of an agent plugin.
#[derive(Debug)]
pub struct Character {
    /// The name, e.g. "Anda".
    pub name: String,
    /// The profession, status or role.
    pub identity: String,
    /// The backstory.
    pub description: String,
    pub traits: Vec<String>,
    pub goals: Vec<String>,
    pub topics: Vec<String>,
    pub style: Style,
    /// Tools the character needs.
    pub tools: Vec<String>,
    /// Tools the character may use.
    pub optional_tools: Vec<String>,
}

/// The system message that defines a character.
pub open spec fn plugin_character_system(c: Character) -> Seq<char> {
    "Character Definition:\nYour name: "@
        + c.name@
        + "\nYour identity: "@
        + c.identity@
        + "\nBackground: "@
        + c.description@
        + "\nPersonality traits: "@
        + join_spec(texts_of(c.traits@), ", "@)
        + "\nMotivations and goals: "@
        + join_spec(texts_of(c.goals@), ", "@)
        + "\nTopics of expertise: "@
        + join_spec(texts_of(c.topics@), ", "@)
}

/// The style context document of a character.
pub open spec fn plugin_style_context(c: Character) -> Seq<char> {
    "Your personality and communication style:\n- Tone of speech: "@
        + join_spec(texts_of(c.style.tone@), ", "@)
        + "\nCommunication style:\n- In chat: "@
        + join_spec(texts_of(c.style.chat@), ", "@)
        + "\n- In posts: "@
        + join_spec(texts_of(c.style.post@), ", "@)
        + "\n\nExpression elements:\n- Common adjectives: "@
        + join_spec(texts_of(c.style.adjectives@), ", "@)
        + "\n\nPersonal elements:\n- Key interests: "@
        + join_spec(texts_of(c.style.interests@), ", "@)
        + "\n- Meme-related phrases: "@
        + join_spec(texts_of(c.style.meme_phrases@), ", "@)
        + "\n\nExample messages for reference:\n"@
        + join_spec(texts_of(c.style.example_messages@), "\n"@)
}

impl Character {
    /// The system message that defines this character.
    pub fn system_text(&self) -> (r: String)
        ensures
            r@ == plugin_character_system(*self),
    {
        let mut s = String::new();
        s.append("Character Definition:\nYour name: ");
        s.append(self.name.as_str());
        s.append("\nYour identity: ");
        s.append(self.identity.as_str());
        s.append("\nBackground: ");
        s.append(self.description.as_str());
        s.append("\nPersonality traits: ");
        let s1 = join(&self.traits, ", ");
        s.append(s1.as_str());
        s.append("\nMotivations and goals: ");
        let s2 = join(&self.goals, ", ");
        s.append(s2.as_str());
        s.append("\nTopics of expertise: ");
        let s3 = join(&self.topics, ", ");
        s.append(s3.as_str());
        s
    }

    /// The style context document of this character.
    pub fn style_context(&self) -> (r: String)
        ensures
            r@ == plugin_style_context(*self),
    {
        let mut t = String::new();
        t.append("Your personality and communication style:\n- Tone of speech: ");
        let t1 = join(&self.style.tone, ", ");
        t.append(t1.as_str());
        t.append("\nCommunication style:\n- In chat: ");
        let t2 = join(&self.style.chat, ", ");
        t.append(t2.as_str());
        t.append("\n- In posts: ");
        let t3 = join(&self.style.post, ", ");
        t.append(t3.as_str());
        t.append("\n\nExpression elements:\n- Common adjectives: ");
        let t4 = join(&self.style.adjectives, ", ");
        t.append(t4.as_str());
        t.append("\n\nPersonal elements:\n- Key interests: ");
        let t5 = join(&self.style.interests, ", ");
        t.append(t5.as_str());
        t.append("\n- Meme-related phrases: ");
        let t6 = join(&self.style.meme_phrases, ", ");
        t.append(t6.as_str());
        t.append("\n\nExample messages for reference:\n");
        let t7 = join(&self.style.example_messages, "\n");
        t.append(t7.as_str());
        t
    }

    /// The completion request of a prompt to this character: the character
    /// as the system message, with its style as a context document named
    /// "style_context".
    pub fn to_request(&self, prompt: String) -> (r: CompletionRequest)
        ensures
            r.system matches Some(s) && s@ == plugin_character_system(*self),
            r.prompt == prompt,
            r.documents.0@.len() == 1,
            r.documents.0@[0].id@ == "style_context"@,
            r.documents.0@[0].text@ == plugin_style_context(*self),
            r.documents.0@[0].additional_props@.len() == 0,
            r.system_name is None && r.prompter_name is None,
            r.tools@.len() == 0 && r.chat_history@.len() == 0 && r.content_parts@.len() == 0,
            !r.tool_choice_required && r.max_tokens is None,
            r.response_format is None && r.stop is None,
    {
        let r = CompletionRequest::new(Some(self.system_text()), prompt);
        r.context(String::from_str("style_context"), self.style_context())
    }
}

} // verus!
