use anda::apps::nexus_config::{StoreKind, store_kind};
use anda::apps::twitter::new_tweet_request;
use anda::model::{Document, Documents};
use anda::apps::bot_config::{Llm, ModelChoice};
use anda::attention::{Attention, AttentionCommand, ContentQuality};
use anda::character::{Character, Learning, Style};
use anda::character_agent::{
    PromptCheck, keeps_as_knowledge, looks_up_knowledge, prompt_check, record_exchange, refused_reply,
    shrink_to_fit, stop_output,
};
use anda::nexus::{thread_message_collection_name, thread_resource_collection_name};
use anda::providers::gemini::{Content, ContentPart, PartKind, Role};
use anda::search::{GoogleSearch, RawItem, collect_results};
use anda::store::{MockImplemented, NotImplemented};
use anda::text::{str_compare, strip_prefix, trim};

fn strings(v: &[&str]) -> Vec<String> {
    v.iter().map(|s| s.to_string()).collect()
}

fn part(thought: Option<bool>, data: PartKind) -> ContentPart {
    ContentPart { thought, thought_signature: None, data }
}

#[test]
fn gemini_content_gives_answer_and_calls() {
    let content = Content {
        role: Some(Role::Model),
        parts: vec![
            part(Some(true), PartKind::Text("thinking".into())),
            part(None, PartKind::Text("Hello".into())),
            part(
                None,
                PartKind::FunctionCall { name: "get_weather".into(), args: Some(r#"{"location":"Shanghai"}"#.into()), id: Some("call_123".into()) },
            ),
            part(Some(false), PartKind::Text("world".into())),
            part(None, PartKind::FunctionCall { name: "now".into(), args: None, id: None }),
        ],
    };
    let (text, calls) = content.to_output();
    assert_eq!(text, "Hello\nworld");
    assert_eq!(calls.len(), 2);
    assert_eq!(calls[0].id, "call_123");
    assert_eq!(calls[0].name, "get_weather");
    assert_eq!(calls[0].args, r#"{"location":"Shanghai"}"#);
    assert_eq!(calls[1].id, "");
    assert_eq!(calls[1].args, "null");
    assert_eq!(Role::Model.to_text(), "assistant");
    assert_eq!(Role::default_value().to_text(), "user");
}

fn character() -> Character {
    Character {
        name: "Anda ICP".to_string(),
        username: "anda_bot".to_string(),
        identity: "Scientist \"and\" Prophet".to_string(),
        description: "Sees the future.".to_string(),
        traits: strings(&["brave", "kind"]),
        goals: strings(&["save the world", "learn"]),
        topics: strings(&["physics"]),
        style: Style {
            tone: strings(&["formal"]),
            chat: strings(&["friendly"]),
            post: strings(&[]),
            adjectives: strings(&[]),
            interests: strings(&["time"]),
            meme_phrases: strings(&[]),
        },
        learning: Learning {
            active_inquiry: strings(&[]),
            memory: "long".to_string(),
            persona_flexibility: "high".to_string(),
            mechanics: strings(&["reflection"]),
            tools: strings(&["search"]),
            optional_tools: strings(&[]),
        },
    }
}

#[test]
fn character_request_presents_the_character() {
    let c = character();
    let req = c.to_request("Who are you?".to_string(), Some("alice".to_string()));
    let system = req.system.unwrap();
    assert!(system.starts_with(
        "# **Core Digital Identity**\nYou are **Anda ICP** (@anda_bot) - a `mysterious` entity manifesting as:\n*\"Scientist \\\"and\\\" Prophet\"*\n\n**System Identifier**:\n`@anda_bot`\n\n**Existential Essence**:\n\"Sees the future.\"\n\n"
    ));
    assert!(system.contains("⚡ **Neural Signatures**:\n```\nbrave |\nkind\n```"));
    assert!(system.contains("💡 **Dialogue Algorithms**:\n◆ friendly\n"));
    assert!(system.contains("🌉 **Metaphor Framework**:\n\"Keep responses concise and under 280 characters\""));
    assert!(system.contains("I evolve while honoring my prime directive:\n*learn*"));
    assert_eq!(req.system_name.as_deref(), Some("Anda ICP"));
    assert_eq!(req.prompt, "Who are you?");
    assert_eq!(req.prompter_name.as_deref(), Some("alice"));
    assert!(req.documents.0.is_empty());
}

#[test]
fn search_results_keep_complete_items() {
    let items = vec![
        RawItem { title: Some("a".into()), link: Some("https://a".into()), snippet: Some("sa".into()) },
        RawItem { title: Some("b".into()), link: None, snippet: Some("sb".into()) },
        RawItem { title: Some("c".into()), link: Some("https://c".into()), snippet: Some("sc".into()) },
    ];
    let r = collect_results(&items);
    assert_eq!(r.len(), 2);
    assert_eq!((r[0].title.as_str(), r[0].link.as_str(), r[0].snippet.as_str()), ("a", "https://a", "sa"));
    assert_eq!(r[1].title, "c");
}

#[test]
fn thread_collections_are_named_by_id() {
    assert_eq!(thread_message_collection_name(42), "42_messages");
    assert_eq!(thread_resource_collection_name(0), "0_resources");
}

#[test]
fn stand_in_stores() {
    assert_eq!(NotImplemented.top_n("ns", "q", 3), Err("not implemented".to_string()));
    assert_eq!(NotImplemented.top_n_ids("ns", "q", 3), Err("not implemented".to_string()));
    assert_eq!(MockImplemented.top_n("ns", "q", 3), Ok(vec![]));
    assert_eq!(MockImplemented.top_n_ids("ns", "q", 3), Ok(vec![]));
}

#[test]
fn text_helpers() {
    assert_eq!(trim("  a b \n"), "a b");
    assert_eq!(strip_prefix("RT_tool", "RT_"), Some("tool".to_string()));
    assert_eq!(strip_prefix("RA_tool", "RT_"), None);
    assert!(str_compare("abc", "abd") < 0);
    assert_eq!(str_compare("abc", "abc"), 0);
    assert!(str_compare("b", "abc") > 0);
}

#[test]
fn google_search_url() {
    let g = GoogleSearch::new("k".to_string(), "c x".to_string(), None);
    assert_eq!(g.result_number, 5);
    assert_eq!(
        g.search_url("rust & verus").as_deref(),
        Some("https://www.googleapis.com/customsearch/v1?key=k&cx=c+x&num=5&q=rust+%26+verus")
    );
    let g = GoogleSearch::new("k".to_string(), "c".to_string(), Some(10));
    assert_eq!(g.search_url("q").as_deref(), Some("https://www.googleapis.com/customsearch/v1?key=k&cx=c&num=10&q=q"));
}

#[test]
fn character_agent_tools_and_checks() {
    let mut c = character();
    c.learning.optional_tools = strings(&["fetch", "calc"]);
    assert_eq!(c.tool_names(), strings(&["search", "fetch", "calc"]));
    let a = Attention::new(vec![], 4, 3);
    assert_eq!(prompt_check(&a, "hi there"), PromptCheck::AskAttention);
    assert_eq!(prompt_check(&a, "0123456789ab"), PromptCheck::EvaluateQuality);
    let o = stop_output();
    assert_eq!(o.content, "I'm sorry, I will stop responding.");
    assert_eq!(o.failed_reason.as_deref(), Some("STOP_COMMAND"));
    assert!(refused_reply(AttentionCommand::Stop).is_some());
    assert!(refused_reply(AttentionCommand::Ignore).is_some());
    assert!(refused_reply(AttentionCommand::Respond).is_none());
    assert!(looks_up_knowledge(ContentQuality::Ignore));
    assert!(!keeps_as_knowledge(ContentQuality::Ignore));
    assert!(keeps_as_knowledge(ContentQuality::Good));
    assert!(!looks_up_knowledge(ContentQuality::Exceptional));
}

#[test]
fn character_agent_keeps_recent_chat() {
    let mut chat: Vec<u32> = (0..41).collect();
    record_exchange(&mut chat, 100, Some(101));
    assert_eq!(chat.len(), 42);
    assert_eq!(chat[0], 1);
    assert_eq!(chat[41], 101);
    let mut chat: Vec<u32> = vec![1, 2];
    record_exchange(&mut chat, 3, None);
    assert_eq!(chat, vec![1, 2, 3]);
    let mut chat: Vec<u32> = vec![1, 2, 3, 4, 5];
    assert!(shrink_to_fit(&mut chat, 10));
    assert_eq!(chat.len(), 5);
    assert!(!shrink_to_fit(&mut chat, 2 * 1024 * 1024));
    assert_eq!(chat, vec![3, 4, 5]);
}

fn llm(openai_key: &str, deepseek_model: &str, deepseek_endpoint: &str) -> Llm {
    Llm {
        deepseek_api_key: "dk".to_string(),
        deepseek_endpoint: deepseek_endpoint.to_string(),
        deepseek_model: deepseek_model.to_string(),
        cohere_api_key: "ck".to_string(),
        cohere_embedding_model: "embed-multilingual-v3.0".to_string(),
        openai_api_key: openai_key.to_string(),
        openai_endpoint: String::new(),
        openai_embedding_model: "text-embedding-3-small".to_string(),
        openai_completion_model: "gpt-4o".to_string(),
    }
}

#[test]
fn bot_model_choice_prefers_openai() {
    match llm("ok", "", "").model_choice() {
        ModelChoice::OpenAi { api_key, endpoint, completion_model, embedding_model } => {
            assert_eq!(api_key, "ok");
            assert!(endpoint.is_none());
            assert_eq!(completion_model, "gpt-4o");
            assert_eq!(embedding_model, "text-embedding-3-small");
        }
        _ => panic!("OpenAI expected"),
    }
    match llm("", "", "https://ds").model_choice() {
        ModelChoice::DeepSeekCohere { deepseek_endpoint, deepseek_model, cohere_embedding_model, .. } => {
            assert_eq!(deepseek_endpoint.as_deref(), Some("https://ds"));
            assert_eq!(deepseek_model, "deepseek-chat");
            assert_eq!(cohere_embedding_model, "embed-multilingual-v3.0");
        }
        _ => panic!("DeepSeek expected"),
    }
    match llm("", "deepseek-reasoner", "").model_choice() {
        ModelChoice::DeepSeekCohere { deepseek_endpoint, deepseek_model, .. } => {
            assert!(deepseek_endpoint.is_none());
            assert_eq!(deepseek_model, "deepseek-reasoner");
        }
        _ => panic!("DeepSeek expected"),
    }
}

#[test]
fn new_tweet_needs_knowledge() {
    let c = character();
    assert!(new_tweet_request(&c, None, Documents(vec![])).is_none());
    let docs = Documents(vec![Document::new("1".to_string(), "fresh news".to_string())]);
    let req = new_tweet_request(&c, Some("anda_bot".to_string()), docs).unwrap();
    assert_eq!(
        req.prompt,
        "Share a single brief thought or observation in one short sentence.Be direct and concise. No questions, hashtags, or emojis."
    );
    assert_eq!(req.prompter_name.as_deref(), Some("anda_bot"));
    assert_eq!(req.documents.0.len(), 1);
    assert_eq!(req.documents.0[0].text, "fresh news");
    assert!(req.system.unwrap().starts_with("# **Core Digital Identity**"));
}

#[test]
fn nexus_store_kind_from_config() {
    assert!(matches!(store_kind("", None), StoreKind::InMemory));
    assert!(matches!(store_kind("in_memory", None), StoreKind::InMemory));
    match store_kind("s3", Some(vec![("AWS_REGION".to_string(), "us-east-1".to_string())])) {
        StoreKind::S3(settings) => assert_eq!(settings, vec![("aws_region".to_string(), "us-east-1".to_string())]),
        _ => panic!("S3 expected"),
    }
    match store_kind("s3", None) {
        StoreKind::S3(settings) => assert!(settings.is_empty()),
        _ => panic!("S3 expected"),
    }
    match store_kind("./data", None) {
        StoreKind::Local(dir) => assert_eq!(dir, "./data"),
        _ => panic!("local expected"),
    }
}

#[test]
fn character_post_section_lists_post_styles() {
    let mut c = character();
    c.style.chat = strings(&["a"]);
    c.style.post = strings(&["P"]);
    let req = c.to_request("q".to_string(), None);
    let system = req.system.unwrap();
    assert!(system.contains("**Knowledge Broadcast Patterns**:\n▸ P\n"));
    assert!(system.contains("**Dialogue Algorithms**:\n◆ a\n"));
    assert!(req.tools.is_empty());
    assert!(req.chat_history.is_empty());
    assert!(!req.tool_choice_required);
    assert!(req.max_tokens.is_none());
}
