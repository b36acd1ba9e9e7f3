use std::time::Duration;

use anda::apps::cli::{rand_bytes_len, render_bytes};
use anda::apps::twitter::{
    DaemonActions, daemon_step, mention_query, conversation_prompt, forget_old_seen, mention_to_handle, recent_seen, timeline_tweet_to_handle,
};
use anda::completion::{
    CallPlan, failed_by_tool, needs_another_round, next_round_request, plan_tool_calls, reported_tool_calls,
};
use anda::assistant::{
    ConversationStatus, RoundError, check_assistant_caller, conversation_period, history_cut, record_round,
    round_status,
};
use anda::attention::{Attention, AttentionCommand, ContentQuality};
use anda::cache::{CacheExpiry, expire_after_create, expire_after_read, expire_after_update};
use anda::character::{drop_older_half, keep_recent};
use anda::engines::{Information, RegisterError, RemoteEngineArgs, RemoteEngines};
use anda::function::{Function, FunctionDefinition, FunctionNameError};
use anda::management::{
    ManagementBuilder, ManagementError, UserStateToolArgs, UserStateWrapper, Visibility,
    check_thread_meta_call, check_user_state_access, check_user_state_args,
};
use anda::plugin_attention;
use anda::plugin_character::{Character, Style};
use anda::principal::Principal;
use anda::segmenter::DocumentSegmenter;

#[test]
fn test_agent() {
    let _agent = plugin_attention::Attention::default_value();
}

#[test]
fn plugin_attention_prechecks() {
    let a = plugin_attention::Attention::default_value();
    assert_eq!(a.min_prompt_len, 10);
    assert_eq!(a.reply_precheck("please shut up now"), Some(plugin_attention::AttentionCommand::Stop));
    assert_eq!(a.reply_precheck("hi"), Some(plugin_attention::AttentionCommand::Ignore));
    assert_eq!(a.reply_precheck("what do you think of it?"), None);
}

#[test]
fn attention_prechecks_read_lowercase() {
    let a = Attention::default_value();
    assert_eq!(a.reply_precheck("Hey, SHUT UP please, enough of this"), Some(AttentionCommand::Stop));
    assert_eq!(a.reply_precheck("ÉCOUTE: Be Quiet"), Some(AttentionCommand::Stop));
    assert_eq!(a.reply_precheck("hello"), Some(AttentionCommand::Ignore));
    assert_eq!(a.reply_precheck("Tell me about the Internet Computer"), None);
    assert!(!a.worth_evaluating("short text"));
    assert!(a.worth_evaluating(&"x".repeat(180)));
    assert!(a.worth_deciding("a post long enough"));
    assert!(!a.worth_deciding("tiny"));
    assert_eq!(AttentionCommand::default_value(), AttentionCommand::Ignore);
    assert_eq!(ContentQuality::default_value(), ContentQuality::Ignore);
}

#[test]
fn attention_requests_carry_the_content() {
    let a = Attention::default_value();
    let r = a.evaluation_request("ARTICLE");
    assert!(r.system.unwrap().starts_with("You are an expert evaluator"));
    assert!(r.prompt.ends_with("## Below is the full content of the article:\n\nARTICLE"));
}

#[test]
fn character_test_character_agent() {
    let character = Character {
        name: "Anda".to_string(),
        identity: "Scientist and Prophet".to_string(),
        description: "Anda is a scientist and prophet who has the ability to see the future.".to_string(),
        traits: vec!["brave".to_string(), "cunning".to_string(), "kind".to_string()],
        goals: vec!["save the world".to_string(), "prevent the apocalypse".to_string()],
        topics: vec!["quantum physics".to_string(), "time travel".to_string()],
        style: Style {
            tone: vec!["formal".to_string(), "casual".to_string()],
            chat: vec!["friendly".to_string(), "helpful".to_string()],
            post: vec!["insightful".to_string(), "thought-provoking".to_string()],
            adjectives: vec!["brave".to_string(), "cunning".to_string()],
            interests: vec!["quantum physics".to_string(), "time travel".to_string()],
            meme_phrases: vec!["I have seen the future".to_string(), "The end is near".to_string()],
            example_messages: vec!["Hello, I am Anda".to_string(), "The future is uncertain".to_string()],
        },
        tools: vec!["submit_character".to_string()],
        optional_tools: vec![],
    };
    let req = character.to_request("Who are you?".to_string());
    let system = req.system.as_ref().unwrap();
    assert!(system.starts_with("Character Definition:\nYour name: Anda\nYour identity: Scientist and Prophet\n"));
    assert!(system.ends_with("Topics of expertise: quantum physics, time travel"));
    assert_eq!(req.prompt, "Who are you?");
    assert_eq!(req.documents.0.len(), 1);
    assert_eq!(req.documents.0[0].id, "style_context");
    assert!(req.documents.0[0].text.starts_with("Your personality and communication style:\n- Tone of speech: formal, casual"));
}

#[test]
fn chat_history_is_trimmed() {
    let mut chat: Vec<u32> = (0..50).collect();
    keep_recent(&mut chat);
    assert_eq!(chat.len(), 42);
    assert_eq!(chat[0], 8);
    let mut short: Vec<u32> = (0..5).collect();
    keep_recent(&mut short);
    assert_eq!(short, vec![0, 1, 2, 3, 4]);
    drop_older_half(&mut short);
    assert_eq!(short, vec![2, 3, 4]);
}

#[test]
fn segmenter_single_segment_as_json() {
    let s = DocumentSegmenter::new("segment".to_string(), 5, 1000);
    assert!(s.fits_one_segment("short"));
    assert!(!s.fits_one_segment(&"x".repeat(20)));
    let (out, agent) = s.single_segment("say \"hi\"\n");
    assert_eq!(out.segments, vec!["say \"hi\"\n".to_string()]);
    let calls = agent.tool_calls.unwrap();
    assert_eq!(calls.len(), 1);
    assert_eq!(calls[0].name, "segment");
    assert_eq!(calls[0].args, r#"{"segments":["say \"hi\"\n"]}"#);
    assert_eq!(calls[0].result.as_deref(), Some(calls[0].args.as_str()));
    assert!(s.system_text().contains("must not exceed 5 tokens"));
    assert!(s.prompt_text("DOC").starts_with("Document Content:\nDOC"));
}

#[test]
fn assistant_history_cut_and_status() {
    assert_eq!(history_cut(100, &vec![30, 30, 30], 50), 2);
    assert_eq!(history_cut(40, &vec![30, 30], 50), 0);
    assert_eq!(history_cut(100, &vec![10], 50), 1);
    assert_eq!(history_cut(100, &vec![], 50), 0);
    assert_eq!(round_status(true, false, true), (ConversationStatus::Completed, false));
    assert_eq!(round_status(false, true, false), (ConversationStatus::Failed, true));
    assert_eq!(round_status(false, false, false), (ConversationStatus::Working, false));
    assert_eq!(round_status(false, false, true), (ConversationStatus::Canceled, true));
    assert_eq!(conversation_period(7_200_000), 2);
}

#[test]
fn random_bytes_are_rendered() {
    assert_eq!(rand_bytes_len(32), 32);
    assert_eq!(rand_bytes_len(5000), 1024);
    let bytes = vec![1u8, 2, 3, 15, 16, 255];
    assert_eq!(render_bytes(&bytes, "hex"), "0102030f10ff");
    assert_eq!(render_bytes(&bytes, "base64"), "AQIDDxD_");
    assert_eq!(render_bytes(&bytes, "raw"), "[1, 2, 3, 15, 16, 255]");
    assert_eq!(render_bytes(&vec![], "raw"), "[]");
}

#[test]
fn cache_expiry_policies() {
    let ttl = Some(CacheExpiry::TTL(Duration::from_secs(10)));
    let tti = Some(CacheExpiry::TTI(Duration::from_secs(20)));
    assert_eq!(expire_after_create(&ttl), Some(Duration::from_secs(10)));
    assert_eq!(expire_after_create(&None), None);
    assert_eq!(expire_after_read(&ttl, Some(Duration::from_secs(3))), Some(Duration::from_secs(3)));
    assert_eq!(expire_after_read(&tti, Some(Duration::from_secs(3))), Some(Duration::from_secs(20)));
    assert_eq!(expire_after_update(&tti), Some(Duration::from_secs(20)));
}

fn function(name: &str) -> Function {
    Function {
        definition: FunctionDefinition {
            name: name.to_string(),
            description: String::new(),
            parameters: "{}".to_string(),
            strict: None,
        },
        supported_resource_tags: vec![],
    }
}

fn info(name: &str) -> Information {
    Information {
        id: Principal::from_slice(&[7]),
        name: name.to_string(),
        description: "an engine".to_string(),
        agents: vec![function("chat"), function("plan")],
        tools: vec![function("add"), function("sub")],
        endpoint: "ignored".to_string(),
    }
}

fn args(endpoint: &str, agents: &[&str], tools: &[&str], name: Option<&str>) -> RemoteEngineArgs {
    RemoteEngineArgs {
        endpoint: endpoint.to_string(),
        agents: agents.iter().map(|s| s.to_string()).collect(),
        tools: tools.iter().map(|s| s.to_string()).collect(),
        name: name.map(|s| s.to_string()),
    }
}

#[test]
fn remote_engines_register_and_route() {
    let mut engines = RemoteEngines::new();
    engines.register_info(args("https://calc", &[], &["add"], None), info("Calc")).unwrap();
    engines.register_info(args("https://bot", &["chat"], &[], Some("bot")), info("Bot")).unwrap();
    assert_eq!(engines.engines.len(), 2);
    assert_eq!(engines.engines[0].0, "bot");
    assert_eq!(engines.engines[1].0, "calc");
    assert_eq!(engines.engines[1].1.tools.len(), 1);
    assert_eq!(engines.engines[1].1.endpoint, "https://calc");
    assert_eq!(engines.engines[0].1.agents.len(), 1);
    assert_eq!(engines.engines[0].1.tools.len(), 2);
    assert_eq!(
        engines.get_tool_endpoint("RT_calcadd"),
        Some(("https://calc".to_string(), "add".to_string()))
    );
    assert_eq!(
        engines.get_agent_endpoint("RA_botchat"),
        Some(("https://bot".to_string(), "chat".to_string()))
    );
    assert_eq!(engines.get_tool_endpoint("RA_calcadd"), None);
    assert!(engines.get_id_by_endpoint("https://calc").is_some());
    assert!(engines.get_id_by_endpoint("https://none").is_none());
    let names: Vec<String> = engines.tool_definitions(None, None).into_iter().map(|d| d.name).collect();
    assert_eq!(names, vec!["RT_botadd", "RT_botsub", "RT_calcadd"]);
    engines.register_info(args("https://calc2", &[], &[], Some("calc")), info("Calc")).unwrap();
    assert_eq!(engines.engines.len(), 2);
    assert_eq!(engines.engines[1].1.endpoint, "https://calc2");
}

#[test]
fn remote_engines_refuse_bad_registrations() {
    let mut engines = RemoteEngines::new();
    match engines.register_info(args("e", &[], &[], None), info("My Engine")) {
        Err(RegisterError::InvalidName(n, FunctionNameError::InvalidChar(' '))) => assert_eq!(n, "my engine"),
        other => panic!("unexpected {:?}", other),
    }
    match engines.register_info(args("e", &["chat", "draw", "sing"], &[], None), info("calc")) {
        Err(RegisterError::AgentNotFound(a, n)) => {
            assert_eq!(a, "draw");
            assert_eq!(n, "calc");
        }
        other => panic!("unexpected {:?}", other),
    }
    match engines.register_info(args("e", &[], &["mul"], None), info("calc")) {
        Err(RegisterError::ToolNotFound(t, n)) => {
            assert_eq!(t, "mul");
            assert_eq!(n, "calc");
        }
        other => panic!("unexpected {:?}", other),
    }
    assert!(engines.engines.is_empty());
}

#[test]
fn management_visibility_and_user_state() {
    let controller = Principal::from_slice(&[1]);
    let m = ManagementBuilder::new(Visibility::Private, controller.copy())
        .with_managers(vec![Principal::from_slice(&[2])])
        .build();
    assert_eq!(m.try_get_visibility(&controller), Ok(Visibility::Private));
    assert_eq!(m.try_get_visibility(&Principal::from_slice(&[2])), Ok(Visibility::Private));
    assert_eq!(m.try_get_visibility(&Principal::from_slice(&[3])), Err(ManagementError::CallerNotAllowed));
    assert_eq!(m.try_get_visibility(&Principal::anonymous()), Err(ManagementError::AnonymousNotAllowed));
    let public = ManagementBuilder::new(Visibility::Public, controller.copy()).build();
    assert_eq!(public.try_get_visibility(&Principal::anonymous()), Ok(Visibility::Public));
    assert_eq!(Visibility::Protected.to_u8(), 1);

    let user = Principal::from_slice(&[9]);
    let mut w = UserStateWrapper::new(user.copy());
    assert!(!w.has_permission(&user, 10));
    w.topup_credit(100, 1000);
    assert!(w.has_permission(&user, 10));
    assert!(!w.has_permission(&controller, 10));
    assert!(w.consume_credit(100, 10));
    assert_eq!(w.credit(), (0, 1000));
    w.topup_credit(u64::MAX, 1000);
    w.topup_credit(5, 2000);
    assert_eq!(w.credit(), (u64::MAX, 2000));
    assert!(!w.consume_credit(1, 3000));
    w.increment_agent_requests(42);
    assert_eq!(w.state.agent_requests, 1);
    assert_eq!(w.state.last_access, 42);
    w.update_subscription(1, 5000);
    assert_eq!(w.subscription(), (1, 5000));
}

#[test]
fn user_state_requests_are_checked() {
    let now = 1_000;
    let day = 86_400_000;
    let topup = UserStateToolArgs::TopupCredit { user: "u".into(), credit: 1, expiry: now + day - 1 };
    assert_eq!(check_user_state_args(&topup, now), Err(ManagementError::ExpiryTooShort));
    let sub = UserStateToolArgs::UpdateSubscription { user: "u".into(), tier: 11, expiry: now + day };
    assert_eq!(check_user_state_args(&sub, now), Err(ManagementError::TierTooHigh(11)));
    let status = UserStateToolArgs::UpdateStatus { user: "u".into(), status: 1 };
    assert_eq!(check_user_state_args(&status, now), Err(ManagementError::InvalidStatus(1)));
    let ok = UserStateToolArgs::UpdateStatus { user: "u".into(), status: -2 };
    assert_eq!(check_user_state_args(&ok, now), Ok(()));
    let get = UserStateToolArgs::GetUserState { user: "u".into() };
    assert_eq!(check_user_state_access(&get, false, true), Ok(()));
    assert_eq!(check_user_state_access(&ok, false, true), Err(ManagementError::NoPermission));
    assert_eq!(check_user_state_access(&ok, true, false), Ok(()));
}

#[test]
fn tool_calls_are_planned_once_each() {
    let mut offered = vec!["a".to_string(), "b".to_string(), "c".to_string()];
    let calls = vec!["a".to_string(), "x".to_string(), "a".to_string(), "b".to_string()];
    let local = vec!["a".to_string()];
    let plans = plan_tool_calls(&mut offered, &calls, &local);
    assert_eq!(plans, vec![CallPlan::Local, CallPlan::Skip, CallPlan::Skip, CallPlan::Elsewhere]);
    assert_eq!(offered, vec!["c".to_string()]);
    assert!(needs_another_round(&vec![false, true]));
    assert!(!needs_another_round(&vec![false, false]));
    assert!(!needs_another_round(&vec![]));
}

#[test]
fn twitter_bot_decisions() {
    let seen: Vec<String> = vec!["1".to_string(), "2".to_string()];
    assert!(mention_to_handle("hello", "alice", "3", "Anda_Bot", &seen));
    assert!(!mention_to_handle("hello", "alice", "2", "Anda_Bot", &seen));
    assert!(!mention_to_handle("hello", "ANDA_BOT", "3", "Anda_Bot", &seen));
    assert!(!mention_to_handle("", "alice", "3", "Anda_Bot", &seen));
    assert!(!mention_to_handle("hello", "", "3", "Anda_Bot", &seen));
    assert!(timeline_tweet_to_handle("hello", "", "3", "Anda_Bot", &seen));
    assert!(!timeline_tweet_to_handle("hello", "alice", "", "Anda_Bot", &seen));

    let mut many: Vec<String> = (0..10000).map(|i| i.to_string()).collect();
    forget_old_seen(&mut many);
    assert_eq!(many.len(), 5000);
    assert_eq!(many[0], "5000");
    let mut few: Vec<String> = (0..10).map(|i| i.to_string()).collect();
    forget_old_seen(&mut few);
    assert_eq!(few.len(), 10);
    let recent = recent_seen(&many);
    assert_eq!(recent.len(), 42);
    assert_eq!(recent[0], "9958");
    assert_eq!(recent_seen(&few).len(), 10);

    let one = vec![("alice".to_string(), "hi".to_string())];
    assert_eq!(conversation_prompt("hi".to_string(), &one), "hi");
    let two = vec![("alice".to_string(), "hi".to_string()), ("bob".to_string(), "say \"yes\"".to_string())];
    assert_eq!(conversation_prompt("say \"yes\"".to_string(), &two), "alice: \"hi\"\nbob: \"say \\\"yes\\\"\"");
}

#[test]
fn remote_engines_route_to_first_prefix() {
    let mut engines = RemoteEngines::new();
    engines.register_info(args("https://ab", &[], &[], Some("ab")), info("Ab")).unwrap();
    engines.register_info(args("https://abc", &[], &[], Some("abc")), info("Abc")).unwrap();
    assert_eq!(
        engines.get_tool_endpoint("RT_abcadd"),
        Some(("https://ab".to_string(), "cadd".to_string()))
    );
    assert_eq!(
        engines.get_tool_endpoint("RT_abadd"),
        Some(("https://ab".to_string(), "add".to_string()))
    );
}

#[test]
fn management_error_messages() {
    assert_eq!(ManagementError::TierTooHigh(9).message(), "tier 9 is too high");
    assert_eq!(ManagementError::InvalidStatus(-3).message(), "invalid status -3");
    assert_eq!(ManagementError::InvalidStatus(2).message(), "invalid status 2");
    assert_eq!(ManagementError::InvalidStatus(-128).message(), "invalid status -128");
    assert_eq!(ManagementError::UserIdRequired.message(), "user_id is required");
    assert_eq!(ManagementError::AnonymousNotAllowed.message(), "anonymous caller not allowed");
}

#[test]
fn daemon_rounds() {
    assert_eq!(daemon_step(true, 0, 0), DaemonActions::WaitStopped);
    assert_eq!(daemon_step(false, 0, 5), DaemonActions::Run { home_timeline: true, post_tweet: false });
    assert_eq!(daemon_step(false, 3, 0), DaemonActions::Run { home_timeline: false, post_tweet: true });
    assert_eq!(mention_query("anda_bot"), "@anda_bot");
}

#[test]
fn attention_reply_request() {
    let a = Attention::default_value();
    let req = a.reply_request(
        "anda",
        &vec!["ai".to_string(), "icp".to_string()],
        &vec!["bob: String(\"hi\")".to_string(), "amy: String(\"yo\")".to_string()],
        "bob: String(\"anda?\")",
    );
    let system = req.system.unwrap();
    assert!(system.starts_with("You are anda.\nYou are part of a multi-user discussion environment."));
    assert!(system.ends_with("- STOP: The user has explicitly requested you to stop or the conversation has ended."));
    assert_eq!(
        req.prompt,
        "## Assigned Conversation Topics:\nai, icp\n## Recent Messages:\nbob: String(\"hi\")\namy: String(\"yo\")\n## Latest message:\nbob: String(\"anda?\")\n\n## Decision Task:\nEvaluate whether the latest message requires your response. Choose one response option from the list above and provide a brief explanation for your choice."
    );
}

#[test]
fn completion_calls_each_tool_once() {
    let mut offered = vec!["a".to_string(), "b".to_string()];
    let plans = plan_tool_calls(&mut offered, &vec!["a".to_string(), "a".to_string()], &vec!["a".to_string()]);
    assert_eq!(plans, vec![CallPlan::Local, CallPlan::Skip]);
    assert_eq!(offered, vec!["b".to_string()]);
    let plans = plan_tool_calls(&mut offered, &vec!["b".to_string()], &vec![]);
    assert_eq!(plans, vec![CallPlan::Elsewhere]);
    assert!(offered.is_empty());
}

#[test]
fn segmenter_escapes_control_characters() {
    let s = DocumentSegmenter::new("segment".to_string(), 5, 1000);
    let (_, agent) = s.single_segment("a\\b\u{1}\t\u{8}\u{c}\r/é");
    let calls = agent.tool_calls.unwrap();
    assert_eq!(calls[0].args, "{\"segments\":[\"a\\\\b\\u0001\\t\\b\\f\\r/é\"]}");
}

#[test]
fn assistant_records_rounds() {
    let mut stored: Vec<(&str, u64)> = vec![("prompt", 1)];
    assert_eq!(record_round(&mut stored, vec![], true, 1, 5, None), Err(RoundError::NoFirstResponse));
    assert_eq!(stored, vec![("prompt", 1)]);
    record_round(&mut stored, vec!["user", "call", "answer"], true, 1, 5, None).unwrap();
    assert_eq!(stored, vec![("user", 1), ("call", 1), ("answer", 5)]);
    record_round(&mut stored, vec!["user", "call", "answer", "tool", "final"], false, 1, 9, Some("failed")).unwrap();
    assert_eq!(stored, vec![("user", 1), ("call", 1), ("answer", 5), ("tool", 9), ("final", 9), ("failed", 9)]);
    assert!(check_assistant_caller(&Principal::anonymous()).is_err());
    assert!(check_assistant_caller(&Principal::from_slice(&[1])).is_ok());
    assert_eq!(
        check_assistant_caller(&Principal::anonymous()).unwrap_err().message(),
        "anonymous caller not allowed"
    );
}

#[test]
fn thread_meta_call_guards() {
    assert_eq!(check_thread_meta_call(true, &Principal::from_slice(&[1])), Err(ManagementError::ResourcesNotSupported));
    assert_eq!(check_thread_meta_call(false, &Principal::anonymous()), Err(ManagementError::AnonymousUserNotAllowed));
    assert!(check_thread_meta_call(false, &Principal::from_slice(&[1])).is_ok());
    assert_eq!(ManagementError::ResourcesNotSupported.message(), "resources are not supported");
    assert_eq!(ManagementError::AnonymousUserNotAllowed.message(), "anonymous user is not allowed");
}

#[test]
fn completion_next_round() {
    let req = anda::model::CompletionRequest::new(Some("sys".to_string()), "p".to_string()).context("1".to_string(), "d".to_string());
    let r = next_round_request(req, Some(vec!["h1".to_string()]), vec!["tool result".to_string()]);
    assert!(r.system.is_none());
    assert!(r.documents.0.is_empty());
    assert_eq!(r.prompt, "");
    assert_eq!(r.chat_history, vec!["h1".to_string(), "tool result".to_string()]);
    let out = failed_by_tool(anda::model::AgentOutput::with_content("c".to_string()), "boom".to_string());
    assert_eq!(out.failed_reason.as_deref(), Some("boom"));
    assert_eq!(out.content, "c");
    assert!(reported_tool_calls(vec![]).is_none());
}
