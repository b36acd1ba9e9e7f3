use anda::chat::{ContentPart, Message};
use anda::providers::ProviderError;
use anda::providers::cohere::{self, BilledUnits, check_embedding_count};
use anda::providers::deepseek;
use anda::providers::kimi;
use anda::providers::openai::{
    ContentItem, MessageItem, ReasoningSummary, check_embedding_batch, message_from, message_into,
};

fn user_message(content: Vec<ContentPart>) -> Message {
    Message { role: "user".to_string(), content, name: None, timestamp: None }
}

#[test]
fn test_message_into_mixed_parts() {
    let msg = user_message(vec![
        ContentPart::Text { text: "hello".into() },
        ContentPart::Reasoning { text: "thinking...".into() },
        ContentPart::ToolCall { name: "sum".into(), args: r#"{"x":1}"#.into(), call_id: Some("c1".into()) },
        ContentPart::ToolOutput {
            name: "sum".into(),
            output: r#"{"ok":true}"#.into(),
            call_id: Some("c1".into()),
            remote_id: None,
        },
        ContentPart::FileData { file_uri: "http://a/b".into(), mime_type: None },
    ]);

    let items = message_into(msg);
    assert_eq!(items.len(), 4);

    if let MessageItem::Reasoning { summary, .. } = &items[0] {
        assert_eq!(summary.len(), 1);
        match &summary[0] {
            ReasoningSummary::SummaryText { text } => assert_eq!(text, "thinking..."),
        }
    } else {
        panic!("items[0] should be Reasoning");
    }

    if let MessageItem::FunctionCall { name, arguments, call_id, .. } = &items[1] {
        assert_eq!(name, "sum");
        assert_eq!(arguments, r#"{"x":1}"#);
        assert_eq!(call_id, "c1");
    } else {
        panic!("items[1] should be FunctionCall");
    }

    if let MessageItem::FunctionCallOutput { output, call_id, .. } = &items[2] {
        assert_eq!(output, r#"{"ok":true}"#);
        assert_eq!(call_id, "c1");
    } else {
        panic!("items[2] should be FunctionCallOutput");
    }

    if let MessageItem::Message { role, content, .. } = &items[3] {
        assert_eq!(role, "user");
        assert_eq!(content.len(), 2);
        match &content[0] {
            ContentItem::Text { text } => assert_eq!(text, "hello"),
            _ => panic!("content[0] should be Text"),
        }
        match &content[1] {
            ContentItem::File { file_data, file_url, file_id, filename } => {
                assert!(file_data.is_none());
                assert_eq!(file_url.as_deref(), Some("http://a/b"));
                assert!(file_id.is_none());
                assert!(filename.is_none());
            }
            _ => panic!("content[1] should be File"),
        }
    } else {
        panic!("items[3] should be Message");
    }
}

#[test]
fn test_message_from_composes_message_and_failed_reason() {
    let items = vec![
        MessageItem::Message {
            role: "assistant".into(),
            content: vec![
                ContentItem::OutputText { text: "hi".into() },
                ContentItem::Refusal { refusal: "policy fail".into() },
            ],
            status: None,
            id: None,
        },
        MessageItem::FunctionCall {
            name: "f".into(),
            arguments: r#"{"x":1}"#.into(),
            call_id: "c1".into(),
            id: None,
            status: None,
        },
        MessageItem::FunctionCallOutput {
            output: r#"{"ok":true}"#.into(),
            call_id: "c1".into(),
            id: None,
            status: None,
        },
        MessageItem::Reasoning {
            id: "".into(),
            summary: vec![ReasoningSummary::SummaryText { text: "think".into() }],
            content: None,
            status: None,
        },
    ];

    let (msg_opt, failed_reason) = message_from(items);
    assert_eq!(failed_reason.as_deref(), Some("policy fail"));

    let msg = msg_opt.expect("message should be Some");
    assert_eq!(msg.role, "assistant");
    assert_eq!(msg.content.len(), 4);

    match &msg.content[0] {
        ContentPart::Text { text } => assert_eq!(text, "hi"),
        _ => panic!("msg.content[0] should be Text"),
    }
    match &msg.content[1] {
        ContentPart::ToolCall { name, args, call_id } => {
            assert_eq!(name, "f");
            assert_eq!(args, r#"{"x":1}"#);
            assert_eq!(call_id.as_deref(), Some("c1"));
        }
        _ => panic!("msg.content[1] should be ToolCall"),
    }
    match &msg.content[2] {
        ContentPart::ToolOutput { name, output, call_id, remote_id } => {
            assert_eq!(name, "");
            assert_eq!(output, r#"{"ok":true}"#);
            assert_eq!(call_id.as_deref(), Some("c1"));
            assert!(remote_id.is_none());
        }
        _ => panic!("msg.content[2] should be ToolOutput"),
    }
    match &msg.content[3] {
        ContentPart::Reasoning { text } => assert_eq!(text, "think"),
        _ => panic!("msg.content[3] should be Reasoning"),
    }
}

#[test]
fn test_message_from_only_refusal_returns_none() {
    let items = vec![MessageItem::Message {
        role: "assistant".into(),
        content: vec![ContentItem::Refusal { refusal: "bad".into() }],
        status: None,
        id: None,
    }];

    let (msg_opt, failed_reason) = message_from(items);
    assert!(msg_opt.is_none());
    assert_eq!(failed_reason.as_deref(), Some("bad"));
}

#[test]
fn message_from_reads_arguments_as_json() {
    let items = vec![MessageItem::FunctionCall {
        name: "f".into(),
        arguments: "{ \"b\" : [1, 2],\n \"a\": null }".into(),
        call_id: "c2".into(),
        id: None,
        status: None,
    }];
    let (msg, failed) = message_from(items);
    assert!(failed.is_none());
    let msg = msg.unwrap();
    assert_eq!(msg.role, "assistant");
    match &msg.content[0] {
        ContentPart::ToolCall { args, .. } => assert_eq!(args, r#"{"a":null,"b":[1,2]}"#),
        _ => panic!("a function call becomes a tool call"),
    }
    let (msg, _) = message_from(vec![MessageItem::FunctionCallOutput {
        output: "not json".into(),
        call_id: "c3".into(),
        id: None,
        status: None,
    }]);
    match &msg.unwrap().content[0] {
        ContentPart::ToolOutput { output, .. } => assert_eq!(output, "null"),
        _ => panic!("an output becomes a tool output"),
    }
}

#[test]
fn openai_embedding_batches_are_bounded() {
    assert_eq!(check_embedding_batch(3), Ok(()));
    assert_eq!(check_embedding_batch(3000), Err(ProviderError::TooManyDocuments(1024)));
}

fn deepseek_choice(content: &str, finish: &str, refusal: Option<&str>) -> deepseek::Choice {
    deepseek::Choice {
        index: 0,
        message: deepseek::MessageOutput {
            role: "assistant".into(),
            content: content.into(),
            refusal: refusal.map(|r| r.to_string()),
            tool_calls: Some(vec![deepseek::ToolCallOutput {
                id: "t1".into(),
                kind: "function".into(),
                function: deepseek::Function { name: "search".into(), arguments: "{}".into() },
            }]),
        },
        finish_reason: finish.into(),
    }
}

fn deepseek_response(choices: Vec<deepseek::Choice>) -> deepseek::CompletionResponse {
    deepseek::CompletionResponse {
        id: "id".into(),
        object: "chat.completion".into(),
        created: 0,
        model: "deepseek-chat".into(),
        choices,
        usage: None,
    }
}

#[test]
fn deepseek_response_becomes_output() {
    let out = deepseek_response(vec![deepseek_choice("old", "stop", None), deepseek_choice("answer", "tool_calls", None)])
        .into_output()
        .unwrap();
    assert_eq!(out.content, "answer");
    assert!(out.failed_reason.is_none());
    let calls = out.tool_calls.unwrap();
    assert_eq!(calls.len(), 1);
    assert_eq!((calls[0].id.as_str(), calls[0].name.as_str(), calls[0].args.as_str()), ("t1", "search", "{}"));

    let out = deepseek_response(vec![deepseek_choice("x", "length", None)]).into_output().unwrap();
    assert_eq!(out.failed_reason.as_deref(), Some("length"));
    let out = deepseek_response(vec![deepseek_choice("x", "stop", Some("no"))]).into_output().unwrap();
    assert_eq!(out.failed_reason.as_deref(), Some("no"));
    assert_eq!(deepseek_response(vec![]).into_output().err(), Some(ProviderError::NoCompletionChoice));
    let u = deepseek::Usage { prompt_tokens: 12, total_tokens: 30 };
    assert_eq!(u.to_text(), "Prompt tokens: 12 Total tokens: 30");
}

fn kimi_choice(content: Option<&str>, finish: &str) -> kimi::Choice {
    kimi::Choice {
        index: 0,
        message: kimi::MessageOutput {
            role: "assistant".into(),
            content: content.map(|c| c.to_string()),
            tool_calls: None,
        },
        finish_reason: finish.into(),
    }
}

#[test]
fn kimi_response_failures_and_usage() {
    let r = kimi::CompletionResponse {
        id: "id".into(),
        object: "chat.completion".into(),
        created: 0,
        model: "kimi".into(),
        choices: vec![kimi_choice(None, "stop"), kimi_choice(Some("hi"), "length")],
        usage: Some(kimi::Usage { prompt_tokens: 7, completion_tokens: 9 }),
    };
    assert!(r.maybe_failed());
    assert_eq!(r.last_failure(), Some(Some("length".to_string())));
    let u = r.model_usage();
    assert_eq!((u.input_tokens, u.output_tokens), (7, 9));
    assert_eq!(r.usage.unwrap().to_text(), "Prompt tokens: 7 completion tokens: 9");
    let ok = kimi::CompletionResponse {
        id: "id".into(),
        object: "chat.completion".into(),
        created: 0,
        model: "kimi".into(),
        choices: vec![kimi_choice(Some("hi"), "stop")],
        usage: None,
    };
    assert!(!ok.maybe_failed());
    assert_eq!(ok.last_failure(), Some(None));
    assert_eq!(ok.model_usage().input_tokens, 0);
}

#[test]
fn cohere_counts_and_units() {
    assert_eq!(check_embedding_count(2, 2), Ok(()));
    assert_eq!(check_embedding_count(1, 2), Err((2, 1)));
    assert_eq!(cohere::check_embedding_batch(96), Ok(()));
    assert_eq!(cohere::check_embedding_batch(97), Err(ProviderError::TooManyDocuments(96)));
    let b = BilledUnits { input_tokens: 1, output_tokens: 2, search_units: 3, classifications: 4 };
    assert_eq!(b.to_text(), "Input tokens: 1\nOutput tokens: 2\nSearch units: 3\nClassifications: 4");
}
