use anda::content::HybridContent;
use anda::function::{Function, FunctionDefinition, FunctionNameError, validate_function_name};
use anda::function_set::{AddError, FunctionSet};
use anda::json::{JsonValue, clear_messages};
use anda::model::{CompletionRequest, Document, Documents, Knowledge, Usage, evaluate_tokens};
use anda::path::{PathError, path_lowercase, validate_path_part};
use anda::resource::{Resource, select_resources};

fn definition(name: &str) -> FunctionDefinition {
    FunctionDefinition {
        name: name.to_string(),
        description: format!("{} does things", name),
        parameters: "{}".to_string(),
        strict: Some(true),
    }
}

fn function(name: &str, tags: &[&str]) -> Function {
    Function {
        definition: definition(name),
        supported_resource_tags: tags.iter().map(|t| t.to_string()).collect(),
    }
}

fn resource(id: u64, tags: &[&str]) -> Resource {
    Resource {
        _id: id,
        tags: tags.iter().map(|t| t.to_string()).collect(),
        name: format!("r{}", id),
        description: None,
        uri: None,
        mime_type: None,
        blob: None,
        size: None,
        hash: None,
        metadata: None,
    }
}

#[test]
fn test_path_lowercase() {
    assert_eq!(path_lowercase("a/Foo"), "a/foo");
}

#[test]
fn test_validate_path_part() {
    assert!(validate_path_part("foo").is_ok());
    assert!(validate_path_part("fOO").is_ok());
    assert!(validate_path_part("").is_err());
    assert!(validate_path_part("foo/").is_err());
    assert!(validate_path_part("/foo").is_err());
    assert!(validate_path_part("foo/bar").is_err());
    assert!(validate_path_part("foo/bar/").is_err());
}

#[test]
fn path_lowercase_drops_empty_parts() {
    assert_eq!(path_lowercase("A//B/"), "a/b");
    assert_eq!(path_lowercase(""), "");
}

#[test]
fn validate_path_part_refuses_what_normalization_changes() {
    match validate_path_part("..") {
        Err(PathError::InvalidPathPart(p)) => assert_eq!(p, ".."),
        Ok(()) => panic!("`..` is no valid part"),
    }
    assert!(validate_path_part("name_1").is_ok());
}

#[test]
fn test_prompt() {
    let mut doc2 = Document::new("2".to_string(), "Test document 2.".to_string());
    doc2.insert_prop("key".to_string(), "value".to_string());
    doc2.insert_prop("a".to_string(), "b".to_string());
    let mut req = CompletionRequest::new(None, "This is a test prompt.".to_string());
    req.documents = Documents(vec![
        Document::new("1".to_string(), "Test document 1.".to_string()),
        doc2,
    ]);
    let prompt = req.prompt_with_context().unwrap();
    assert_eq!(
        prompt,
        "<attachments>\n<doc id=\"1\">\n\"Test document 1.\"\n</doc>\n<doc id=\"2\">\n<meta a=\"b\" key=\"value\" />\n\"Test document 2.\"\n</doc>\n</attachments>\n\nThis is a test prompt."
    );
}

#[test]
fn prompt_without_documents_or_prompt() {
    let req = CompletionRequest::new(None, String::new());
    assert!(req.prompt_with_context().is_none());
    let req = CompletionRequest::new(None, "hi".to_string());
    assert_eq!(req.prompt_with_context().unwrap(), "hi");
    let req = CompletionRequest::new(None, String::new())
        .context("k".to_string(), "say \"x\"".to_string());
    assert_eq!(
        req.prompt_with_context().unwrap(),
        "<attachments>\n<doc id=\"k\">\n\"say \\\"x\\\"\"\n</doc>\n</attachments>"
    );
}

#[test]
fn documents_from_texts_are_numbered() {
    let docs = Documents::from_texts(vec!["a".to_string(), "b".to_string()]);
    assert_eq!(docs.0.len(), 2);
    assert_eq!(docs.0[0].id, "doc_0");
    assert_eq!(docs.0[1].id, "doc_1");
    assert_eq!(docs.0[1].text, "b");
    assert_eq!(Documents::empty().to_text(), "");
}

#[test]
fn document_props_stay_sorted_and_replace() {
    let mut d = Document::new("x".to_string(), "t".to_string());
    d.insert_prop("m".to_string(), "1".to_string());
    d.insert_prop("b".to_string(), "2".to_string());
    d.insert_prop("z".to_string(), "3".to_string());
    d.insert_prop("m".to_string(), "4".to_string());
    let keys: Vec<&str> = d.additional_props.iter().map(|(k, _)| k.as_str()).collect();
    assert_eq!(keys, vec!["b", "m", "z"]);
    assert_eq!(d.additional_props[1].1, "4");
}

#[test]
fn usage_accumulates_and_saturates() {
    let mut u = Usage::zero();
    u.accumulate(&Usage { input_tokens: 3, output_tokens: 4 });
    u.accumulate(&Usage { input_tokens: 10, output_tokens: 1 });
    assert_eq!((u.input_tokens, u.output_tokens), (13, 5));
    u.accumulate(&Usage { input_tokens: u64::MAX, output_tokens: 0 });
    assert_eq!(u.input_tokens, u64::MAX);
    assert_eq!(u.output_tokens, 5);
}

#[test]
fn evaluate_tokens_is_a_third_of_the_bytes() {
    assert_eq!(evaluate_tokens(""), 0);
    assert_eq!(evaluate_tokens("ab"), 0);
    assert_eq!(evaluate_tokens("abcdefg"), 2);
    assert_eq!(evaluate_tokens("你好"), 2);
}

#[test]
fn function_names_follow_the_rules() {
    assert!(validate_function_name("get_weather_2").is_ok());
    assert_eq!(validate_function_name(""), Err(FunctionNameError::Empty));
    assert_eq!(validate_function_name(&"a".repeat(65)), Err(FunctionNameError::TooLong));
    assert!(validate_function_name(&"a".repeat(64)).is_ok());
    assert_eq!(validate_function_name("1abc"), Err(FunctionNameError::InvalidStart));
    assert_eq!(validate_function_name("Abc"), Err(FunctionNameError::InvalidStart));
    assert_eq!(validate_function_name("ab-c"), Err(FunctionNameError::InvalidChar('-')));
}

#[test]
fn name_with_prefix_prefixes() {
    let d = definition("tool").name_with_prefix("RT_x");
    assert_eq!(d.name, "RT_xtool");
    assert_eq!(d.description, "tool does things");
}

#[test]
fn function_set_adds_lists_and_refuses_duplicates() {
    let mut set = FunctionSet::new();
    assert!(set.add_tool("zeta".to_string(), function("zeta", &["text"])).is_ok());
    assert!(set.add_tool("alpha".to_string(), function("alpha", &["*"])).is_ok());
    match set.add_tool("alpha".to_string(), function("alpha", &[])) {
        Err(AddError::AlreadyExists(n)) => assert_eq!(n, "alpha"),
        _ => panic!("a name is refused twice"),
    }
    match set.add_tool("Bad Name".to_string(), function("x", &[])) {
        Err(AddError::InvalidName(n, FunctionNameError::InvalidStart)) => assert_eq!(n, "Bad Name"),
        _ => panic!("an invalid name is refused"),
    }
    assert!(set.contains("alpha"));
    assert!(!set.contains("beta"));
    assert_eq!(set.definition("zeta").unwrap().name, "zeta");
    assert!(set.definition("beta").is_none());
    let names: Vec<String> = set.definitions(None).into_iter().map(|d| d.name).collect();
    assert_eq!(names, vec!["alpha", "zeta"]);
    let only = vec!["zeta".to_string(), "nothing".to_string()];
    let names: Vec<String> = set.definitions(Some(&only)).into_iter().map(|d| d.name).collect();
    assert_eq!(names, vec!["zeta"]);
    let fs = set.functions(Some(&only));
    assert_eq!(fs.len(), 1);
    assert_eq!(fs[0].supported_resource_tags, vec!["text".to_string()]);
}

#[test]
fn function_set_agents_are_lowercased() {
    let mut set = FunctionSet::new();
    assert!(set.add_agent("Assistant", function("assistant", &[])).is_ok());
    assert!(set.contains("assistant"));
    match set.add_agent("ASSISTANT", function("assistant", &[])) {
        Err(AddError::AlreadyExists(n)) => assert_eq!(n, "assistant"),
        _ => panic!("the lowercase name is taken"),
    }
    match set.add_agent("my agent", function("x", &[])) {
        Err(AddError::InvalidName(n, FunctionNameError::InvalidChar(' '))) => assert_eq!(n, "my agent"),
        _ => panic!("a space is no name character"),
    }
}

#[test]
fn select_resources_by_tags() {
    let mut rs = vec![resource(1, &["text"]), resource(2, &["image"]), resource(3, &["audio", "text"])];
    let taken = select_resources(&mut rs, &vec!["text".to_string()]);
    assert_eq!(taken.iter().map(|r| r._id).collect::<Vec<_>>(), vec![1, 3]);
    assert_eq!(rs.iter().map(|r| r._id).collect::<Vec<_>>(), vec![2]);

    let mut rs = vec![resource(1, &["text"]), resource(2, &["image"])];
    let taken = select_resources(&mut rs, &vec![]);
    assert!(taken.is_empty());
    assert_eq!(rs.len(), 2);

    let taken = select_resources(&mut rs, &vec!["*".to_string()]);
    assert_eq!(taken.len(), 2);
    assert!(rs.is_empty());
}

#[test]
fn selection_keeps_every_resource_once() {
    let mut rs = vec![
        resource(1, &["a"]),
        resource(2, &["b"]),
        resource(3, &["a", "b"]),
        resource(4, &[]),
    ];
    let taken = select_resources(&mut rs, &vec!["b".to_string(), "c".to_string()]);
    let mut ids: Vec<u64> = taken.iter().chain(rs.iter()).map(|r| r._id).collect();
    ids.sort();
    assert_eq!(ids, vec![1, 2, 3, 4]);
}

#[test]
fn function_set_selects_resources_of_a_function() {
    let mut set = FunctionSet::new();
    set.add_tool("reader".to_string(), function("reader", &["text"])).unwrap();
    let mut rs = vec![resource(1, &["text"]), resource(2, &["image"])];
    assert!(set.select_resources("writer", &mut rs).is_none());
    assert_eq!(rs.len(), 2);
    let taken = set.select_resources("reader", &mut rs).unwrap();
    assert_eq!(taken.len(), 1);
    assert_eq!(taken[0]._id, 1);
    assert_eq!(rs[0]._id, 2);
}

fn text(s: &str) -> JsonValue {
    JsonValue::Str(s.to_string())
}

fn object(entries: Vec<(&str, JsonValue)>) -> JsonValue {
    JsonValue::Object(entries.into_iter().map(|(k, v)| (k.to_string(), v)).collect())
}

#[test]
fn clear_messages_drops_thought_signatures() {
    let part = object(vec![("text", text("hi")), ("thoughtSignature", text("sig"))]);
    let msg = object(vec![
        ("content", JsonValue::Array(vec![part, text("plain")])),
        ("role", text("model")),
    ]);
    let untouched = object(vec![("content", text("no parts")), ("thoughtSignature", text("kept"))]);
    let out = clear_messages(vec![msg, untouched, JsonValue::Null]);
    assert_eq!(out.len(), 3);
    match &out[0] {
        JsonValue::Object(es) => {
            assert_eq!(es.len(), 2);
            assert_eq!(es[1].0, "role");
            match &es[0].1 {
                JsonValue::Array(parts) => {
                    assert_eq!(parts.len(), 2);
                    match &parts[0] {
                        JsonValue::Object(pe) => {
                            assert_eq!(pe.len(), 1);
                            assert_eq!(pe[0].0, "text");
                        }
                        _ => panic!("the part stays an object"),
                    }
                    assert!(matches!(&parts[1], JsonValue::Str(s) if s == "plain"));
                }
                _ => panic!("the content stays an array"),
            }
        }
        _ => panic!("the message stays an object"),
    }
    match &out[1] {
        JsonValue::Object(es) => assert_eq!(es.len(), 2),
        _ => panic!("a message without parts is kept"),
    }
    assert!(matches!(out[2], JsonValue::Null));
}

#[test]
fn hybrid_content_from_text() {
    match HybridContent::from("Hello, world!".to_string()) {
        HybridContent::Text { text } => assert_eq!(text, "Hello, world!"),
        _ => panic!("text becomes a text part"),
    }
}

#[test]
fn document_from_knowledge_keeps_user_and_meta() {
    let k = Knowledge {
        id: "k1".to_string(),
        user: "alice".to_string(),
        text: "hello".to_string(),
        meta: vec![("lang".to_string(), "\"en\"".to_string()), ("user".to_string(), "\"bob\"".to_string())],
    };
    let d = Document::from_knowledge(k);
    assert_eq!(d.id, "k1");
    assert_eq!(d.text, "hello");
    assert_eq!(
        d.additional_props,
        vec![("lang".to_string(), "\"en\"".to_string()), ("user".to_string(), "\"bob\"".to_string())]
    );
    let k = Knowledge { id: "k2".to_string(), user: "carol".to_string(), text: String::new(), meta: vec![] };
    let ds = Documents::from_knowledges(vec![k]);
    assert_eq!(ds.0.len(), 1);
    assert_eq!(ds.0[0].additional_props, vec![("user".to_string(), "carol".to_string())]);
}

#[test]
fn append_tools_keeps_order() {
    let def = |n: &str| FunctionDefinition { name: n.to_string(), description: String::new(), parameters: "{}".to_string(), strict: None };
    let r = CompletionRequest::new(None, "p".to_string()).append_tools(vec![def("a")]).append_tools(vec![def("b"), def("c")]);
    let names: Vec<String> = r.tools.iter().map(|t| t.name.clone()).collect();
    assert_eq!(names, vec!["a".to_string(), "b".to_string(), "c".to_string()]);
    assert_eq!(r.prompt, "p");
}

#[test]
fn path_error_message() {
    match validate_path_part("a/b") {
        Err(e) => assert_eq!(e.message(), "invalid path part: a/b"),
        Ok(()) => panic!("a/b is not a path part"),
    }
}
