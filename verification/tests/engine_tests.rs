use anda::engine::{EngineBuilder, EngineError, finish_agent_output};
use anda::model::AgentOutput;
use anda::engines::{RemoteAgent, RemoteEngineArgs, RemoteTool};
use anda::function::{Function, FunctionDefinition, FunctionNameError};
use anda::function_set::{AddError, FunctionSet};
use anda::principal::Principal;

fn function(name: &str) -> Function {
    Function {
        definition: FunctionDefinition {
            name: name.to_string(),
            description: String::new(),
            parameters: "{}".to_string(),
            strict: None,
        },
        supported_resource_tags: vec![],
    }
}

fn remote(endpoint: &str, name: Option<&str>) -> RemoteEngineArgs {
    RemoteEngineArgs {
        endpoint: endpoint.to_string(),
        agents: vec![],
        tools: vec![],
        name: name.map(|n| n.to_string()),
    }
}

fn names(fs: &[Function]) -> Vec<String> {
    fs.iter().map(|f| f.definition.name.clone()).collect()
}

#[test]
fn engine_builds_and_exports() {
    let b = EngineBuilder::new();
    assert_eq!(b.name, "Anda");
    assert_eq!(b.id.bytes, vec![4u8]);
    let b = b
        .with_id(Principal::from_slice(&[1, 2]))
        .with_name("MyEngine".to_string())
        .unwrap()
        .with_description("test engine".to_string())
        .register_tool("search".to_string(), function("search"))
        .unwrap()
        .register_tool("fetch".to_string(), function("fetch"))
        .unwrap()
        .register_agent("Assistant", function("assistant"), &vec!["search".to_string()])
        .unwrap()
        .register_agent("helper", function("helper"), &vec![])
        .unwrap()
        .register_remote_engine(remote("https://a", Some("remote_a")))
        .unwrap()
        .export_agents(vec!["HELPER".to_string()])
        .export_tools(vec!["search".to_string()]);
    let engine = b.build("Assistant").unwrap();
    assert_eq!(engine.default_agent, "assistant");
    assert_eq!(engine.name, "MyEngine");
    assert_eq!(engine.agent_name(""), "assistant");
    assert_eq!(engine.agent_name("Helper"), "helper");
    assert_eq!(engine.check_agent("HELPER").unwrap(), "helper");
    assert!(engine.check_agent("assistant").is_ok());
    match engine.check_agent("nobody") {
        Err(EngineError::AgentNotFound(n)) => assert_eq!(n, "nobody"),
        other => panic!("unexpected {:?}", other),
    }
    assert!(engine.check_tool("search").is_ok());
    match engine.check_tool("fetch") {
        Err(EngineError::ToolNotFound(n)) => assert_eq!(n, "fetch"),
        other => panic!("an unexported tool is not found: {:?}", other),
    }
    let info = engine.information();
    assert_eq!(info.id.bytes, vec![1, 2]);
    assert_eq!(info.endpoint, "");
    assert_eq!(names(&info.agents), vec!["assistant", "helper"]);
    assert_eq!(names(&info.tools), vec!["search"]);
}

#[test]
fn engine_builder_refusals() {
    match EngineBuilder::new().with_name("bad name".to_string()) {
        Err(EngineError::InvalidName(n, FunctionNameError::InvalidChar(' '))) => assert_eq!(n, "bad name"),
        other => panic!("unexpected {:?}", other.err()),
    }
    let b = EngineBuilder::new().register_tool("search".to_string(), function("search")).unwrap();
    match b.register_tool("search".to_string(), function("search")) {
        Err(e @ EngineError::AddTool(AddError::AlreadyExists(_))) => {
            assert_eq!(e.message().as_deref(), Some("tool search already exists"))
        }
        other => panic!("unexpected {:?}", other.err()),
    }
    let b = EngineBuilder::new();
    match b.register_agent("agent", function("agent"), &vec!["a".to_string(), "b".to_string()]) {
        Err(EngineError::DependencyNotFound(t)) => assert_eq!(t, "a"),
        other => panic!("unexpected {:?}", other.err()),
    }
    let b = EngineBuilder::new().register_remote_engine(remote("https://a", None)).unwrap();
    let b2 = EngineBuilder::new();
    match b.register_remote_engine(remote("https://a", None)) {
        Err(EngineError::RemoteEngineExists(e)) => assert_eq!(e, "https://a"),
        other => panic!("unexpected {:?}", other.err()),
    }
    match b2.register_remote_engine(remote("https://b", Some("B"))) {
        Err(EngineError::InvalidRemoteName(n, FunctionNameError::InvalidStart)) => assert_eq!(n, "B"),
        other => panic!("unexpected {:?}", other.err()),
    }
    match EngineBuilder::new().build("assistant") {
        Err(EngineError::DefaultAgentNotFound(n)) => assert_eq!(n, "assistant"),
        other => panic!("unexpected {:?}", other.err()),
    }
}

#[test]
fn engine_builder_registers_sets() {
    let mut tools = FunctionSet::new();
    tools.add_tool("b".to_string(), function("b")).unwrap();
    tools.add_tool("a".to_string(), function("a")).unwrap();
    let b = EngineBuilder::new().register_tool("c".to_string(), function("c")).unwrap();
    let b = b.register_tools(tools).unwrap();
    assert_eq!(b.tools.set.iter().map(|(n, _)| n.as_str()).collect::<Vec<_>>(), vec!["a", "b", "c"]);

    let mut more = FunctionSet::new();
    more.add_tool("c".to_string(), function("c")).unwrap();
    more.add_tool("d".to_string(), function("d")).unwrap();
    match b.register_tools(more) {
        Err(EngineError::ToolExists(n)) => assert_eq!(n, "c"),
        other => panic!("unexpected {:?}", other.err()),
    }

    let mut agents = FunctionSet::new();
    agents.add_agent("x", function("x")).unwrap();
    agents.add_agent("y", function("y")).unwrap();
    let b = EngineBuilder::new().register_tool("t".to_string(), function("t")).unwrap();
    let b = b.register_agents(agents, &vec![vec!["t".to_string()], vec![]]).unwrap();
    assert!(b.agents.contains("x") && b.agents.contains("y"));

    let mut agents = FunctionSet::new();
    agents.add_agent("x", function("x")).unwrap();
    agents.add_agent("z", function("z")).unwrap();
    match b.register_agents(agents, &vec![vec![], vec![]]) {
        Err(EngineError::AgentExists(n)) => assert_eq!(n, "x"),
        other => panic!("unexpected {:?}", other.err()),
    }
    let mut agents = FunctionSet::new();
    agents.add_agent("w", function("w")).unwrap();
    match EngineBuilder::new().register_agents(agents, &vec![vec!["nope".to_string()]]) {
        Err(EngineError::DependencyNotFound(t)) => assert_eq!(t, "nope"),
        other => panic!("unexpected {:?}", other.err()),
    }
}

#[test]
fn remote_tool_takes_the_name_asked_for() {
    let t = RemoteTool::new(Principal::anonymous(), "https://e".to_string(), function("search"), Some("web_search".to_string())).unwrap();
    assert_eq!(t.name, "web_search");
    assert_eq!(t.definition().name, "web_search");
    assert_eq!(t.definition().parameters, "{}");
    let t = RemoteTool::new(Principal::anonymous(), "https://e".to_string(), function("search"), None).unwrap();
    assert_eq!(t.definition().name, "search");
    assert!(RemoteTool::new(Principal::anonymous(), "https://e".to_string(), function("search"), Some("Bad Name".to_string())).is_err());
}

#[test]
fn remote_agent_lowercases_its_name() {
    let a = RemoteAgent::new(Principal::anonymous(), "https://e".to_string(), function("helper"), Some("Helper".to_string())).unwrap();
    assert_eq!(a.name, "Helper");
    assert_eq!(a.definition().name, "helper");
    assert!(RemoteAgent::new(Principal::anonymous(), "https://e".to_string(), function("helper"), Some("".to_string())).is_err());
}

#[test]
fn agents_are_looked_up_in_lowercase() {
    let mut agents = FunctionSet::new();
    agents.add_agent("Foo", function("Foo")).unwrap();
    assert!(agents.contains_agent("Foo"));
    assert!(agents.contains_agent("FOO"));
    assert!(agents.contains_agent("foo"));
    assert!(!agents.contains_agent("bar"));
    assert_eq!(agents.agent_definition("fOo").unwrap().name, "Foo");
    assert!(agents.get_agent("FOO").is_some());
    let defs = agents.agent_definitions(Some(&vec!["FOO".to_string()]));
    assert_eq!(defs.len(), 1);
    assert!(agents.agent_definitions(Some(&vec!["bar".to_string()])).is_empty());
    assert_eq!(agents.agent_definitions(None).len(), 1);
}

#[test]
fn engine_error_messages() {
    assert_eq!(EngineError::AgentNotFound("x".to_string()).message().as_deref(), Some("agent x not found"));
    assert_eq!(EngineError::ToolNotFound("t".to_string()).message().as_deref(), Some("tool t not found"));
    assert_eq!(
        EngineError::DependencyNotFound("t".to_string()).message().as_deref(),
        Some("dependent tool t not found")
    );
    assert_eq!(
        EngineError::DefaultAgentNotFound("a".to_string()).message().as_deref(),
        Some("default agent a not found")
    );
    assert_eq!(
        EngineError::RemoteEngineExists("https://e".to_string()).message().as_deref(),
        Some("remote engine https://e already exists")
    );
    assert_eq!(
        EngineError::AddAgent(AddError::AlreadyExists("a".to_string())).message().as_deref(),
        Some("agent a already exists")
    );
    assert!(EngineError::InvalidName("X".to_string(), FunctionNameError::InvalidStart).message().is_none());
    let b = EngineBuilder::new().register_agent("Helper", function("helper"), &vec![]).unwrap();
    match b.register_agent("HELPER", function("helper"), &vec![]) {
        Err(EngineError::AddAgent(AddError::AlreadyExists(n))) => assert_eq!(n, "helper"),
        other => panic!("unexpected {:?}", other.err()),
    }
}

#[test]
fn engine_plans_agent_runs() {
    let engine = EngineBuilder::new()
        .register_agent("Assistant", function("assistant"), &vec![])
        .unwrap()
        .register_agent("hidden", function("hidden"), &vec![])
        .unwrap()
        .build("assistant")
        .unwrap();
    let run = engine.plan_agent_run("", "hi".to_string(), vec![]).unwrap();
    assert_eq!(run.agent, "assistant");
    assert_eq!(run.prompt, "hi");
    assert_eq!(engine.plan_agent_run("ASSISTANT", "x".to_string(), vec![]).unwrap().agent, "assistant");
    match engine.plan_agent_run("hidden", "x".to_string(), vec![]) {
        Err(e @ EngineError::AgentNotFound(_)) => assert_eq!(e.message().as_deref(), Some("agent hidden not found")),
        other => panic!("unexported agent runs: {:?}", other.err()),
    }
    let mut out = AgentOutput::with_content("done".to_string());
    out.full_history = Some(vec!["m".to_string()]);
    let out = finish_agent_output(out);
    assert!(out.full_history.is_none());
    assert_eq!(out.content, "done");
}
