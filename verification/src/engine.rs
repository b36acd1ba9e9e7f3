//! What an engine offers and exports: its builder gathers agents, tools and
//! remote engines under checked names, and the built engine resolves the
//! agent or tool that a request names and tells what it exports.
use vstd::prelude::*;
use crate::engines::{Information, RemoteEngineArgs};
use crate::function::{Function, FunctionNameError, valid_function_name, validate_function_name};
use crate::function_set::{AddError, FunctionSet, add_error_message, opt_texts, same_function, selected_entries};
use crate::principal::Principal;
use crate::model::AgentOutput;
use crate::resource::Resource;
use crate::sorted::{keys_increasing, key_map, insert_sorted};
use crate::text::{ascii_lower, lemma_ascii_lower_idempotent, listed, str_eq, texts_of, to_ascii_lowercase};

verus! {

/// Why an engine could not be built, or a request could not be served.
#[derive(Debug)]
pub enum EngineError {
    /// The engine's name breaks the naming rules.
    InvalidName(String, FunctionNameError),
    /// A tool could not be added.
    AddTool(AddError),
    /// An agent could not be added.
    AddAgent(AddError),
    /// "tool {name} already exists".
    ToolExists(String),
    /// "agent {name} already exists".
    AgentExists(String),
    /// "dependent tool {name} not found".
    DependencyNotFound(String),
    /// "remote engine {endpoint} already exists".
    RemoteEngineExists(String),
    /// "invalid name: ..." of a remote engine.
    InvalidRemoteName(String, FunctionNameError),
    /// "default agent {name} not found".
    DefaultAgentNotFound(String),
    /// "agent {name} not found".
    AgentNotFound(String),
    /// "tool {name} not found".
    ToolNotFound(String),
}


/// `prefix`, the name, then `suffix`.
pub open spec fn framed(prefix: Seq<char>, n: Seq<char>, suffix: Seq<char>) -> Seq<char> {
    prefix + n + suffix
}

/// The message of an error: `None` where it is that of a name that breaks
/// the naming rules, whose message belongs to the name check.
pub open spec fn engine_error_message(e: EngineError) -> Option<Seq<char>> {
    match e {
        EngineError::InvalidName(_, _) => None,
        EngineError::AddTool(a) => add_error_message(a, "tool"@),
        EngineError::AddAgent(a) => add_error_message(a, "agent"@),
        EngineError::ToolExists(n) => Some(framed("tool "@, n@, " already exists"@)),
        EngineError::AgentExists(n) => Some(framed("agent "@, n@, " already exists"@)),
        EngineError::DependencyNotFound(n) => Some(framed("dependent tool "@, n@, " not found"@)),
        EngineError::RemoteEngineExists(n) => Some(framed("remote engine "@, n@, " already exists"@)),
        EngineError::InvalidRemoteName(_, _) => None,
        EngineError::DefaultAgentNotFound(n) => Some(framed("default agent "@, n@, " not found"@)),
        EngineError::AgentNotFound(n) => Some(framed("agent "@, n@, " not found"@)),
        EngineError::ToolNotFound(n) => Some(framed("tool "@, n@, " not found"@)),
    }
}

fn frame(prefix: &str, n: &String, suffix: &str) -> (r: String)
    ensures
        r@ == framed(prefix@, n@, suffix@),
{
    let mut r = prefix.to_string();
    r.append(n.as_str());
    r.append(suffix);
    r
}

impl EngineError {
    /// The message of the error; none where it is that of a name that breaks
    /// the naming rules.
    pub fn message(&self) -> (r: Option<String>)
        ensures
            match r {
                Some(t) => engine_error_message(*self) == Some(t@),
                None => engine_error_message(*self) is None,
            },
    {
        match self {
            EngineError::InvalidName(_, _) => None,
            EngineError::AddTool(a) => a.message("tool"),
            EngineError::AddAgent(a) => a.message("agent"),
            EngineError::ToolExists(n) => Some(frame("tool ", n, " already exists")),
            EngineError::AgentExists(n) => Some(frame("agent ", n, " already exists")),
            EngineError::DependencyNotFound(n) => Some(frame("dependent tool ", n, " not found")),
            EngineError::RemoteEngineExists(n) => Some(frame("remote engine ", n, " already exists")),
            EngineError::InvalidRemoteName(_, _) => None,
            EngineError::DefaultAgentNotFound(n) => Some(frame("default agent ", n, " not found")),
            EngineError::AgentNotFound(n) => Some(frame("agent ", n, " not found")),
            EngineError::ToolNotFound(n) => Some(frame("tool ", n, " not found")),
        }
    }
}

/// The texts of a list of names, as a set.
pub open spec fn name_set(v: Seq<String>) -> Set<Seq<char>> {
    texts_of(v).to_set()
}

/// Adds `name` to a list of names unless it is there.
fn add_name(v: &mut Vec<String>, name: String)
    ensures
        name_set(final(v)@) == name_set(old(v)@).insert(name@),
{
    if !listed(name.as_str(), v) {
        let ghost nv = name@;
        v.push(name);
        assert(texts_of(v@) =~= texts_of(old(v)@).push(nv));
        proof {
            texts_of(old(v)@).lemma_push_to_set_commute(nv);
        }
    } else {
        assert(name_set(v@).contains(name@));
        assert(name_set(v@) =~= name_set(old(v)@).insert(name@));
    }
}

/// The index of the first entry of `entries` whose name `m` holds, if any.
pub open spec fn first_clash<W>(entries: Seq<(String, W)>, m: Map<Seq<char>, Function>) -> Option<int>
    decreases entries.len(),
{
    if entries.len() == 0 {
        None
    } else {
        match first_clash(entries.drop_last(), m) {
            Some(i) => Some(i),
            None => if m.dom().contains(entries.last().0@) {
                Some(entries.len() - 1)
            } else {
                None
            },
        }
    }
}

/// The index of the first of `deps` that `tools` does not hold, if any.
pub open spec fn first_missing_dep(deps: Seq<String>, tools: Map<Seq<char>, Function>) -> Option<int>
    decreases deps.len(),
{
    if deps.len() == 0 {
        None
    } else {
        match first_missing_dep(deps.drop_last(), tools) {
            Some(i) => Some(i),
            None => if tools.dom().contains(deps.last()@) {
                None
            } else {
                Some(deps.len() - 1)
            },
        }
    }
}

proof fn lemma_first_clash_extend<W>(entries: Seq<(String, W)>, m: Map<Seq<char>, Function>, n: int)
    requires
        0 <= n <= entries.len(),
        first_clash(entries.take(n), m) is Some,
    ensures
        first_clash(entries, m) == first_clash(entries.take(n), m),
    decreases entries.len() - n,
{
    if n < entries.len() {
        assert(entries.take(n + 1).drop_last() =~= entries.take(n));
        lemma_first_clash_extend(entries, m, n + 1);
    } else {
        assert(entries.take(n) =~= entries);
    }
}

proof fn lemma_first_missing_dep_extend(deps: Seq<String>, tools: Map<Seq<char>, Function>, n: int)
    requires
        0 <= n <= deps.len(),
        first_missing_dep(deps.take(n), tools) is Some,
    ensures
        first_missing_dep(deps, tools) == first_missing_dep(deps.take(n), tools),
    decreases deps.len() - n,
{
    if n < deps.len() {
        assert(deps.take(n + 1).drop_last() =~= deps.take(n));
        lemma_first_missing_dep_extend(deps, tools, n + 1);
    } else {
        assert(deps.take(n) =~= deps);
    }
}

/// The index of the first of `deps` that the set does not hold.
fn find_missing_dep(deps: &Vec<String>, tools: &FunctionSet) -> (r: Option<usize>)
    requires
        keys_increasing(tools.set@),
    ensures
        r is None <==> first_missing_dep(deps@, tools@) is None,
        r matches Some(i) ==> first_missing_dep(deps@, tools@) == Some(i as int) && i < deps@.len(),
{
    let mut i: usize = 0;
    while i < deps.len()
        invariant
            i <= deps.len(),
            keys_increasing(tools.set@),
            first_missing_dep(deps@.take(i as int), tools@) is None,
        decreases deps.len() - i,
    {
        assert(deps@.take(i + 1).drop_last() =~= deps@.take(i as int));
        if !tools.contains(deps[i].as_str()) {
            proof {
                lemma_first_missing_dep_extend(deps@, tools@, i + 1);
            }
            return Some(i);
        }
        i = i + 1;
    }
    assert(deps@.take(i as int) =~= deps@);
    None
}

/// The index of the first entry whose name the set holds.
fn find_clash<W>(entries: &Vec<(String, W)>, set: &FunctionSet) -> (r: Option<usize>)
    requires
        keys_increasing(set.set@),
    ensures
        r is None <==> first_clash(entries@, set@) is None,
        r matches Some(i) ==> first_clash(entries@, set@) == Some(i as int) && i < entries@.len(),
{
    let mut i: usize = 0;
    while i < entries.len()
        invariant
            i <= entries.len(),
            keys_increasing(set.set@),
            first_clash(entries@.take(i as int), set@) is None,
        decreases entries.len() - i,
    {
        assert(entries@.take(i + 1).drop_last() =~= entries@.take(i as int));
        if set.contains(entries[i].0.as_str()) {
            proof {
                lemma_first_clash_extend(entries@, set@, i + 1);
            }
            return Some(i);
        }
        i = i + 1;
    }
    assert(entries@.take(i as int) =~= entries@);
    None
}

/// Inserting the entries one by one gives the map with all of them.
fn insert_all(target: &mut Vec<(String, Function)>, source: Vec<(String, Function)>)
    requires
        keys_increasing(old(target)@),
    ensures
        keys_increasing(final(target)@),
        key_map(final(target)@) == key_map(old(target)@).union_prefer_right(key_map(source@)),
{
    let ghost start = key_map(target@);
    let ghost all = source@;
    for e in it: source.into_iter()
        invariant
            it.seq() == all,
            keys_increasing(target@),
            key_map(target@) == start.union_prefer_right(key_map(all.take(it.index() as int))),
    {
        let ghost prev = key_map(target@);
        let ghost k = it.index() as int;
        proof {
            assert(all.take(k + 1).drop_last() =~= all.take(k));
        }
        let (name, f) = e;
        let ghost nv = name@;
        insert_sorted(target, name, f);
        proof {
            assert(key_map(all.take(k + 1)) == key_map(all.take(k)).insert(nv, f));
            assert(key_map(target@) =~= start.union_prefer_right(key_map(all.take(k + 1))));
        }
    }
    proof {
        assert(all.take(all.len() as int) =~= all);
    }
}

/// An agent of a set fails to register: its name is registered already, or
/// a tool it depends on is not.
pub open spec fn agent_fails(name: Seq<char>, deps: Seq<String>, agents: Map<Seq<char>, Function>, tools: Map<Seq<char>, Function>) -> bool {
    agents.dom().contains(name) || first_missing_dep(deps, tools) is Some
}

/// The index of the first agent of the entries (with the dependencies of
/// each) that fails to register, if any.
pub open spec fn first_failing(
    entries: Seq<(String, Function)>,
    deps: Seq<Vec<String>>,
    agents: Map<Seq<char>, Function>,
    tools: Map<Seq<char>, Function>,
) -> Option<int>
    decreases entries.len(),
{
    if entries.len() == 0 {
        None
    } else {
        match first_failing(entries.drop_last(), deps, agents, tools) {
            Some(i) => Some(i),
            None => if agent_fails(entries.last().0@, deps[entries.len() - 1]@, agents, tools) {
                Some(entries.len() - 1)
            } else {
                None
            },
        }
    }
}

proof fn lemma_first_failing_extend(
    entries: Seq<(String, Function)>,
    deps: Seq<Vec<String>>,
    agents: Map<Seq<char>, Function>,
    tools: Map<Seq<char>, Function>,
    n: int,
)
    requires
        0 <= n <= entries.len(),
        first_failing(entries.take(n), deps, agents, tools) is Some,
    ensures
        first_failing(entries, deps, agents, tools) == first_failing(entries.take(n), deps, agents, tools),
    decreases entries.len() - n,
{
    if n < entries.len() {
        assert(entries.take(n + 1).drop_last() =~= entries.take(n));
        lemma_first_failing_extend(entries, deps, agents, tools, n + 1);
    } else {
        assert(entries.take(n) =~= entries);
    }
}

/// The agents, tools and remote engines an engine is built from, and the
/// names it exports.
#[derive(Debug)]
pub struct EngineBuilder {
    pub id: Principal,
    pub name: String,
    pub description: String,
    pub tools: FunctionSet,
    pub agents: FunctionSet,
    /// The remote engines to register, each at its own endpoint.
    pub remote: Vec<RemoteEngineArgs>,
    /// The names of the agents to export.
    pub export_agents: Vec<String>,
    /// The names of the tools to export.
    pub export_tools: Vec<String>,
}

/// The tool and agent sets keep their names in order.
pub open spec fn builder_wf(b: EngineBuilder) -> bool {
    keys_increasing(b.tools.set@) && keys_increasing(b.agents.set@)
}

/// Some remote engine's arguments name the endpoint.
pub open spec fn has_endpoint(v: Seq<RemoteEngineArgs>, endpoint: Seq<char>) -> bool {
    exists|i: int| 0 <= i < v.len() && v[i].endpoint@ == endpoint
}

impl EngineBuilder {
    /// A builder with the anonymous id, the name "Anda", nothing registered
    /// and nothing exported.
    pub fn new() -> (b: EngineBuilder)
        ensures
            builder_wf(b),
            b.id@ == seq![4u8],
            b.name@ == "Anda"@,
            b.description@ == "Anda Engine"@,
            b.tools@ == Map::<Seq<char>, Function>::empty(),
            b.agents@ == Map::<Seq<char>, Function>::empty(),
            b.remote@.len() == 0,
            b.export_agents@.len() == 0,
            b.export_tools@.len() == 0,
    {
        EngineBuilder {
            id: Principal::anonymous(),
            name: String::from_str("Anda"),
            description: String::from_str("Anda Engine"),
            tools: FunctionSet::new(),
            agents: FunctionSet::new(),
            remote: Vec::new(),
            export_agents: Vec::new(),
            export_tools: Vec::new(),
        }
    }

    /// Sets the engine id.
    pub fn with_id(self, id: Principal) -> (b: EngineBuilder)
        ensures
            b == (EngineBuilder { id, ..self }),
    {
        EngineBuilder { id, ..self }
    }

    /// Sets the engine name, whose ASCII lowercase must follow the naming rules.
    pub fn with_name(self, name: String) -> (r: Result<EngineBuilder, EngineError>)
        ensures
            r is Ok <==> valid_function_name(ascii_lower(name@)),
            r matches Ok(b) ==> b == (EngineBuilder { name, ..self }),
            r matches Err(e) ==> (e matches EngineError::InvalidName(n, _) && n@ == ascii_lower(
                name@,
            )),
    {
        let lower = to_ascii_lowercase(name.as_str());
        match validate_function_name(lower.as_str()) {
            Err(e) => Err(EngineError::InvalidName(lower, e)),
            Ok(()) => Ok(EngineBuilder { name, ..self }),
        }
    }

    /// Sets the engine description.
    pub fn with_description(self, description: String) -> (b: EngineBuilder)
        ensures
            b == (EngineBuilder { description, ..self }),
    {
        EngineBuilder { description, ..self }
    }

    /// Registers a tool under the name it gives, which must follow the naming
    /// rules and be new.
    pub fn register_tool(self, name: String, function: Function) -> (r: Result<EngineBuilder, EngineError>)
        requires
            builder_wf(self),
        ensures
            r is Ok <==> valid_function_name(name@) && !self.tools@.dom().contains(name@),
            !valid_function_name(name@) ==> (r matches Err(EngineError::AddTool(AddError::InvalidName(n, _)))
                && n@ == name@),
            valid_function_name(name@) && self.tools@.dom().contains(name@) ==> (r matches Err(
                EngineError::AddTool(AddError::AlreadyExists(n)),
            ) && n@ == name@),
            r matches Ok(b) ==> builder_wf(b) && b.tools@ == self.tools@.insert(name@, function)
                && b.agents == self.agents && b.remote == self.remote && b.export_agents
                == self.export_agents && b.export_tools == self.export_tools,
    {
        let mut b = self;
        match b.tools.add_tool(name, function) {
            Err(e) => Err(EngineError::AddTool(e)),
            Ok(()) => Ok(b),
        }
    }

    /// Registers the tools of a set, each under its name there; the first
    /// name (in name order) that is registered already is refused.
    pub fn register_tools(self, tools: FunctionSet) -> (r: Result<EngineBuilder, EngineError>)
        requires
            builder_wf(self),
            keys_increasing(tools.set@),
        ensures
            r is Ok <==> first_clash(tools.set@, self.tools@) is None,
            r matches Err(e) ==> (e matches EngineError::ToolExists(n) && n@ == tools.set@[first_clash(
                tools.set@,
                self.tools@,
            )->0].0@),
            r matches Ok(b) ==> builder_wf(b) && b.tools@ == self.tools@.union_prefer_right(tools@)
                && b.agents == self.agents && b.remote == self.remote && b.export_agents
                == self.export_agents && b.export_tools == self.export_tools,
    {
        match find_clash(&tools.set, &self.tools) {
            Some(i) => {
                let n = tools.set[i].0.clone();
                return Err(EngineError::ToolExists(n));
            },
            None => {},
        }
        let mut b = self;
        insert_all(&mut b.tools.set, tools.set);
        Ok(b)
    }

    /// Registers an agent under the name it gives, in ASCII lowercase, once
    /// every tool it depends on is registered; the name must be new and
    /// follow the naming rules.
    pub fn register_agent(self, name: &str, function: Function, dependencies: &Vec<String>) -> (r: Result<
        EngineBuilder,
        EngineError,
    >)
        requires
            builder_wf(self),
        ensures
            r is Ok <==> first_missing_dep(dependencies@, self.tools@) is None && valid_function_name(
                ascii_lower(name@),
            ) && !self.agents@.dom().contains(ascii_lower(name@)),
            first_missing_dep(dependencies@, self.tools@) matches Some(i) ==> (r matches Err(
                EngineError::DependencyNotFound(t),
            ) && t@ == dependencies@[i]@),
            first_missing_dep(dependencies@, self.tools@) is None && self.agents@.dom().contains(
                ascii_lower(name@),
            ) ==> (r matches Err(EngineError::AddAgent(AddError::AlreadyExists(n))) && n@ == ascii_lower(
                name@,
            )),
            first_missing_dep(dependencies@, self.tools@) is None && !self.agents@.dom().contains(
                ascii_lower(name@),
            ) && !valid_function_name(ascii_lower(name@)) ==> (r matches Err(
                EngineError::AddAgent(AddError::InvalidName(n, _)),
            ) && n@ == ascii_lower(name@)),
            r matches Ok(b) ==> builder_wf(b) && b.agents@ == self.agents@.insert(
                ascii_lower(name@),
                function,
            ) && b.tools == self.tools && b.remote == self.remote && b.export_agents
                == self.export_agents && b.export_tools == self.export_tools,
    {
        match find_missing_dep(dependencies, &self.tools) {
            Some(i) => {
                return Err(EngineError::DependencyNotFound(dependencies[i].clone()));
            },
            None => {},
        }
        let mut b = self;
        match b.agents.add_agent(name, function) {
            Err(e) => Err(EngineError::AddAgent(e)),
            Ok(()) => Ok(b),
        }
    }

    /// Registers the agents of a set, each under its name there, with the
    /// tools each depends on (`dependencies`, in the set's order); the first
    /// agent (in name order) whose name is registered already, or one of
    /// whose tools is not, is refused.
    pub fn register_agents(self, agents: FunctionSet, dependencies: &Vec<Vec<String>>) -> (r: Result<
        EngineBuilder,
        EngineError,
    >)
        requires
            builder_wf(self),
            keys_increasing(agents.set@),
            dependencies@.len() == agents.set@.len(),
        ensures
            r is Ok <==> first_failing(agents.set@, dependencies@, self.agents@, self.tools@) is None,
            first_failing(agents.set@, dependencies@, self.agents@, self.tools@) matches Some(i) ==> ({
                let name = agents.set@[i].0@;
                let deps = dependencies@[i]@;
                if self.agents@.dom().contains(name) {
                    r matches Err(EngineError::AgentExists(n)) && n@ == name
                } else {
                    r matches Err(EngineError::DependencyNotFound(t)) && t@ == deps[first_missing_dep(
                        deps,
                        self.tools@,
                    )->0]@
                }
            }),
            r matches Ok(b) ==> builder_wf(b) && b.agents@ == self.agents@.union_prefer_right(agents@)
                && b.tools == self.tools && b.remote == self.remote && b.export_agents
                == self.export_agents && b.export_tools == self.export_tools,
    {
        let mut i: usize = 0;
        while i < agents.set.len()
            invariant
                i <= agents.set.len(),
                dependencies@.len() == agents.set@.len(),
                builder_wf(self),
                first_failing(agents.set@.take(i as int), dependencies@, self.agents@, self.tools@) is None,
            decreases agents.set.len() - i,
        {
            assert(agents.set@.take(i + 1).drop_last() =~= agents.set@.take(i as int));
            if self.agents.contains(agents.set[i].0.as_str()) {
                proof {
                    lemma_first_failing_extend(agents.set@, dependencies@, self.agents@, self.tools@, i + 1);
                }
                return Err(EngineError::AgentExists(agents.set[i].0.clone()));
            }
            match find_missing_dep(&dependencies[i], &self.tools) {
                Some(j) => {
                    proof {
                        lemma_first_failing_extend(agents.set@, dependencies@, self.agents@, self.tools@, i + 1);
                    }
                    return Err(EngineError::DependencyNotFound(dependencies[i][j].clone()));
                },
                None => {},
            }
            i = i + 1;
        }
        assert(agents.set@.take(i as int) =~= agents.set@);
        let mut b = self;
        insert_all(&mut b.agents.set, agents.set);
        Ok(b)
    }

    /// Registers a remote engine's arguments; its endpoint must be new and a
    /// name it asks for must follow the naming rules.
    pub fn register_remote_engine(self, engine: RemoteEngineArgs) -> (r: Result<EngineBuilder, EngineError>)
        ensures
            has_endpoint(self.remote@, engine.endpoint@) ==> (r matches Err(
                EngineError::RemoteEngineExists(ep),
            ) && ep@ == engine.endpoint@),
            !has_endpoint(self.remote@, engine.endpoint@) && (engine.name matches Some(n)
                && !valid_function_name(n@)) ==> (r matches Err(EngineError::InvalidRemoteName(n, _))
                && n@ == engine.name->0@),
            r is Ok <==> !has_endpoint(self.remote@, engine.endpoint@) && (engine.name matches Some(n)
                ==> valid_function_name(n@)),
            r matches Ok(b) ==> b.remote@ == self.remote@.push(engine) && b.tools == self.tools
                && b.agents == self.agents && b.export_agents == self.export_agents && b.export_tools
                == self.export_tools,
    {
        let mut i: usize = 0;
        while i < self.remote.len()
            invariant
                i <= self.remote.len(),
                forall|k: int| 0 <= k < i ==> self.remote@[k].endpoint@ != engine.endpoint@,
            decreases self.remote.len() - i,
        {
            if str_eq(self.remote[i].endpoint.as_str(), engine.endpoint.as_str()) {
                return Err(EngineError::RemoteEngineExists(engine.endpoint));
            }
            i = i + 1;
        }
        if let Some(n) = &engine.name {
            match validate_function_name(n.as_str()) {
                Err(e) => {
                    return Err(EngineError::InvalidRemoteName(n.clone(), e));
                },
                Ok(()) => {},
            }
        }
        let mut b = self;
        b.remote.push(engine);
        Ok(b)
    }

    /// Exports agents by name, in ASCII lowercase.
    pub fn export_agents(self, agents: Vec<String>) -> (b: EngineBuilder)
        ensures
            name_set(b.export_agents@) == name_set(self.export_agents@).union(
                texts_of(agents@).map_values(|t: Seq<char>| ascii_lower(t)).to_set(),
            ),
            b.tools == self.tools && b.agents == self.agents && b.remote == self.remote
                && b.export_tools == self.export_tools,
    {
        let mut b = self;
        let ghost all = agents@;
        let ghost start = name_set(b.export_agents@);
        for a in it: agents.into_iter()
            invariant
                it.seq() == all,
                b.tools == self.tools && b.agents == self.agents && b.remote == self.remote
                    && b.export_tools == self.export_tools,
                start == name_set(self.export_agents@),
                name_set(b.export_agents@) == start.union(
                    texts_of(all.take(it.index() as int)).map_values(|t: Seq<char>| ascii_lower(t)).to_set(),
                ),
        {
            let ghost k = it.index() as int;
            let lower = to_ascii_lowercase(a.as_str());
            add_name(&mut b.export_agents, lower);
            proof {
                let f = |t: Seq<char>| ascii_lower(t);
                assert(texts_of(all.take(k + 1)).map_values(f) =~= texts_of(all.take(k)).map_values(f).push(
                    ascii_lower(all[k]@),
                ));
                texts_of(all.take(k)).map_values(f).lemma_push_to_set_commute(ascii_lower(all[k]@));
                assert(name_set(b.export_agents@) =~= start.union(
                    texts_of(all.take(k + 1)).map_values(f).to_set(),
                ));
            }
        }
        proof {
            assert(all.take(all.len() as int) =~= all);
        }
        b
    }

    /// Exports tools by name.
    pub fn export_tools(self, tools: Vec<String>) -> (b: EngineBuilder)
        ensures
            name_set(b.export_tools@) == name_set(self.export_tools@).union(name_set(tools@)),
            b.tools == self.tools && b.agents == self.agents && b.remote == self.remote
                && b.export_agents == self.export_agents,
    {
        let mut b = self;
        let ghost all = tools@;
        let ghost start = name_set(b.export_tools@);
        for t in it: tools.into_iter()
            invariant
                it.seq() == all,
                b.tools == self.tools && b.agents == self.agents && b.remote == self.remote
                    && b.export_agents == self.export_agents,
                start == name_set(self.export_tools@),
                name_set(b.export_tools@) == start.union(name_set(all.take(it.index() as int))),
        {
            let ghost k = it.index() as int;
            let ghost tv = t@;
            add_name(&mut b.export_tools, t);
            proof {
                assert(texts_of(all.take(k + 1)) =~= texts_of(all.take(k)).push(tv));
                texts_of(all.take(k)).lemma_push_to_set_commute(tv);
                assert(name_set(b.export_tools@) =~= start.union(name_set(all.take(k + 1))));
            }
        }
        proof {
            assert(all.take(all.len() as int) =~= all);
        }
        b
    }

    /// The engine, with `default_agent` (in ASCII lowercase) as its default
    /// agent, which must be registered; it is exported too.
    pub fn build(self, default_agent: &str) -> (r: Result<Engine, EngineError>)
        requires
            builder_wf(self),
        ensures
            r is Ok <==> self.agents@.dom().contains(ascii_lower(default_agent@)),
            r matches Err(e) ==> (e matches EngineError::DefaultAgentNotFound(n) && n@ == ascii_lower(
                default_agent@,
            )),
            r matches Ok(en) ==> {
                &&& engine_wf(en)
                &&& en.id == self.id && en.name == self.name && en.description == self.description
                &&& en.default_agent@ == ascii_lower(default_agent@)
                &&& en.tools == self.tools && en.agents == self.agents
                &&& name_set(en.export_agents@) == name_set(self.export_agents@).insert(
                    ascii_lower(default_agent@),
                )
                &&& en.export_tools == self.export_tools
            },
    {
        let default_agent = to_ascii_lowercase(default_agent);
        if !self.agents.contains(default_agent.as_str()) {
            return Err(EngineError::DefaultAgentNotFound(default_agent));
        }
        let EngineBuilder { id, name, description, tools, agents, remote: _, export_agents, export_tools } = self;
        let mut export_agents = export_agents;
        add_name(&mut export_agents, default_agent.clone());
        Ok(Engine { id, name, description, default_agent, tools, agents, export_agents, export_tools })
    }
}

/// An engine: its agents and tools, and the names it exports.
#[derive(Debug)]
pub struct Engine {
    pub id: Principal,
    pub name: String,
    pub description: String,
    /// The agent that runs when a request names none.
    pub default_agent: String,
    pub tools: FunctionSet,
    pub agents: FunctionSet,
    pub export_agents: Vec<String>,
    pub export_tools: Vec<String>,
}

/// The tool and agent sets keep their names in order.
pub open spec fn engine_wf(e: Engine) -> bool {
    keys_increasing(e.tools.set@) && keys_increasing(e.agents.set@)
}

/// The agent a request runs: the default one when it names none, else the
/// one it names, in ASCII lowercase.
pub open spec fn run_target(e: Engine, name: Seq<char>) -> Seq<char> {
    if name.len() == 0 {
        e.default_agent@
    } else {
        ascii_lower(name)
    }
}


/// A built engine serves its default agent: a request that names no agent,
/// or names the default one in any ASCII case, passes `check_agent`. The
/// requirements are what `build` promises of the engine it returns.
pub proof fn built_engine_serves_default(b: EngineBuilder, default_agent: Seq<char>, en: Engine, name: Seq<char>)
    requires
        builder_wf(b),
        b.agents@.dom().contains(ascii_lower(default_agent)),
        en.default_agent@ == ascii_lower(default_agent),
        en.agents == b.agents,
        name_set(en.export_agents@) == name_set(b.export_agents@).insert(ascii_lower(default_agent)),
        name.len() == 0 || ascii_lower(name) == en.default_agent@,
    ensures
        name_set(en.export_agents@).contains(ascii_lower(run_target(en, name))),
        en.agents@.dom().contains(ascii_lower(run_target(en, name))),
{
    lemma_ascii_lower_idempotent(default_agent);
    lemma_ascii_lower_idempotent(name);
}

impl Engine {
    /// The name of the agent a request runs: the default agent when the
    /// request names none, else the named one in ASCII lowercase.
    pub fn agent_name(&self, name: &str) -> (r: String)
        ensures
            r@ == run_target(*self, name@),
    {
        if name.is_empty() {
            self.default_agent.clone()
        } else {
            to_ascii_lowercase(name)
        }
    }

    /// A request may reach the agent `name` (in ASCII lowercase) only when
    /// the engine exports it and has it.
    pub fn check_agent(&self, name: &str) -> (r: Result<String, EngineError>)
        requires
            engine_wf(*self),
        ensures
            r is Ok <==> name_set(self.export_agents@).contains(ascii_lower(name@))
                && self.agents@.dom().contains(ascii_lower(name@)),
            r matches Ok(n) ==> n@ == ascii_lower(name@),
            r matches Err(e) ==> (e matches EngineError::AgentNotFound(n) && n@ == ascii_lower(name@)),
    {
        let lower = to_ascii_lowercase(name);
        let exported = listed(lower.as_str(), &self.export_agents);
        proof {
            assert(exported == texts_of(self.export_agents@).contains(lower@));
        }
        if !exported || !self.agents.contains(lower.as_str()) {
            return Err(EngineError::AgentNotFound(lower));
        }
        Ok(lower)
    }

    /// A request may call the tool `name` only when the engine exports it
    /// and has it.
    pub fn check_tool(&self, name: &str) -> (r: Result<(), EngineError>)
        requires
            engine_wf(*self),
        ensures
            r is Ok <==> name_set(self.export_tools@).contains(name@) && self.tools@.dom().contains(
                name@,
            ),
            r matches Err(e) ==> (e matches EngineError::ToolNotFound(n) && n@ == name@),
    {
        if !listed(name, &self.export_tools) || !self.tools.contains(name) {
            return Err(EngineError::ToolNotFound(name.to_owned()));
        }
        Ok(())
    }

    /// What the engine tells about itself: its id, name and description, no
    /// endpoint, and the agents and tools it exports, in name order.
    pub fn information(&self) -> (r: Information)
        ensures
            r.id@ == self.id@,
            r.name == self.name,
            r.description == self.description,
            r.endpoint@.len() == 0,
            r.agents@.len() == selected_entries(self.agents.set@, Some(texts_of(self.export_agents@))).len(),
            forall|k: int|
                0 <= k < r.agents@.len() ==> same_function(
                    #[trigger] r.agents@[k],
                    selected_entries(self.agents.set@, Some(texts_of(self.export_agents@)))[k].1,
                ),
            r.tools@.len() == selected_entries(self.tools.set@, Some(texts_of(self.export_tools@))).len(),
            forall|k: int|
                0 <= k < r.tools@.len() ==> same_function(
                    #[trigger] r.tools@[k],
                    selected_entries(self.tools.set@, Some(texts_of(self.export_tools@)))[k].1,
                ),
    {
        let agents = self.agents.functions(Some(&self.export_agents));
        let tools = self.tools.functions(Some(&self.export_tools));
        proof {
            assert(opt_texts(Some(&self.export_agents)) == Some(texts_of(self.export_agents@)));
            assert(opt_texts(Some(&self.export_tools)) == Some(texts_of(self.export_tools@)));
        }
        Information {
            id: self.id.copy(),
            name: self.name.clone(),
            description: self.description.clone(),
            agents,
            tools,
            endpoint: String::new(),
        }
    }
}

/// An agent run the engine starts: the agent, and the prompt and resources
/// it runs once on.
#[derive(Debug)]
pub struct AgentRun {
    pub agent: String,
    pub prompt: String,
    pub resources: Vec<Resource>,
}

impl Engine {
    /// The run of a request: the agent it names (the default one when it
    /// names none, in ASCII lowercase otherwise), which must be exported and
    /// registered, once on the request's prompt and resources.
    pub fn plan_agent_run(&self, name: &str, prompt: String, resources: Vec<Resource>) -> (r: Result<AgentRun, EngineError>)
        requires
            engine_wf(*self),
        ensures
            r is Ok <==> name_set(self.export_agents@).contains(ascii_lower(run_target(*self, name@)))
                && self.agents@.dom().contains(ascii_lower(run_target(*self, name@))),
            r matches Ok(run) ==> run.agent@ == ascii_lower(run_target(*self, name@)) && run.prompt
                == prompt && run.resources == resources,
            r matches Err(e) ==> (e matches EngineError::AgentNotFound(n) && n@ == ascii_lower(
                run_target(*self, name@),
            )),
    {
        let target = self.agent_name(name);
        match self.check_agent(target.as_str()) {
            Ok(agent) => Ok(AgentRun { agent, prompt, resources }),
            Err(e) => Err(e),
        }
    }
}

/// The output of an agent run as the engine returns it: its full history is
/// cleared, all else kept.
pub fn finish_agent_output(out: AgentOutput) -> (r: AgentOutput)
    ensures
        r.full_history is None,
        r.content == out.content && r.failed_reason == out.failed_reason,
        r.tool_calls == out.tool_calls && r.usage == out.usage,
{
    let mut r = out;
    r.full_history = None;
    r
}

} // verus!
