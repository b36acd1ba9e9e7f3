//! Remote engines: their agents and tools, registered under a name, and the
//! lookups that route a prefixed function name to its engine.
use vstd::prelude::*;
use crate::principal::Principal;
use crate::sorted::{keys_increasing, key_map, insert_sorted, lemma_key_map};
use crate::function::{Function, FunctionDefinition, FunctionNameError, valid_function_name, validate_function_name};
use crate::text::{
    str_eq, strip_prefix, texts_of, listed, ascii_lower, to_ascii_lowercase, seq_less,
    lemma_seq_less_total,
};
use crate::resource::{Resource, select_resources, selected_by_tags};

verus! {

/// What an engine tells about itself.
#[derive(Debug)]
pub struct Information {
    /// The engine's principal.
    pub id: Principal,
    pub name: String,
    pub description: String,
    pub agents: Vec<Function>,
    pub tools: Vec<Function>,
    /// The engine's endpoint; empty for a local engine.
    pub endpoint: String,
}

/// What an engine tells about itself, with its principal as text.
#[derive(Debug)]
pub struct InformationJSON {
    pub id: String,
    pub name: String,
    pub description: String,
    pub agents: Vec<Function>,
    pub tools: Vec<Function>,
    pub endpoint: String,
}

/// The arguments of registering a remote engine.
#[derive(Debug)]
pub struct RemoteEngineArgs {
    /// The endpoint of the engine.
    pub endpoint: String,
    /// The agents to take from the engine; all when empty.
    pub agents: Vec<String>,
    /// The tools to take from the engine; all when empty.
    pub tools: Vec<String>,
    /// The name to register the engine under; its own name in lowercase when none.
    pub name: Option<String>,
}

/// The registered remote engines, by name.
#[derive(Debug)]
pub struct RemoteEngines {
    /// The engines, names strictly increasing (a map).
    pub engines: Vec<(String, Information)>,
}

/// The engines' names are strictly increasing.
pub open spec fn engines_wf(e: Seq<(String, Information)>) -> bool {
    keys_increasing(e)
}

/// The index of the first engine whose name is a prefix of `rest`, if any.
pub open spec fn first_prefix_engine(e: Seq<(String, Information)>, rest: Seq<char>) -> Option<int>
    decreases e.len(),
{
    if e.len() == 0 {
        None
    } else {
        match first_prefix_engine(e.drop_last(), rest) {
            Some(i) => Some(i),
            None => if e.last().0@.is_prefix_of(rest) {
                Some(e.len() - 1)
            } else {
                None
            },
        }
    }
}

/// The index of the first engine with the given endpoint, if any.
pub open spec fn first_endpoint_engine(e: Seq<(String, Information)>, endpoint: Seq<char>) -> Option<int>
    decreases e.len(),
{
    if e.len() == 0 {
        None
    } else {
        match first_endpoint_engine(e.drop_last(), endpoint) {
            Some(i) => Some(i),
            None => if e.last().1.endpoint@ == endpoint {
                Some(e.len() - 1)
            } else {
                None
            },
        }
    }
}

/// The routing of a prefixed name: the endpoint of the first engine (in name
/// order) whose name starts the rest of the name after `kind`, and the
/// function's own name after the engine's name.
pub open spec fn spec_route(e: Seq<(String, Information)>, kind: Seq<char>, prefixed: Seq<char>) -> Option<(Seq<char>, Seq<char>)> {
    if kind.is_prefix_of(prefixed) {
        let rest = prefixed.skip(kind.len() as int);
        match first_prefix_engine(e, rest) {
            Some(i) => Some((e[i].1.endpoint@, rest.skip(e[i].0@.len() as int))),
            None => None,
        }
    } else {
        None
    }
}

/// The first engine whose name starts `rest` is an engine whose name starts `rest`.
proof fn lemma_first_prefix_sound(e: Seq<(String, Information)>, rest: Seq<char>)
    ensures
        first_prefix_engine(e, rest) matches Some(i) ==> 0 <= i < e.len() && e[i].0@.is_prefix_of(
            rest,
        ),
    decreases e.len(),
{
    if e.len() > 0 {
        lemma_first_prefix_sound(e.drop_last(), rest);
    }
}

/// A first index found in a prefix of the engines stays the first one.
proof fn lemma_first_prefix_extend(e: Seq<(String, Information)>, n: int, rest: Seq<char>)
    requires
        0 <= n <= e.len(),
        first_prefix_engine(e.take(n), rest) is Some,
    ensures
        first_prefix_engine(e, rest) == first_prefix_engine(e.take(n), rest),
    decreases e.len() - n,
{
    if n < e.len() {
        assert(e.take(n + 1).drop_last() =~= e.take(n));
        lemma_first_prefix_extend(e, n + 1, rest);
    } else {
        assert(e.take(n) =~= e);
    }
}

/// A first index found in a prefix of the engines stays the first one.
proof fn lemma_first_endpoint_extend(e: Seq<(String, Information)>, n: int, endpoint: Seq<char>)
    requires
        0 <= n <= e.len(),
        first_endpoint_engine(e.take(n), endpoint) is Some,
    ensures
        first_endpoint_engine(e, endpoint) == first_endpoint_engine(e.take(n), endpoint),
    decreases e.len() - n,
{
    if n < e.len() {
        assert(e.take(n + 1).drop_last() =~= e.take(n));
        lemma_first_endpoint_extend(e, n + 1, endpoint);
    } else {
        assert(e.take(n) =~= e);
    }
}


/// Where exactly one engine, the `i`-th, has a name that starts `rest`, the
/// routing finds that one.
proof fn lemma_only_prefix_engine(e: Seq<(String, Information)>, rest: Seq<char>, i: int)
    requires
        0 <= i < e.len(),
        e[i].0@.is_prefix_of(rest),
        forall|j: int| 0 <= j < e.len() && j != i ==> !(#[trigger] e[j].0@).is_prefix_of(rest),
    ensures
        first_prefix_engine(e, rest) == Some(i),
    decreases e.len(),
{
    if i < e.len() - 1 {
        let p = e.drop_last();
        assert forall|j: int| 0 <= j < p.len() && j != i implies !(#[trigger] p[j].0@).is_prefix_of(rest) by {
            assert(p[j] == e[j]);
        }
        lemma_only_prefix_engine(p, rest, i);
    } else {
        let p = e.drop_last();
        assert forall|j: int| 0 <= j < p.len() implies !(#[trigger] p[j].0@).is_prefix_of(rest) by {
            assert(p[j] == e[j]);
        }
        lemma_no_prefix_engine(p, rest);
    }
}

/// Where no engine's name starts `rest`, the routing finds none.
proof fn lemma_no_prefix_engine(e: Seq<(String, Information)>, rest: Seq<char>)
    requires
        forall|j: int| 0 <= j < e.len() ==> !(#[trigger] e[j].0@).is_prefix_of(rest),
    ensures
        first_prefix_engine(e, rest) is None,
    decreases e.len(),
{
    if e.len() > 0 {
        let p = e.drop_last();
        assert forall|j: int| 0 <= j < p.len() implies !(#[trigger] p[j].0@).is_prefix_of(rest) by {
            assert(p[j] == e[j]);
        }
        lemma_no_prefix_engine(p, rest);
        assert(!e[e.len() - 1].0@.is_prefix_of(rest));
    }
}

/// A function of a registered engine is routed to that engine: the name of
/// the kind ("RT_" for tools, "RA_" for agents), then the engine's name, then
/// the function's name, gives the engine's endpoint and the function's name,
/// wherever no other registered engine has a name that starts the engine's
/// name followed by the function's.
pub proof fn registered_engine_routes(engines: RemoteEngines, kind: Seq<char>, name: Seq<char>, function: Seq<char>)
    requires
        engines_wf(engines.engines@),
        engines@.dom().contains(name),
        forall|other: Seq<char>|
            #[trigger] engines@.dom().contains(other) && other != name ==> !other.is_prefix_of(name + function),
    ensures
        spec_route(engines.engines@, kind, kind + name + function) == Some(
            (engines@[name].endpoint@, function),
        ),
{
    let e = engines.engines@;
    lemma_key_map(e);
    let i = choose|i: int| 0 <= i < e.len() && e[i].0@ == name;
    let rest = name + function;
    assert((kind + name + function).skip(kind.len() as int) =~= rest);
    assert(kind.is_prefix_of(kind + name + function)) by {
        assert((kind + name + function).subrange(0, kind.len() as int) =~= kind);
    }
    assert(name.is_prefix_of(rest)) by {
        assert(rest.subrange(0, name.len() as int) =~= name);
    }
    assert forall|j: int| 0 <= j < e.len() && j != i implies !(#[trigger] e[j].0@).is_prefix_of(rest) by {
        assert(key_map(e).dom().contains(e[j].0@));
        if e[j].0@ == name {
            lemma_seq_less_total(name, name);
            if j < i {
                assert(seq_less(e[j].0@, e[i].0@));
            } else {
                assert(seq_less(e[i].0@, e[j].0@));
            }
        }
    }
    lemma_only_prefix_engine(e, rest, i);
    assert(rest.skip(name.len() as int) =~= function);
}

/// The function passes the optional name filter.
pub open spec fn name_kept(f: Function, names: Option<Seq<Seq<char>>>) -> bool {
    match names {
        Some(ns) => ns.contains(f.definition.name@),
        None => true,
    }
}

/// The tools (or agents) of an engine that pass the filter, each with its
/// prefix: `kind` then the engine's name.
pub open spec fn engine_selected(en: (String, Information), kind: Seq<char>, tools: bool, names: Option<Seq<Seq<char>>>) -> Seq<(Seq<char>, Function)> {
    (if tools {
        en.1.tools@
    } else {
        en.1.agents@
    }).filter(|f: Function| name_kept(f, names)).map_values(|f: Function| (kind + en.0@, f))
}

/// The selected tools (or agents) of all engines, engine by engine in name order.
pub open spec fn engines_selected(e: Seq<(String, Information)>, kind: Seq<char>, tools: bool, names: Option<Seq<Seq<char>>>) -> Seq<(Seq<char>, Function)>
    decreases e.len(),
{
    if e.len() == 0 {
        Seq::empty()
    } else {
        engines_selected(e.drop_last(), kind, tools, names) + engine_selected(
            e.last(),
            kind,
            tools,
            names,
        )
    }
}

/// `r` holds the definitions of the selected functions, names prefixed.
pub open spec fn defs_match(r: Seq<FunctionDefinition>, sel: Seq<(Seq<char>, Function)>) -> bool {
    &&& r.len() == sel.len()
    &&& forall|k: int|
        0 <= k < r.len() ==> (#[trigger] r[k]).name@ == sel[k].0 + sel[k].1.definition.name@
            && r[k].description == sel[k].1.definition.description && r[k].parameters
            == sel[k].1.definition.parameters && r[k].strict == sel[k].1.definition.strict
}

/// The texts of an optional list of names.
pub open spec fn names_view(names: Option<&Vec<String>>) -> Option<Seq<Seq<char>>> {
    match names {
        Some(v) => Some(texts_of(v@)),
        None => None,
    }
}

/// The index of the first of `fs` named `name`, if any.
pub open spec fn first_named(fs: Seq<Function>, name: Seq<char>) -> Option<int>
    decreases fs.len(),
{
    if fs.len() == 0 {
        None
    } else {
        match first_named(fs.drop_last(), name) {
            Some(j) => Some(j),
            None => if fs.last().definition.name@ == name {
                Some(fs.len() - 1)
            } else {
                None
            },
        }
    }
}

/// The tools, or the agents, of an engine.
pub open spec fn engine_functions(en: (String, Information), tools: bool) -> Seq<Function> {
    if tools {
        en.1.tools@
    } else {
        en.1.agents@
    }
}

/// The first function named `name` among the tools (or agents) of the
/// engines, engine by engine in name order: the engine's index and the
/// function's.
pub open spec fn first_engine_function(e: Seq<(String, Information)>, tools: bool, name: Seq<char>) -> Option<(int, int)>
    decreases e.len(),
{
    if e.len() == 0 {
        None
    } else {
        match first_engine_function(e.drop_last(), tools, name) {
            Some(p) => Some(p),
            None => match first_named(engine_functions(e.last(), tools), name) {
                Some(j) => Some((e.len() - 1, j)),
                None => None,
            },
        }
    }
}

proof fn lemma_first_named_sound(fs: Seq<Function>, name: Seq<char>)
    ensures
        first_named(fs, name) matches Some(j) ==> 0 <= j < fs.len() && fs[j].definition.name@ == name,
    decreases fs.len(),
{
    if fs.len() > 0 {
        lemma_first_named_sound(fs.drop_last(), name);
    }
}

proof fn lemma_first_named_extend(fs: Seq<Function>, n: int, name: Seq<char>)
    requires
        0 <= n <= fs.len(),
        first_named(fs.take(n), name) is Some,
    ensures
        first_named(fs, name) == first_named(fs.take(n), name),
    decreases fs.len() - n,
{
    if n < fs.len() {
        assert(fs.take(n + 1).drop_last() =~= fs.take(n));
        lemma_first_named_extend(fs, n + 1, name);
    } else {
        assert(fs.take(n) =~= fs);
    }
}

proof fn lemma_first_engine_function_sound(e: Seq<(String, Information)>, tools: bool, name: Seq<char>)
    ensures
        first_engine_function(e, tools, name) matches Some(p) ==> 0 <= p.0 < e.len() && 0 <= p.1
            < engine_functions(e[p.0], tools).len() && engine_functions(e[p.0], tools)[p.1].definition.name@ == name,
    decreases e.len(),
{
    if e.len() > 0 {
        lemma_first_engine_function_sound(e.drop_last(), tools, name);
        lemma_first_named_sound(engine_functions(e.last(), tools), name);
    }
}

proof fn lemma_first_engine_function_extend(e: Seq<(String, Information)>, n: int, tools: bool, name: Seq<char>)
    requires
        0 <= n <= e.len(),
        first_engine_function(e.take(n), tools, name) is Some,
    ensures
        first_engine_function(e, tools, name) == first_engine_function(e.take(n), tools, name),
    decreases e.len() - n,
{
    if n < e.len() {
        assert(e.take(n + 1).drop_last() =~= e.take(n));
        lemma_first_engine_function_extend(e, n + 1, tools, name);
    } else {
        assert(e.take(n) =~= e);
    }
}

/// The index of the first of `fs` named `name`.
fn find_named(fs: &Vec<Function>, name: &str) -> (r: Option<usize>)
    ensures
        r is None <==> first_named(fs@, name@) is None,
        r matches Some(j) ==> first_named(fs@, name@) == Some(j as int),
{
    let mut j: usize = 0;
    while j < fs.len()
        invariant
            j <= fs.len(),
            first_named(fs@.take(j as int), name@) is None,
        decreases fs.len() - j,
    {
        assert(fs@.take(j + 1).drop_last() =~= fs@.take(j as int));
        if str_eq(fs[j].definition.name.as_str(), name) {
            proof {
                lemma_first_named_extend(fs@, j + 1, name@);
            }
            return Some(j);
        }
        j = j + 1;
    }
    assert(fs@.take(j as int) =~= fs@);
    None
}

/// The engines as a map from name to information.
pub open spec fn engine_map(e: Seq<(String, Information)>) -> Map<Seq<char>, Information> {
    key_map(e)
}

impl View for RemoteEngines {
    type V = Map<Seq<char>, Information>;

    open spec fn view(&self) -> Map<Seq<char>, Information> {
        engine_map(self.engines@)
    }
}

/// The functions of `fs` whose names are among `names`, in order.
pub open spec fn kept_functions(fs: Seq<Function>, names: Seq<Seq<char>>) -> Seq<Function>
    decreases fs.len(),
{
    if fs.len() == 0 {
        fs
    } else {
        let rest = kept_functions(fs.drop_last(), names);
        if names.contains(fs.last().definition.name@) {
            rest.push(fs.last())
        } else {
            rest
        }
    }
}

/// One of `fs` is named `name`.
pub open spec fn offers(fs: Seq<Function>, name: Seq<char>) -> bool {
    exists|j: int| 0 <= j < fs.len() && fs[j].definition.name@ == name
}

/// The index of the first of `names` that no function of `fs` has, if any.
pub open spec fn first_missing(names: Seq<String>, fs: Seq<Function>) -> Option<int>
    decreases names.len(),
{
    if names.len() == 0 {
        None
    } else {
        match first_missing(names.drop_last(), fs) {
            Some(i) => Some(i),
            None => if offers(fs, names.last()@) {
                None
            } else {
                Some(names.len() - 1)
            },
        }
    }
}

/// The name an engine is registered under: the one asked for, else its own
/// name in ASCII lowercase.
pub open spec fn register_name(args: RemoteEngineArgs, info: Information) -> Seq<char> {
    match args.name {
        Some(n) => n@,
        None => ascii_lower(info.name@),
    }
}

/// The functions taken from an engine: those asked for, or all when none is.
pub open spec fn taken_functions(fs: Seq<Function>, asked: Seq<String>) -> Seq<Function> {
    if asked.len() == 0 {
        fs
    } else {
        kept_functions(fs, texts_of(asked))
    }
}

/// `r` is the information `info` as registered with `args`: the agents and
/// tools asked for, and the endpoint of the arguments.
pub open spec fn registered_as(r: Information, info: Information, args: RemoteEngineArgs) -> bool {
    &&& r.id == info.id
    &&& r.name == info.name
    &&& r.description == info.description
    &&& r.endpoint == args.endpoint
    &&& r.agents@ == taken_functions(info.agents@, args.agents@)
    &&& r.tools@ == taken_functions(info.tools@, args.tools@)
}

/// Each of the asked names that is missing is found by `first_missing`.
pub open spec fn all_offered(asked: Seq<String>, fs: Seq<Function>) -> bool {
    asked.len() == 0 || first_missing(asked, fs) is None
}

/// Why an engine could not be registered.
#[derive(Debug)]
pub enum RegisterError {
    /// The name it would be registered under breaks the naming rules.
    InvalidName(String, FunctionNameError),
    /// An agent asked for (first) is not offered by the engine (second).
    AgentNotFound(String, String),
    /// A tool asked for (first) is not offered by the engine (second).
    ToolNotFound(String, String),
}

/// Whether one of `fs` is named `name`.
fn offers_name(fs: &Vec<Function>, name: &str) -> (r: bool)
    ensures
        r == offers(fs@, name@),
{
    let mut j: usize = 0;
    while j < fs.len()
        invariant
            j <= fs.len(),
            forall|k: int| 0 <= k < j ==> fs@[k].definition.name@ != name@,
        decreases fs.len() - j,
    {
        if str_eq(fs[j].definition.name.as_str(), name) {
            return true;
        }
        j = j + 1;
    }
    false
}

/// The index of the first of `names` that none of `fs` has.
fn first_missing_name(names: &Vec<String>, fs: &Vec<Function>) -> (r: Option<usize>)
    ensures
        r is None <==> first_missing(names@, fs@) is None,
        r matches Some(i) ==> first_missing(names@, fs@) == Some(i as int) && i < names@.len(),
{
    let mut i: usize = 0;
    while i < names.len()
        invariant
            i <= names.len(),
            first_missing(names@.take(i as int), fs@) is None,
        decreases names.len() - i,
    {
        assert(names@.take(i + 1).drop_last() =~= names@.take(i as int));
        if !offers_name(fs, names[i].as_str()) {
            proof {
                lemma_first_missing_extend(names@, fs@, i + 1);
            }
            return Some(i);
        }
        i = i + 1;
    }
    assert(names@.take(i as int) =~= names@);
    None
}

/// A first missing name found in a prefix of the names stays the first one.
proof fn lemma_first_missing_extend(names: Seq<String>, fs: Seq<Function>, n: int)
    requires
        0 <= n <= names.len(),
        first_missing(names.take(n), fs) is Some,
    ensures
        first_missing(names, fs) == first_missing(names.take(n), fs),
    decreases names.len() - n,
{
    if n < names.len() {
        assert(names.take(n + 1).drop_last() =~= names.take(n));
        lemma_first_missing_extend(names, fs, n + 1);
    } else {
        assert(names.take(n) =~= names);
    }
}

/// The functions of `fs` whose names are among `names`, in order.
fn keep_functions(fs: Vec<Function>, names: &Vec<String>) -> (r: Vec<Function>)
    ensures
        r@ == kept_functions(fs@, texts_of(names@)),
{
    let ghost all = fs@;
    let mut kept: Vec<Function> = Vec::new();
    for f in it: fs.into_iter()
        invariant
            it.seq() == all,
            kept@ == kept_functions(all.take(it.index() as int), texts_of(names@)),
    {
        proof {
            assert(all.take(it.index() as int + 1).drop_last() =~= all.take(it.index() as int));
        }
        if listed(f.definition.name.as_str(), names) {
            kept.push(f);
        }
    }
    proof {
        assert(all.take(all.len() as int) =~= all);
    }
    kept
}


impl RemoteEngines {
    /// No engines.
    pub fn new() -> (r: RemoteEngines)
        ensures
            r.engines@.len() == 0,
            engines_wf(r.engines@),
            r@ == Map::<Seq<char>, Information>::empty(),
    {
        RemoteEngines { engines: Vec::new() }
    }

    /// The index of the first engine whose name starts `rest`, if any.
    fn find_prefix_engine(&self, rest: &str) -> (r: Option<usize>)
        ensures
            match r {
                Some(i) => first_prefix_engine(self.engines@, rest@) == Some(i as int) && i
                    < self.engines@.len(),
                None => first_prefix_engine(self.engines@, rest@) is None,
            },
    {
        let mut i: usize = 0;
        assert(self.engines@.take(0) =~= Seq::<(String, Information)>::empty());
        while i < self.engines.len()
            invariant
                i <= self.engines.len(),
                first_prefix_engine(self.engines@.take(i as int), rest@) is None,
            decreases self.engines.len() - i,
        {
            assert(self.engines@.take(i + 1).drop_last() =~= self.engines@.take(i as int));
            if strip_prefix(rest, self.engines[i].0.as_str()).is_some() {
                proof {
                    lemma_first_prefix_extend(self.engines@, i + 1, rest@);
                }
                return Some(i);
            }
            i = i + 1;
        }
        assert(self.engines@.take(self.engines.len() as int) =~= self.engines@);
        None
    }

    /// The index of the first engine with the given endpoint, if any.
    fn find_endpoint_engine(&self, endpoint: &str) -> (r: Option<usize>)
        ensures
            match r {
                Some(i) => first_endpoint_engine(self.engines@, endpoint@) == Some(i as int) && i
                    < self.engines@.len(),
                None => first_endpoint_engine(self.engines@, endpoint@) is None,
            },
    {
        let mut i: usize = 0;
        assert(self.engines@.take(0) =~= Seq::<(String, Information)>::empty());
        while i < self.engines.len()
            invariant
                i <= self.engines.len(),
                first_endpoint_engine(self.engines@.take(i as int), endpoint@) is None,
            decreases self.engines.len() - i,
        {
            assert(self.engines@.take(i + 1).drop_last() =~= self.engines@.take(i as int));
            if str_eq(self.engines[i].1.endpoint.as_str(), endpoint) {
                proof {
                    lemma_first_endpoint_extend(self.engines@, i + 1, endpoint@);
                }
                return Some(i);
            }
            i = i + 1;
        }
        assert(self.engines@.take(self.engines.len() as int) =~= self.engines@);
        None
    }

    /// Routes a prefixed name (`kind` then an engine's name then a function's name).
    fn route(&self, kind: &str, prefixed_name: &str) -> (r: Option<(String, String)>)
        ensures
            match r {
                Some((e, n)) => spec_route(self.engines@, kind@, prefixed_name@) == Some((e@, n@)),
                None => spec_route(self.engines@, kind@, prefixed_name@) is None,
            },
    {
        match strip_prefix(prefixed_name, kind) {
            Some(rest) => {
                match self.find_prefix_engine(rest.as_str()) {
                    Some(i) => {
                        proof {
                            lemma_first_prefix_sound(self.engines@, rest@);
                        }
                        let own = strip_prefix(rest.as_str(), self.engines[i].0.as_str());
                        match own {
                            Some(n) => Some((self.engines[i].1.endpoint.clone(), n)),
                            None => None,
                        }
                    },
                    None => None,
                }
            },
            None => None,
        }
    }

    /// The endpoint of a remote tool, and the tool's own name, from a name
    /// "RT_{engine}{tool}".
    pub fn get_tool_endpoint(&self, prefixed_name: &str) -> (r: Option<(String, String)>)
        ensures
            match r {
                Some((e, n)) => spec_route(self.engines@, "RT_"@, prefixed_name@) == Some((e@, n@)),
                None => spec_route(self.engines@, "RT_"@, prefixed_name@) is None,
            },
    {
        self.route("RT_", prefixed_name)
    }

    /// The endpoint of a remote agent, and the agent's own name, from a name
    /// "RA_{engine}{agent}".
    pub fn get_agent_endpoint(&self, prefixed_name: &str) -> (r: Option<(String, String)>)
        ensures
            match r {
                Some((e, n)) => spec_route(self.engines@, "RA_"@, prefixed_name@) == Some((e@, n@)),
                None => spec_route(self.engines@, "RA_"@, prefixed_name@) is None,
            },
    {
        self.route("RA_", prefixed_name)
    }

    /// The principal of the first engine with the given endpoint.
    pub fn get_id_by_endpoint(&self, endpoint: &str) -> (r: Option<Principal>)
        ensures
            match r {
                Some(p) => first_endpoint_engine(self.engines@, endpoint@) matches Some(i) && 0 <= i
                    < self.engines@.len() && p@ == self.engines@[i].1.id@,
                None => first_endpoint_engine(self.engines@, endpoint@) is None,
            },
    {
        match self.find_endpoint_engine(endpoint) {
            Some(i) => Some(self.engines[i].1.id.copy()),
            None => None,
        }
    }

    /// Appends the definitions of the selected tools (or agents) of engine `i`.
    fn append_engine_defs(&self, i: usize, kind: &str, tools: bool, names: Option<&Vec<String>>, out: &mut Vec<FunctionDefinition>)
        requires
            i < self.engines@.len(),
        ensures
            ({
                let sel = engine_selected(self.engines@[i as int], kind@, tools, names_view(names));
                &&& final(out)@.len() == old(out)@.len() + sel.len()
                &&& forall|k: int| 0 <= k < old(out)@.len() ==> final(out)@[k] == old(out)@[k]
                &&& defs_match(final(out)@.skip(old(out)@.len() as int), sel)
            }),
    {
        let en = &self.engines[i];
        let fs = if tools { &en.1.tools } else { &en.1.agents };
        let ghost fsv = fs@;
        let ghost pred = |f: Function| name_kept(f, names_view(names));
        let mut prefix = kind.to_owned();
        prefix.append(en.0.as_str());
        let ghost start = out@.len();
        let ghost old_out = out@;
        let mut j: usize = 0;
        assert(fsv.take(0).filter(pred) =~= Seq::<Function>::empty());
        while j < fs.len()
            invariant
                j <= fs.len(),
                fs@ == fsv,
                pred == (|f: Function| name_kept(f, names_view(names))),
                prefix@ == kind@ + self.engines@[i as int].0@,
                out@.len() == start + fsv.take(j as int).filter(pred).len(),
                start == old_out.len(),
                forall|k: int| 0 <= k < start ==> out@[k] == old_out[k],
                forall|k: int|
                    0 <= k < fsv.take(j as int).filter(pred).len() ==> (#[trigger] out@[start + k]).name@
                        == prefix@ + fsv.take(j as int).filter(pred)[k].definition.name@ && out@[start
                        + k].description == fsv.take(j as int).filter(pred)[k].definition.description
                        && out@[start + k].parameters == fsv.take(j as int).filter(
                        pred,
                    )[k].definition.parameters && out@[start + k].strict == fsv.take(j as int).filter(
                        pred,
                    )[k].definition.strict,
            decreases fs.len() - j,
        {
            proof {
                assert(fsv.take(j + 1) =~= fsv.take(j as int).push(fsv[j as int]));
                fsv.take(j as int).lemma_filter_push(fsv[j as int], pred);
            }
            let f = &fs[j];
            let keep = match names {
                Some(ns) => listed(f.definition.name.as_str(), ns),
                None => true,
            };
            if keep {
                let d = f.definition.copy().name_with_prefix(prefix.as_str());
                out.push(d);
            }
            j = j + 1;
        }
        proof {
            assert(fsv.take(fs.len() as int) =~= fsv);
            let sel = engine_selected(self.engines@[i as int], kind@, tools, names_view(names));
            assert(sel =~= fsv.filter(pred).map_values(
                |f: Function| (kind@ + self.engines@[i as int].0@, f),
            ));
            assert forall|k: int| 0 <= k < sel.len() implies (#[trigger] out@.skip(start as int)[k]).name@
                == sel[k].0 + sel[k].1.definition.name@ && out@.skip(start as int)[k].description
                == sel[k].1.definition.description && out@.skip(start as int)[k].parameters
                == sel[k].1.definition.parameters && out@.skip(start as int)[k].strict
                == sel[k].1.definition.strict by {
                assert(out@.skip(start as int)[k] == out@[start + k]);
            }
        }
    }

    /// The definitions of the selected tools (or agents) of all engines.
    fn all_defs(&self, kind: &str, tools: bool, names: Option<&Vec<String>>) -> (r: Vec<FunctionDefinition>)
        ensures
            defs_match(r@, engines_selected(self.engines@, kind@, tools, names_view(names))),
    {
        let mut out: Vec<FunctionDefinition> = Vec::new();
        let mut i: usize = 0;
        assert(self.engines@.take(0) =~= Seq::<(String, Information)>::empty());
        while i < self.engines.len()
            invariant
                i <= self.engines.len(),
                defs_match(out@, engines_selected(self.engines@.take(i as int), kind@, tools, names_view(names))),
            decreases self.engines.len() - i,
        {
            let ghost before = out@;
            let ghost prev = engines_selected(self.engines@.take(i as int), kind@, tools, names_view(names));
            self.append_engine_defs(i, kind, tools, names, &mut out);
            proof {
                assert(self.engines@.take(i + 1).drop_last() =~= self.engines@.take(i as int));
                assert(self.engines@.take(i + 1).last() == self.engines@[i as int]);
                let sel = engine_selected(self.engines@[i as int], kind@, tools, names_view(names));
                let all = engines_selected(self.engines@.take(i + 1), kind@, tools, names_view(names));
                assert(all == prev + sel);
                assert forall|k: int| 0 <= k < out@.len() implies (#[trigger] out@[k]).name@ == all[k].0
                    + all[k].1.definition.name@ && out@[k].description == all[k].1.definition.description
                    && out@[k].parameters == all[k].1.definition.parameters && out@[k].strict
                    == all[k].1.definition.strict by {
                    if k < before.len() {
                        assert(out@[k] == before[k]);
                    } else {
                        assert(out@.skip(before.len() as int)[k - before.len()] == out@[k]);
                    }
                }
            }
            i = i + 1;
        }
        assert(self.engines@.take(self.engines.len() as int) =~= self.engines@);
        out
    }

    /// Definitions of the remote tools (or agents), names prefixed with
    /// `kind` and the engine's name: those of the first engine with the given
    /// endpoint, if there is one; otherwise those of all engines, in name order.
    fn definitions(&self, kind: &str, tools: bool, endpoint: Option<&str>, names: Option<&Vec<String>>) -> (r: Vec<FunctionDefinition>)
        ensures
            match (match endpoint {
                Some(ep) => first_endpoint_engine(self.engines@, ep@),
                None => None,
            }) {
                Some(i) => defs_match(r@, engine_selected(self.engines@[i], kind@, tools, names_view(names))),
                None => defs_match(r@, engines_selected(self.engines@, kind@, tools, names_view(names))),
            },
    {
        if let Some(ep) = endpoint {
            if let Some(i) = self.find_endpoint_engine(ep) {
                let mut out: Vec<FunctionDefinition> = Vec::new();
                self.append_engine_defs(i, kind, tools, names, &mut out);
                assert(out@.skip(0) =~= out@);
                return out;
            }
        }
        self.all_defs(kind, tools, names)
    }

    /// Definitions of the remote tools, names prefixed "RT_{engine}": those of
    /// the first engine with the given endpoint, if there is one; otherwise
    /// those of all engines in name order; only the given names when given.
    pub fn tool_definitions(&self, endpoint: Option<&str>, names: Option<&Vec<String>>) -> (r: Vec<FunctionDefinition>)
        ensures
            match (match endpoint {
                Some(ep) => first_endpoint_engine(self.engines@, ep@),
                None => None,
            }) {
                Some(i) => defs_match(r@, engine_selected(self.engines@[i], "RT_"@, true, names_view(names))),
                None => defs_match(r@, engines_selected(self.engines@, "RT_"@, true, names_view(names))),
            },
    {
        self.definitions("RT_", true, endpoint, names)
    }

    /// Definitions of the remote agents, names prefixed "RA_{engine}": those of
    /// the first engine with the given endpoint, if there is one; otherwise
    /// those of all engines in name order; only the given names when given.
    pub fn agent_definitions(&self, endpoint: Option<&str>, names: Option<&Vec<String>>) -> (r: Vec<FunctionDefinition>)
        ensures
            match (match endpoint {
                Some(ep) => first_endpoint_engine(self.engines@, ep@),
                None => None,
            }) {
                Some(i) => defs_match(r@, engine_selected(self.engines@[i], "RA_"@, false, names_view(names))),
                None => defs_match(r@, engines_selected(self.engines@, "RA_"@, false, names_view(names))),
            },
    {
        self.definitions("RA_", false, endpoint, names)
    }
}

impl RemoteEngines {
    /// Registers the engine that told `info` about itself, as `args` ask:
    /// under the name asked for, else its own name in ASCII lowercase, which
    /// must follow the naming rules; with the agents and tools asked for, each
    /// of which it must offer (all of them where none is asked for); and at
    /// the endpoint of the arguments. An engine of that name is replaced.
    pub fn register_info(&mut self, args: RemoteEngineArgs, info: Information) -> (r: Result<(), RegisterError>)
        requires
            engines_wf(old(self).engines@),
        ensures
            engines_wf(final(self).engines@),
            r is Ok <==> valid_function_name(register_name(args, info))
                && all_offered(args.agents@, info.agents@) && all_offered(args.tools@, info.tools@),
            !valid_function_name(register_name(args, info)) ==> (r matches Err(
                RegisterError::InvalidName(n, _),
            ) && n@ == register_name(args, info)),
            valid_function_name(register_name(args, info)) && args.agents@.len() > 0 ==> (
            first_missing(args.agents@, info.agents@) matches Some(i) ==> r matches Err(
                RegisterError::AgentNotFound(a, n),
            ) && a@ == args.agents@[i]@ && n@ == register_name(args, info)),
            valid_function_name(register_name(args, info)) && all_offered(args.agents@, info.agents@)
                && args.tools@.len() > 0 ==> (first_missing(args.tools@, info.tools@) matches Some(
                i,
            ) ==> r matches Err(RegisterError::ToolNotFound(t, n)) && t@ == args.tools@[i]@ && n@
                == register_name(args, info)),
            r is Err ==> final(self).engines@ == old(self).engines@,
            r is Ok ==> final(self)@ == old(self)@.insert(
                register_name(args, info),
                final(self)@[register_name(args, info)],
            ) && registered_as(final(self)@[register_name(args, info)], info, args),
    {
        let name = match &args.name {
            Some(n) => n.clone(),
            None => to_ascii_lowercase(info.name.as_str()),
        };
        match validate_function_name(name.as_str()) {
            Err(e) => {
                return Err(RegisterError::InvalidName(name, e));
            },
            Ok(()) => {},
        }
        let RemoteEngineArgs { endpoint, agents: asked_agents, tools: asked_tools, name: _ } = args;
        let Information { id, name: own_name, description, agents, tools, endpoint: _ } = info;
        let agents = if asked_agents.len() > 0 {
            match first_missing_name(&asked_agents, &agents) {
                Some(i) => {
                    return Err(RegisterError::AgentNotFound(asked_agents[i].clone(), name));
                },
                None => keep_functions(agents, &asked_agents),
            }
        } else {
            agents
        };
        let tools = if asked_tools.len() > 0 {
            match first_missing_name(&asked_tools, &tools) {
                Some(i) => {
                    return Err(RegisterError::ToolNotFound(asked_tools[i].clone(), name));
                },
                None => keep_functions(tools, &asked_tools),
            }
        } else {
            tools
        };
        let registered = Information { id, name: own_name, description, agents, tools, endpoint };
        let ghost nv = name@;
        insert_sorted(&mut self.engines, name, registered);
        proof {
            assert(self@[nv] == registered);
        }
        Ok(())
    }
}

impl RemoteEngines {
    /// The first function named `name` among the tools (or agents) of the
    /// engines in name order, as the engine's index and the function's.
    fn find_engine_function(&self, tools: bool, name: &str) -> (r: Option<(usize, usize)>)
        ensures
            r is None <==> first_engine_function(self.engines@, tools, name@) is None,
            r matches Some(p) ==> first_engine_function(self.engines@, tools, name@) == Some(
                (p.0 as int, p.1 as int),
            ),
    {
        let mut i: usize = 0;
        while i < self.engines.len()
            invariant
                i <= self.engines.len(),
                first_engine_function(self.engines@.take(i as int), tools, name@) is None,
            decreases self.engines.len() - i,
        {
            assert(self.engines@.take(i + 1).drop_last() =~= self.engines@.take(i as int));
            let fs = if tools {
                &self.engines[i].1.tools
            } else {
                &self.engines[i].1.agents
            };
            if let Some(j) = find_named(fs, name) {
                proof {
                    lemma_first_engine_function_extend(self.engines@, i + 1, tools, name@);
                }
                return Some((i, j));
            }
            i = i + 1;
        }
        assert(self.engines@.take(i as int) =~= self.engines@);
        None
    }

    /// Takes out of `resources` those that the remote tool named `name`
    /// accepts by its resource tags: the first tool of that name, engine by
    /// engine in name order, among names that start with "RT_"; `None`, and
    /// nothing taken, when there is no such tool.
    pub fn select_tool_resources(&self, name: &str, resources: &mut Vec<Resource>) -> (r: Option<Vec<Resource>>)
        ensures
            !("RT_"@.is_prefix_of(name@)) ==> r is None,
            r is Some <==> "RT_"@.is_prefix_of(name@) && first_engine_function(self.engines@, true, name@) is Some,
            r is None ==> final(resources)@ == old(resources)@,
            r matches Some(taken) ==> ({
                let (i, j) = first_engine_function(self.engines@, true, name@)->0;
                selected_by_tags(
                    old(resources)@,
                    final(resources)@,
                    taken@,
                    texts_of(self.engines@[i].1.tools@[j].supported_resource_tags@),
                )
            }),
    {
        if strip_prefix(name, "RT_").is_none() {
            return None;
        }
        proof {
            lemma_first_engine_function_sound(self.engines@, true, name@);
        }
        match self.find_engine_function(true, name) {
            Some((i, j)) => Some(select_resources(resources, &self.engines[i].1.tools[j].supported_resource_tags)),
            None => None,
        }
    }

    /// Takes out of `resources` those that the remote agent named `name`
    /// accepts by its resource tags: the first agent of that name, engine by
    /// engine in name order; `None`, and nothing taken, when there is none.
    pub fn select_agent_resources(&self, name: &str, resources: &mut Vec<Resource>) -> (r: Option<Vec<Resource>>)
        ensures
            r is Some <==> first_engine_function(self.engines@, false, name@) is Some,
            r is None ==> final(resources)@ == old(resources)@,
            r matches Some(taken) ==> ({
                let (i, j) = first_engine_function(self.engines@, false, name@)->0;
                selected_by_tags(
                    old(resources)@,
                    final(resources)@,
                    taken@,
                    texts_of(self.engines@[i].1.agents@[j].supported_resource_tags@),
                )
            }),
    {
        proof {
            lemma_first_engine_function_sound(self.engines@, false, name@);
        }
        match self.find_engine_function(false, name) {
            Some((i, j)) => Some(select_resources(resources, &self.engines[i].1.agents[j].supported_resource_tags)),
            None => None,
        }
    }
}

/// A tool of a remote engine, used as a local tool under a name of its own.
#[derive(Debug)]
pub struct RemoteTool {
    pub engine: Principal,
    pub endpoint: String,
    pub function: Function,
    pub name: String,
}

/// An agent of a remote engine, used as a local agent under a name of its own.
#[derive(Debug)]
pub struct RemoteAgent {
    pub engine: Principal,
    pub endpoint: String,
    pub function: Function,
    pub name: String,
}

impl RemoteTool {
    /// The remote tool under the name asked for, which must follow the naming
    /// rules, else under the tool's own name.
    pub fn new(engine: Principal, endpoint: String, function: Function, name: Option<String>) -> (r: Result<RemoteTool, FunctionNameError>)
        ensures
            r is Ok <==> (name matches Some(n) ==> valid_function_name(n@)),
            r matches Ok(t) ==> t.engine == engine && t.endpoint == endpoint && t.function == function
                && t.name@ == (match name {
                Some(n) => n@,
                None => function.definition.name@,
            }),
    {
        let name = match name {
            Some(n) => {
                match validate_function_name(n.as_str()) {
                    Err(e) => {
                        return Err(e);
                    },
                    Ok(()) => {},
                }
                n
            },
            None => function.definition.name.clone(),
        };
        Ok(RemoteTool { engine, endpoint, function, name })
    }

    /// The tool's definition, under this tool's name.
    pub fn definition(&self) -> (d: FunctionDefinition)
        ensures
            d.name == self.name,
            d.description == self.function.definition.description,
            d.parameters == self.function.definition.parameters,
            d.strict == self.function.definition.strict,
    {
        let mut d = self.function.definition.copy();
        d.name = self.name.clone();
        d
    }
}

impl RemoteAgent {
    /// The remote agent under the name asked for, whose ASCII lowercase must
    /// follow the naming rules, else under the agent's own name.
    pub fn new(engine: Principal, endpoint: String, function: Function, name: Option<String>) -> (r: Result<RemoteAgent, FunctionNameError>)
        ensures
            r is Ok <==> (name matches Some(n) ==> valid_function_name(ascii_lower(n@))),
            r matches Ok(a) ==> a.engine == engine && a.endpoint == endpoint && a.function == function
                && a.name@ == (match name {
                Some(n) => n@,
                None => function.definition.name@,
            }),
    {
        let name = match name {
            Some(n) => {
                let lower = to_ascii_lowercase(n.as_str());
                match validate_function_name(lower.as_str()) {
                    Err(e) => {
                        return Err(e);
                    },
                    Ok(()) => {},
                }
                n
            },
            None => function.definition.name.clone(),
        };
        Ok(RemoteAgent { engine, endpoint, function, name })
    }

    /// The agent's definition, under this agent's name in ASCII lowercase.
    pub fn definition(&self) -> (d: FunctionDefinition)
        ensures
            d.name@ == ascii_lower(self.name@),
            d.description == self.function.definition.description,
            d.parameters == self.function.definition.parameters,
            d.strict == self.function.definition.strict,
    {
        let mut d = self.function.definition.copy();
        d.name = to_ascii_lowercase(self.name.as_str());
        d
    }
}

} // verus!
