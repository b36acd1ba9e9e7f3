//! The functions an engine offers, by name: its tools or its agents. The set
//! checks the names it is given, refuses a name twice, lists definitions in
//! name order and hands a function the resources it accepts.
use vstd::prelude::*;
use crate::function::{Function, FunctionDefinition, FunctionNameError, valid_function_name, validate_function_name};
use crate::resource::{Resource, select_resources, selected_by_tags};
use crate::sorted::{keys_increasing, key_map, insert_sorted};
use crate::text::{str_eq, texts_of, listed, ascii_lower, to_ascii_lowercase};

verus! {

/// Functions by name, names strictly increasing.
#[derive(Debug)]
pub struct FunctionSet {
    pub set: Vec<(String, Function)>,
}

impl View for FunctionSet {
    type V = Map<Seq<char>, Function>;

    open spec fn view(&self) -> Map<Seq<char>, Function> {
        key_map(self.set@)
    }
}

/// Why a function could not be added.
#[derive(Debug)]
pub enum AddError {
    /// The name breaks the naming rules.
    InvalidName(String, FunctionNameError),
    /// A function of that name is already there.
    AlreadyExists(String),
}


/// The message of an error adding a function of the given kind ("tool" or
/// "agent"): `None` for a name that breaks the naming rules, whose message
/// belongs to the name check.
pub open spec fn add_error_message(e: AddError, kind: Seq<char>) -> Option<Seq<char>> {
    match e {
        AddError::InvalidName(_, _) => None,
        AddError::AlreadyExists(n) => Some(kind + " "@ + n@ + " already exists"@),
    }
}

impl AddError {
    /// The message of the error, for a function of the given kind ("tool" or
    /// "agent"); none for a name that breaks the naming rules.
    pub fn message(&self, kind: &str) -> (r: Option<String>)
        ensures
            match r {
                Some(t) => add_error_message(*self, kind@) == Some(t@),
                None => add_error_message(*self, kind@) is None,
            },
    {
        match self {
            AddError::InvalidName(_, _) => None,
            AddError::AlreadyExists(n) => {
                let mut r = kind.to_string();
                r.append(" ");
                r.append(n.as_str());
                r.append(" already exists");
                Some(r)
            },
        }
    }
}

/// The name passes the filter: any name without one, else one of its names.
pub open spec fn name_selected(name: Seq<char>, names: Option<Seq<Seq<char>>>) -> bool {
    match names {
        Some(ns) => ns.contains(name),
        None => true,
    }
}

/// The entries whose names pass the filter, in order.
pub open spec fn selected_entries(e: Seq<(String, Function)>, names: Option<Seq<Seq<char>>>) -> Seq<(String, Function)>
    decreases e.len(),
{
    if e.len() == 0 {
        e
    } else {
        let rest = selected_entries(e.drop_last(), names);
        if name_selected(e.last().0@, names) {
            rest.push(e.last())
        } else {
            rest
        }
    }
}

/// The texts of an optional list of names.
pub open spec fn opt_texts(names: Option<&Vec<String>>) -> Option<Seq<Seq<char>>> {
    match names {
        Some(v) => Some(texts_of(v@)),
        None => None,
    }
}

/// `r` is a copy of the function `f`.
pub open spec fn same_function(r: Function, f: Function) -> bool {
    r.definition == f.definition && r.supported_resource_tags@ == f.supported_resource_tags@
}

/// A copy of a list of texts.
fn copy_texts(v: &Vec<String>) -> (r: Vec<String>)
    ensures
        r@ == v@,
{
    let mut r: Vec<String> = Vec::new();
    let mut i: usize = 0;
    while i < v.len()
        invariant
            i <= v.len(),
            r@ == v@.take(i as int),
        decreases v.len() - i,
    {
        r.push(v[i].clone());
        assert(r@ =~= v@.take(i + 1));
        i = i + 1;
    }
    assert(v@.take(i as int) =~= v@);
    r
}

/// A copy of a function.
fn copy_function(f: &Function) -> (r: Function)
    ensures
        same_function(r, *f),
{
    Function { definition: f.definition.copy(), supported_resource_tags: copy_texts(&f.supported_resource_tags) }
}

/// Whether `name` passes the filter.
fn passes(name: &str, names: Option<&Vec<String>>) -> (b: bool)
    ensures
        b == name_selected(name@, opt_texts(names)),
{
    match names {
        Some(v) => listed(name, v),
        None => true,
    }
}

impl FunctionSet {
    /// No functions.
    pub fn new() -> (r: FunctionSet)
        ensures
            keys_increasing(r.set@),
            r@ == Map::<Seq<char>, Function>::empty(),
    {
        FunctionSet { set: Vec::new() }
    }

    /// The index of the function named `name`, if there is one.
    fn find(&self, name: &str) -> (r: Option<usize>)
        requires
            keys_increasing(self.set@),
        ensures
            r is Some <==> self@.dom().contains(name@),
            r matches Some(i) ==> i < self.set@.len() && self.set@[i as int].0@ == name@
                && self@[name@] == self.set@[i as int].1,
    {
        proof {
            crate::sorted::lemma_key_map(self.set@);
        }
        let mut i: usize = 0;
        while i < self.set.len()
            invariant
                i <= self.set.len(),
                keys_increasing(self.set@),
                forall|k: int| 0 <= k < i ==> self.set@[k].0@ != name@,
            decreases self.set.len() - i,
        {
            if str_eq(self.set[i].0.as_str(), name) {
                proof {
                    crate::sorted::lemma_key_map(self.set@);
                }
                return Some(i);
            }
            i = i + 1;
        }
        None
    }

    /// Whether a function is named exactly `name` (tools are looked up so;
    /// agents by `contains_agent`).
    pub fn contains(&self, name: &str) -> (b: bool)
        requires
            keys_increasing(self.set@),
        ensures
            b == self@.dom().contains(name@),
    {
        self.find(name).is_some()
    }

    /// The definition of the function named exactly `name`, if there is one.
    pub fn definition(&self, name: &str) -> (r: Option<FunctionDefinition>)
        requires
            keys_increasing(self.set@),
        ensures
            r is Some <==> self@.dom().contains(name@),
            r matches Some(d) ==> d == self@[name@].definition,
    {
        match self.find(name) {
            Some(i) => Some(self.set[i].1.definition.copy()),
            None => None,
        }
    }

    /// The definitions of the functions, in name order; only those named in
    /// `names` when it is given.
    pub fn definitions(&self, names: Option<&Vec<String>>) -> (r: Vec<FunctionDefinition>)
        ensures
            r@.len() == selected_entries(self.set@, opt_texts(names)).len(),
            forall|k: int| 0 <= k < r@.len() ==> r@[k] == selected_entries(self.set@, opt_texts(names))[k].1.definition,
    {
        let mut r: Vec<FunctionDefinition> = Vec::new();
        let mut i: usize = 0;
        while i < self.set.len()
            invariant
                i <= self.set.len(),
                r@.len() == selected_entries(self.set@.take(i as int), opt_texts(names)).len(),
                forall|k: int| 0 <= k < r@.len() ==> r@[k] == selected_entries(self.set@.take(i as int), opt_texts(names))[k].1.definition,
            decreases self.set.len() - i,
        {
            assert(self.set@.take(i + 1).drop_last() =~= self.set@.take(i as int));
            if passes(self.set[i].0.as_str(), names) {
                r.push(self.set[i].1.definition.copy());
            }
            i = i + 1;
        }
        assert(self.set@.take(i as int) =~= self.set@);
        r
    }

    /// The functions, in name order; only those named in `names` when it is given.
    pub fn functions(&self, names: Option<&Vec<String>>) -> (r: Vec<Function>)
        ensures
            r@.len() == selected_entries(self.set@, opt_texts(names)).len(),
            forall|k: int| 0 <= k < r@.len() ==> same_function(r@[k], selected_entries(self.set@, opt_texts(names))[k].1),
    {
        let mut r: Vec<Function> = Vec::new();
        let mut i: usize = 0;
        while i < self.set.len()
            invariant
                i <= self.set.len(),
                r@.len() == selected_entries(self.set@.take(i as int), opt_texts(names)).len(),
                forall|k: int| 0 <= k < r@.len() ==> same_function(r@[k], selected_entries(self.set@.take(i as int), opt_texts(names))[k].1),
            decreases self.set.len() - i,
        {
            assert(self.set@.take(i + 1).drop_last() =~= self.set@.take(i as int));
            if passes(self.set[i].0.as_str(), names) {
                r.push(copy_function(&self.set[i].1));
            }
            i = i + 1;
        }
        assert(self.set@.take(i as int) =~= self.set@);
        r
    }

    /// Adds a tool under the name it gives: the name must follow the naming
    /// rules and be new.
    pub fn add_tool(&mut self, name: String, function: Function) -> (r: Result<(), AddError>)
        requires
            keys_increasing(old(self).set@),
        ensures
            keys_increasing(final(self).set@),
            !valid_function_name(name@) ==> (r matches Err(AddError::InvalidName(n, _)) && n@ == name@),
            valid_function_name(name@) && old(self)@.dom().contains(name@) ==> (r matches Err(
                AddError::AlreadyExists(n),
            ) && n@ == name@),
            r is Ok <==> valid_function_name(name@) && !old(self)@.dom().contains(name@),
            r is Ok ==> final(self)@ == old(self)@.insert(name@, function),
            r is Err ==> final(self).set@ == old(self).set@,
    {
        match validate_function_name(name.as_str()) {
            Err(e) => {
                return Err(AddError::InvalidName(name, e));
            },
            Ok(()) => {},
        }
        if self.contains(name.as_str()) {
            return Err(AddError::AlreadyExists(name));
        }
        insert_sorted(&mut self.set, name, function);
        Ok(())
    }

    /// Adds an agent under the name it gives, in ASCII lowercase: the name
    /// must be new and follow the naming rules.
    pub fn add_agent(&mut self, name: &str, function: Function) -> (r: Result<(), AddError>)
        requires
            keys_increasing(old(self).set@),
        ensures
            keys_increasing(final(self).set@),
            old(self)@.dom().contains(ascii_lower(name@)) ==> (r matches Err(AddError::AlreadyExists(n))
                && n@ == ascii_lower(name@)),
            !old(self)@.dom().contains(ascii_lower(name@)) && !valid_function_name(ascii_lower(name@))
                ==> (r matches Err(AddError::InvalidName(n, _)) && n@ == ascii_lower(name@)),
            r is Ok <==> valid_function_name(ascii_lower(name@)) && !old(self)@.dom().contains(
                ascii_lower(name@),
            ),
            r is Ok ==> final(self)@ == old(self)@.insert(ascii_lower(name@), function),
            r is Err ==> final(self).set@ == old(self).set@,
    {
        let key = to_ascii_lowercase(name);
        if self.contains(key.as_str()) {
            return Err(AddError::AlreadyExists(key));
        }
        match validate_function_name(key.as_str()) {
            Err(e) => {
                return Err(AddError::InvalidName(key, e));
            },
            Ok(()) => {},
        }
        insert_sorted(&mut self.set, key, function);
        Ok(())
    }

    /// Takes out of `resources` those that the function named `name` accepts
    /// by its resource tags; `None`, and nothing taken, when there is no such
    /// function.
    pub fn select_resources(&self, name: &str, resources: &mut Vec<Resource>) -> (r: Option<Vec<Resource>>)
        requires
            keys_increasing(self.set@),
        ensures
            r is Some <==> self@.dom().contains(name@),
            r is None ==> final(resources)@ == old(resources)@,
            r matches Some(taken) ==> selected_by_tags(
                old(resources)@,
                final(resources)@,
                taken@,
                texts_of(self@[name@].supported_resource_tags@),
            ),
    {
        match self.find(name) {
            Some(i) => Some(select_resources(resources, &self.set[i].1.supported_resource_tags)),
            None => None,
        }
    }
}


/// The texts of an optional list of names, each in ASCII lowercase.
pub open spec fn opt_lower_texts(names: Option<&Vec<String>>) -> Option<Seq<Seq<char>>> {
    match names {
        Some(v) => Some(texts_of(v@).map_values(|t: Seq<char>| ascii_lower(t))),
        None => None,
    }
}

/// The names in ASCII lowercase.
fn lowered_names(v: &Vec<String>) -> (r: Vec<String>)
    ensures
        texts_of(r@) == texts_of(v@).map_values(|t: Seq<char>| ascii_lower(t)),
{
    let mut r: Vec<String> = Vec::new();
    for i in 0..v.len()
        invariant
            r@.len() == i,
            i <= v@.len(),
            forall|k: int| #![trigger r@[k]] 0 <= k < i ==> r@[k]@ == ascii_lower(v@[k]@),
    {
        r.push(to_ascii_lowercase(v[i].as_str()));
    }
    assert(texts_of(r@) =~= texts_of(v@).map_values(|t: Seq<char>| ascii_lower(t)));
    r
}

impl FunctionSet {
    /// Whether an agent is named `name`, in ASCII lowercase (agents are kept
    /// under their lowercase names).
    pub fn contains_agent(&self, name: &str) -> (b: bool)
        requires
            keys_increasing(self.set@),
        ensures
            b == self@.dom().contains(ascii_lower(name@)),
    {
        let key = to_ascii_lowercase(name);
        self.contains(key.as_str())
    }

    /// The agent named `name`, in ASCII lowercase, if there is one.
    pub fn get_agent(&self, name: &str) -> (r: Option<&Function>)
        requires
            keys_increasing(self.set@),
        ensures
            r is Some <==> self@.dom().contains(ascii_lower(name@)),
            r matches Some(f) ==> *f == self@[ascii_lower(name@)],
    {
        let key = to_ascii_lowercase(name);
        match self.find(key.as_str()) {
            Some(i) => Some(&self.set[i].1),
            None => None,
        }
    }

    /// The definition of the agent named `name`, in ASCII lowercase, if there
    /// is one.
    pub fn agent_definition(&self, name: &str) -> (r: Option<FunctionDefinition>)
        requires
            keys_increasing(self.set@),
        ensures
            r is Some <==> self@.dom().contains(ascii_lower(name@)),
            r matches Some(d) ==> d == self@[ascii_lower(name@)].definition,
    {
        let key = to_ascii_lowercase(name);
        self.definition(key.as_str())
    }

    /// The definitions of the agents, in name order; only those named in
    /// `names` (in ASCII lowercase) when it is given.
    pub fn agent_definitions(&self, names: Option<&Vec<String>>) -> (r: Vec<FunctionDefinition>)
        ensures
            r@.len() == selected_entries(self.set@, opt_lower_texts(names)).len(),
            forall|k: int| 0 <= k < r@.len() ==> r@[k] == selected_entries(self.set@, opt_lower_texts(names))[k].1.definition,
    {
        match names {
            Some(v) => {
                let lowered = lowered_names(v);
                self.definitions(Some(&lowered))
            },
            None => self.definitions(None),
        }
    }
}

/// After a function is added under a name, the set holds it under that name
/// (so adding the name again is refused, and its definition and resource tags
/// are the function's), and every other name is as it was.
pub proof fn added_function_found(before: Map<Seq<char>, Function>, name: Seq<char>, f: Function, other: Seq<char>)
    ensures
        before.insert(name, f).dom().contains(name),
        before.insert(name, f)[name] == f,
        other != name ==> before.insert(name, f).dom().contains(other) == before.dom().contains(other),
        other != name && before.dom().contains(other) ==> before.insert(name, f)[other] == before[other],
{
}

} // verus!
