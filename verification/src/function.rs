//! The functions that agents and tools offer to models: their definitions
//! and the rules for their names.
use vstd::prelude::*;
use crate::text::chars_of;

verus! {

/// The definition of a function that a model may call.
#[derive(Debug)]
pub struct FunctionDefinition {
    pub name: String,
    /// What the function does.
    pub description: String,
    /// The JSON schema of the parameters, as JSON text.
    pub parameters: String,
    /// Whether the model must follow the schema strictly.
    pub strict: Option<bool>,
}

/// A function with the resource tags it accepts.
#[derive(Debug)]
pub struct Function {
    pub definition: FunctionDefinition,
    pub supported_resource_tags: Vec<String>,
}

/// Why a function name is invalid.
#[derive(Debug, PartialEq, Eq, Structural)]
pub enum FunctionNameError {
    /// The name is empty.
    Empty,
    /// The name is longer than 64 characters.
    TooLong,
    /// The name does not start with a lowercase letter.
    InvalidStart,
    /// The name holds a character other than a-z, 0-9 and _.
    InvalidChar(char),
}

/// A character allowed in a function name.
pub open spec fn name_char(c: char) -> bool {
    ('a' <= c && c <= 'z') || ('0' <= c && c <= '9') || c == '_'
}

/// A valid function name: not empty, at most 64 characters, starting with a
/// lowercase letter, and made of lowercase letters, digits and underscores.
pub open spec fn valid_function_name(name: Seq<char>) -> bool {
    &&& name.len() > 0
    &&& name.len() <= 64
    &&& 'a' <= name[0] && name[0] <= 'z'
    &&& forall|i: int| 0 <= i < name.len() ==> name_char(#[trigger] name[i])
}

/// Checks a function name against the naming rules.
pub fn validate_function_name(name: &str) -> (r: Result<(), FunctionNameError>)
    ensures
        r is Ok <==> valid_function_name(name@),
        name@.len() == 0 ==> r == Err::<(), FunctionNameError>(FunctionNameError::Empty),
        name@.len() > 64 ==> r == Err::<(), FunctionNameError>(FunctionNameError::TooLong),
        0 < name@.len() <= 64 && !('a' <= name@[0] && name@[0] <= 'z') ==> r == Err::<
            (),
            FunctionNameError,
        >(FunctionNameError::InvalidStart),
        r matches Err(FunctionNameError::InvalidChar(c)) ==> name@.contains(c) && !name_char(c),
{
    let v = chars_of(name);
    if v.len() == 0 {
        return Err(FunctionNameError::Empty);
    }
    if v.len() > 64 {
        return Err(FunctionNameError::TooLong);
    }
    if !('a' <= v[0] && v[0] <= 'z') {
        return Err(FunctionNameError::InvalidStart);
    }
    let mut i: usize = 0;
    while i < v.len()
        invariant
            v@ == name@,
            v.len() <= 64,
            v.len() > 0 && 'a' <= v@[0] && v@[0] <= 'z',
            i <= v.len(),
            forall|k: int| 0 <= k < i ==> name_char(#[trigger] v@[k]),
        decreases v.len() - i,
    {
        let c = v[i];
        if !(('a' <= c && c <= 'z') || ('0' <= c && c <= '9') || c == '_') {
            assert(name@[i as int] == c);
            return Err(FunctionNameError::InvalidChar(c));
        }
        i = i + 1;
    }
    Ok(())
}

impl FunctionDefinition {
    /// The same definition, its name prefixed with `prefix`.
    pub fn name_with_prefix(self, prefix: &str) -> (d: FunctionDefinition)
        ensures
            d.name@ == prefix@ + self.name@,
            d.description == self.description,
            d.parameters == self.parameters,
            d.strict == self.strict,
    {
        let mut d = self;
        let mut name = prefix.to_owned();
        name.append(d.name.as_str());
        d.name = name;
        d
    }

    /// A copy of this definition.
    pub fn copy(&self) -> (d: FunctionDefinition)
        ensures
            d.name == self.name,
            d.description == self.description,
            d.parameters == self.parameters,
            d.strict == self.strict,
    {
        FunctionDefinition {
            name: self.name.clone(),
            description: self.description.clone(),
            parameters: self.parameters.clone(),
            strict: self.strict,
        }
    }
}

} // verus!
