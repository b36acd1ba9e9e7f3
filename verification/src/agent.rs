//! The arguments of an agent, and the names of the functions that agents and
//! tools register.
use vstd::prelude::*;

verus! {

/// The arguments of an agent.
#[derive(Debug)]
pub struct AgentArgs {
    /// The (optimized) prompt or message.
    pub prompt: String,
}

} // verus!
