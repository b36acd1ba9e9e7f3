//! The commands of the engine's command-line client.
use vstd::prelude::*;

verus! {

/// The commands of the engine client.
#[derive(Debug)]
pub enum Commands {
    /// Generates random bytes of a length, as "hex" or "base64".
    RandBytes { len: usize, format: String },
    /// Runs an agent on an endpoint.
    AgentRun { endpoint: String, id_secret: String, prompt: String, name: Option<String> },
    /// Calls a tool on an endpoint.
    ToolCall { endpoint: String, id_secret: String, name: String, args: String },
}

} // verus!
