//! The configurations and command lines of the programs built on the engine:
//! the bot, the nexus, and the command-line clients.
use vstd::prelude::*;

pub mod bot_config;
pub mod nexus_config;
pub mod bot_cli;
pub mod cli;
pub mod engine_cli;
pub mod twitter;

verus! {

} // verus!
