//! Verified core logic of the Anda agent framework: paths, registries of
//! functions, resources, attention decisions, thread permissions and the
//! conversions of model provider responses.
use vstd::prelude::*;

pub mod text;
pub mod path;
pub mod principal;
pub mod nexus;
pub mod registry;
pub mod paging;
pub mod access;
pub mod thread_info;
pub mod model;
pub mod attention;
pub mod plugin_attention;
pub mod management;
pub mod providers;
pub mod chat;
pub mod character;
pub mod plugin_character;
pub mod apps;
pub mod segmenter;
pub mod cache;
pub mod agent;
pub mod search;
pub mod store;
pub mod function;
pub mod resource;
pub mod engines;
pub mod content;
pub mod json;
pub mod sorted;
pub mod function_set;
pub mod assistant;
pub mod engine;
pub mod completion;
pub mod character_agent;
pub mod schema;

verus! {

} // verus!
