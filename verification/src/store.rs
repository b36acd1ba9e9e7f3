//! Stand-ins for the vector search of a store.
use vstd::prelude::*;

verus! {

/// The largest object a store keeps: 2 MiB.
pub const MAX_STORE_OBJECT_SIZE: usize = 1024 * 1024 * 2;

/// Vector search that is not implemented: every search fails.
#[derive(Debug, Clone, Copy)]
pub struct NotImplemented;

/// Vector search for tests: every search finds nothing.
#[derive(Debug, Clone, Copy)]
pub struct MockImplemented;

impl NotImplemented {
    /// A search: fails with "not implemented".
    pub fn top_n(&self, namespace: &str, query: &str, n: usize) -> (r: Result<Vec<String>, String>)
        ensures
            r matches Err(e) && e@ == "not implemented"@,
    {
        Err(String::from_str("not implemented"))
    }

    /// A search for ids: fails with "not implemented".
    pub fn top_n_ids(&self, namespace: &str, query: &str, n: usize) -> (r: Result<Vec<String>, String>)
        ensures
            r matches Err(e) && e@ == "not implemented"@,
    {
        Err(String::from_str("not implemented"))
    }
}

impl MockImplemented {
    /// A search: finds nothing.
    pub fn top_n(&self, namespace: &str, query: &str, n: usize) -> (r: Result<Vec<String>, String>)
        ensures
            r matches Ok(v) && v@.len() == 0,
    {
        Ok(Vec::new())
    }

    /// A search for ids: finds nothing.
    pub fn top_n_ids(&self, namespace: &str, query: &str, n: usize) -> (r: Result<Vec<String>, String>)
        ensures
            r matches Ok(v) && v@.len() == 0,
    {
        Ok(Vec::new())
    }
}

} // verus!
