//! The configuration of the nexus.
use vstd::prelude::*;
use crate::text::{ascii_lower, str_eq, to_ascii_lowercase};

verus! {

/// The nexus's configuration.
#[derive(Debug)]
pub struct Conf {
    pub id_secret: String,
    pub root_secret: String,
    pub object_store: String,
    /// Settings of the object store, keys in increasing order.
    pub object_store_config: Option<Vec<(String, String)>>,
}

/// The kind of object store the nexus keeps its data in.
#[derive(Debug)]
pub enum StoreKind {
    /// In memory.
    InMemory,
    /// Amazon S3, with the settings given, their names in ASCII lowercase.
    S3(Vec<(String, String)>),
    /// The local file system, under the given directory.
    Local(String),
}

/// The settings with their names in ASCII lowercase, in order.
pub open spec fn lowered_settings(cfg: Seq<(String, String)>, r: Seq<(String, String)>) -> bool {
    &&& r.len() == cfg.len()
    &&& forall|i: int| #![trigger r[i]] 0 <= i < r.len() ==> r[i].0@ == ascii_lower(cfg[i].0@) && r[i].1 == cfg[i].1
}

/// The settings given, none when there are none.
pub open spec fn settings_of(cfg: Option<Vec<(String, String)>>) -> Seq<(String, String)> {
    match cfg {
        Some(c) => c@,
        None => Seq::empty(),
    }
}

/// The store the settings ask for: in memory for "", "memory" or
/// "in_memory"; S3 for "s3", with its settings (none when there are none);
/// else the local file system under the given directory.
pub fn store_kind(ty: &str, cfg: Option<Vec<(String, String)>>) -> (r: StoreKind)
    ensures
        ty@ == ""@ || ty@ == "memory"@ || ty@ == "in_memory"@ ==> r is InMemory,
        ty@ == "s3"@ ==> (r matches StoreKind::S3(settings) && lowered_settings(
            settings_of(cfg),
            settings@,
        )),
        !(ty@ == ""@ || ty@ == "memory"@ || ty@ == "in_memory"@ || ty@ == "s3"@) ==> (r matches StoreKind::Local(dir) && dir@ == ty@),
{
    proof {
        reveal_strlit("");
        reveal_strlit("memory");
        reveal_strlit("in_memory");
        reveal_strlit("s3");
        assert(""@.len() == 0 && "memory"@.len() == 6 && "in_memory"@.len() == 9 && "s3"@.len() == 2);
    }
    if str_eq(ty, "") || str_eq(ty, "memory") || str_eq(ty, "in_memory") {
        StoreKind::InMemory
    } else if str_eq(ty, "s3") {
        let ghost asked = settings_of(cfg);
        let given = match cfg {
            Some(c) => c,
            None => Vec::new(),
        };
        assert(given@ == asked);
        let mut settings: Vec<(String, String)> = Vec::new();
        for i in 0..given.len()
            invariant
                settings@.len() == i,
                i <= given@.len(),
                forall|k: int| #![trigger settings@[k]] 0 <= k < i ==> settings@[k].0@ == ascii_lower(given@[k].0@)
                    && settings@[k].1 == given@[k].1,
        {
            let key = to_ascii_lowercase(given[i].0.as_str());
            let value = given[i].1.clone();
            settings.push((key, value));
        }
        assert(lowered_settings(asked, settings@));
        StoreKind::S3(settings)
    } else {
        StoreKind::Local(ty.to_string())
    }
}

} // verus!
