//! JSON values as plain data, and the clean-up of a conversation's messages
//! before they are stored: the parts of a message's content lose their
//! verbose `thoughtSignature`.
use vstd::prelude::*;
use crate::text::str_eq;

verus! {

/// A JSON value. A number keeps its text; an object keeps its entries in
/// order, each key once.
pub enum JsonValue {
    Null,
    Bool(bool),
    Number(String),
    Str(String),
    Array(Vec<JsonValue>),
    Object(Vec<(String, JsonValue)>),
}

/// The entries of `entries` whose key is not `key`, in order.
pub open spec fn without_key(entries: Seq<(String, JsonValue)>, key: Seq<char>) -> Seq<(String, JsonValue)>
    decreases entries.len(),
{
    if entries.len() == 0 {
        entries
    } else {
        let rest = without_key(entries.drop_last(), key);
        if entries.last().0@ == key {
            rest
        } else {
            rest.push(entries.last())
        }
    }
}

/// The index of the first entry of `entries` with key `key`, if any.
pub open spec fn key_index(entries: Seq<(String, JsonValue)>, key: Seq<char>) -> Option<int>
    decreases entries.len(),
{
    if entries.len() == 0 {
        None
    } else {
        match key_index(entries.drop_last(), key) {
            Some(i) => Some(i),
            None => if entries.last().0@ == key { Some(entries.len() - 1) } else { None },
        }
    }
}

/// `r` is the part `p` without its `thoughtSignature` entry; a part that is
/// not an object is kept as it is.
pub open spec fn part_cleared(p: JsonValue, r: JsonValue) -> bool {
    match p {
        JsonValue::Object(entries) => r matches JsonValue::Object(rs)
            && rs@ == without_key(entries@, "thoughtSignature"@),
        _ => r == p,
    }
}

/// `rparts` are the parts `parts`, each cleared.
pub open spec fn parts_cleared(parts: Vec<JsonValue>, rparts: Vec<JsonValue>) -> bool {
    &&& rparts@.len() == parts@.len()
    &&& forall|q: int| 0 <= q < parts@.len() ==> part_cleared(parts@[q], rparts@[q])
}

/// `r` is a message's content `v` with its parts cleared where it is an array.
pub open spec fn content_cleared(v: JsonValue, r: JsonValue) -> bool {
    match v {
        JsonValue::Array(parts) => match r {
            JsonValue::Array(rparts) => parts_cleared(parts, rparts),
            _ => false,
        },
        _ => r == v,
    }
}

/// `r` is the message `m` whose content (its first entry with key "content")
/// is cleared; every other entry, and a message that is not an object or has
/// no content, is kept as it is.
pub open spec fn message_cleared(m: JsonValue, r: JsonValue) -> bool {
    match m {
        JsonValue::Object(entries) => match key_index(entries@, "content"@) {
            Some(j) => match r {
                JsonValue::Object(rs) => {
                    &&& rs@.len() == entries@.len()
                    &&& forall|k: int| 0 <= k < rs@.len() && k != j ==> rs@[k] == entries@[k]
                    &&& rs@[j].0 == entries@[j].0
                    &&& content_cleared(entries@[j].1, rs@[j].1)
                },
                _ => false,
            },
            None => r == m,
        },
        _ => r == m,
    }
}

proof fn lemma_key_index_bounds(entries: Seq<(String, JsonValue)>, key: Seq<char>)
    ensures
        key_index(entries, key) matches Some(i) ==> 0 <= i < entries.len() && entries[i].0@ == key,
    decreases entries.len(),
{
    if entries.len() > 0 {
        lemma_key_index_bounds(entries.drop_last(), key);
    }
}

/// The first index of an entry with key `key`.
fn find_key(entries: &Vec<(String, JsonValue)>, key: &str) -> (r: Option<usize>)
    ensures
        r is None <==> key_index(entries@, key@) is None,
        r matches Some(i) ==> key_index(entries@, key@) == Some(i as int),
{
    let mut i: usize = 0;
    while i < entries.len()
        invariant
            i <= entries.len(),
            key_index(entries@.take(i as int), key@) is None,
        decreases entries.len() - i,
    {
        assert(entries@.take(i as int + 1).drop_last() =~= entries@.take(i as int));
        if str_eq(entries[i].0.as_str(), key) {
            proof {
                lemma_key_prefix(entries@, key@, i as int);
            }
            return Some(i);
        }
        i = i + 1;
    }
    assert(entries@.take(i as int) =~= entries@);
    None
}

/// Where the first `i + 1` entries have the first key at `i`, so do all.
proof fn lemma_key_prefix(entries: Seq<(String, JsonValue)>, key: Seq<char>, i: int)
    requires
        0 <= i < entries.len(),
        key_index(entries.take(i + 1), key) == Some(i),
    ensures
        key_index(entries, key) == Some(i),
    decreases entries.len(),
{
    if entries.len() > i + 1 {
        assert(entries.drop_last().take(i + 1) =~= entries.take(i + 1));
        lemma_key_prefix(entries.drop_last(), key, i);
    } else {
        assert(entries.take(i + 1) =~= entries);
    }
}

/// The part `part` without its `thoughtSignature` entry.
fn clear_part(part: JsonValue) -> (r: JsonValue)
    ensures
        part_cleared(part, r),
{
    match part {
        JsonValue::Object(entries) => {
            let ghost old_entries = entries@;
            let mut kept: Vec<(String, JsonValue)> = Vec::new();
            for e in it: entries.into_iter()
                invariant
                    it.seq() == old_entries,
                    kept@ == without_key(old_entries.take(it.index() as int), "thoughtSignature"@),
            {
                proof {
                    assert(old_entries.take(it.index() as int + 1).drop_last()
                        =~= old_entries.take(it.index() as int));
                }
                if !str_eq(e.0.as_str(), "thoughtSignature") {
                    kept.push(e);
                }
            }
            proof {
                assert(old_entries.take(old_entries.len() as int) =~= old_entries);
            }
            JsonValue::Object(kept)
        },
        other => other,
    }
}

/// The parts of an array, each cleared.
fn clear_parts(parts: Vec<JsonValue>) -> (r: Vec<JsonValue>)
    ensures
        parts_cleared(parts, r),
{
    let ghost old_parts = parts@;
    let mut out: Vec<JsonValue> = Vec::new();
    for p in it: parts.into_iter()
        invariant
            it.seq() == old_parts,
            out@.len() == it.index(),
            forall|q: int| 0 <= q < it.index() ==> part_cleared(old_parts[q], out@[q]),
    {
        let c = clear_part(p);
        out.push(c);
    }
    out
}

/// The message `msg` with the parts of its content cleared.
fn clear_message(msg: JsonValue) -> (r: JsonValue)
    ensures
        message_cleared(msg, r),
{
    match msg {
        JsonValue::Object(entries) => {
            let found = find_key(&entries, "content");
            proof {
                lemma_key_index_bounds(entries@, "content"@);
            }
            match found {
                None => JsonValue::Object(entries),
                Some(j) => {
                    let ghost old_entries = entries@;
                    let mut out: Vec<(String, JsonValue)> = Vec::new();
                    for e in it: entries.into_iter()
                        invariant
                            it.seq() == old_entries,
                            0 <= j < old_entries.len(),
                            out@.len() == it.index(),
                            forall|k: int| 0 <= k < it.index() && k != j ==> out@[k] == old_entries[k],
                            j < it.index() ==> out@[j as int].0 == old_entries[j as int].0
                                && content_cleared(old_entries[j as int].1, out@[j as int].1),
                    {
                        if out.len() == j {
                            let (k, v) = e;
                            match v {
                                JsonValue::Array(parts) => {
                                    let cleared = clear_parts(parts);
                                    out.push((k, JsonValue::Array(cleared)));
                                },
                                other => {
                                    out.push((k, other));
                                },
                            }
                        } else {
                            out.push(e);
                        }
                    }
                    JsonValue::Object(out)
                },
            }
        },
        other => other,
    }
}

/// The messages of a conversation with the `thoughtSignature` of every part
/// of their content removed (a model's thought signatures are verbose and
/// not worth keeping).
pub fn clear_messages(messages: Vec<JsonValue>) -> (r: Vec<JsonValue>)
    ensures
        r@.len() == messages@.len(),
        forall|i: int| 0 <= i < messages@.len() ==> message_cleared(messages@[i], r@[i]),
{
    let ghost old_messages = messages@;
    let mut out: Vec<JsonValue> = Vec::new();
    for m in it: messages.into_iter()
        invariant
            it.seq() == old_messages,
            out@.len() == it.index(),
            forall|i: int| 0 <= i < it.index() ==> message_cleared(old_messages[i], out@[i]),
    {
        let c = clear_message(m);
        out.push(c);
    }
    out
}

} // verus!
