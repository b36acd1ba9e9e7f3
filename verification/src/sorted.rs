//! Entries kept in strictly increasing order of their names: a map from
//! names to values that lists its entries in name order.
use vstd::prelude::*;
use crate::text::{seq_less, str_compare, str_eq, lemma_seq_less_total, lemma_seq_less_trans};

verus! {

/// The names of the entries increase strictly.
pub open spec fn keys_increasing<V>(e: Seq<(String, V)>) -> bool {
    forall|i: int, j: int| 0 <= i < j < e.len() ==> seq_less(e[i].0@, e[j].0@)
}

/// The entries as a map from name to value.
pub open spec fn key_map<V>(e: Seq<(String, V)>) -> Map<Seq<char>, V>
    decreases e.len(),
{
    if e.len() == 0 {
        Map::empty()
    } else {
        key_map(e.drop_last()).insert(e.last().0@, e.last().1)
    }
}

/// With names strictly increasing, the map holds each name with its value,
/// and nothing else.
pub proof fn lemma_key_map<V>(e: Seq<(String, V)>)
    requires
        keys_increasing(e),
    ensures
        forall|k: Seq<char>| #[trigger] key_map(e).dom().contains(k) <==> exists|i: int|
            0 <= i < e.len() && e[i].0@ == k,
        forall|i: int| 0 <= i < e.len() ==> key_map(e)[#[trigger] e[i].0@] == e[i].1,
    decreases e.len(),
{
    if e.len() > 0 {
        let p = e.drop_last();
        assert(keys_increasing(p));
        lemma_key_map::<V>(p);
        assert forall|i: int| 0 <= i < e.len() - 1 implies e[i].0@ != e.last().0@ by {
            lemma_seq_less_total(e[i].0@, e.last().0@);
        }
        assert forall|k: Seq<char>| #[trigger] key_map(e).dom().contains(k) <==> exists|i: int|
            0 <= i < e.len() && e[i].0@ == k by {
            if key_map(e).dom().contains(k) {
                if k == e.last().0@ {
                    assert(e[e.len() - 1].0@ == k);
                } else {
                    assert(key_map(p).dom().contains(k));
                    let i = choose|i: int| 0 <= i < p.len() && p[i].0@ == k;
                    assert(p[i] == e[i]);
                    assert(e[i].0@ == k);
                }
            }
            if exists|i: int| 0 <= i < e.len() && e[i].0@ == k {
                let i = choose|i: int| 0 <= i < e.len() && e[i].0@ == k;
                if i < e.len() - 1 {
                    assert(p[i] == e[i]);
                    assert(p[i].0@ == k);
                    assert(key_map(p).dom().contains(k));
                }
            }
        }
        assert forall|i: int| 0 <= i < e.len() implies key_map(e)[#[trigger] e[i].0@] == e[i].1 by {
            if i < e.len() - 1 {
                assert(p[i] == e[i]);
            }
        }
    }
}

/// Two strictly increasing sequences of engines with the same names and
/// engines are the same map.
pub proof fn lemma_key_map_ext<V>(a: Seq<(String, V)>, m: Map<Seq<char>, V>)
    requires
        keys_increasing(a),
        forall|k: Seq<char>| #[trigger] m.dom().contains(k) <==> exists|i: int|
            0 <= i < a.len() && a[i].0@ == k,
        forall|i: int| 0 <= i < a.len() ==> m[#[trigger] a[i].0@] == a[i].1,
    ensures
        key_map(a) == m,
{
    lemma_key_map(a);
    assert forall|k: Seq<char>| #[trigger] m.dom().contains(k) implies key_map(a)[k] == m[k] by {
        let i = choose|i: int| 0 <= i < a.len() && a[i].0@ == k;
        assert(m[a[i].0@] == a[i].1);
    }
    assert(key_map(a) =~= m);
}


/// Puts `value` under `name` into the entries, whose names increase
/// strictly, replacing the entry of that name.
pub fn insert_sorted<V>(entries: &mut Vec<(String, V)>, name: String, value: V)
    requires
        keys_increasing(old(entries)@),
    ensures
        keys_increasing(final(entries)@),
        key_map(final(entries)@) == key_map(old(entries)@).insert(name@, value),
{
    let ghost o = entries@;
    let mut i: usize = 0;
    while i < entries.len() && str_compare(entries[i].0.as_str(), name.as_str()) < 0
        invariant
            i <= entries.len(),
            entries@ == o,
            forall|k: int| 0 <= k < i ==> seq_less(o[k].0@, name@),
        decreases entries.len() - i,
    {
        i = i + 1;
    }
    proof {
        lemma_key_map(o);
    }
    let ghost nv = name@;
    let ghost entry = (name, value);
    if i < entries.len() && str_eq(entries[i].0.as_str(), name.as_str()) {
        entries.set(i, (name, value));
        proof {
            let f = entries@;
            assert(f == o.update(i as int, entry));
            assert forall|a: int, b: int| 0 <= a < b < f.len() implies seq_less(f[a].0@, f[b].0@) by {
                assert(f[a].0@ == o[a].0@ && f[b].0@ == o[b].0@);
            }
            assert forall|k: Seq<char>| #[trigger] key_map(o).insert(nv, entry.1).dom().contains(k)
                <==> exists|j: int| 0 <= j < f.len() && f[j].0@ == k by {
                if key_map(o).insert(nv, entry.1).dom().contains(k) && k != nv {
                    let j = choose|j: int| 0 <= j < o.len() && o[j].0@ == k;
                    assert(f[j].0@ == k);
                }
                if k == nv {
                    assert(f[i as int].0@ == k);
                }
                if exists|j: int| 0 <= j < f.len() && f[j].0@ == k {
                    let j = choose|j: int| 0 <= j < f.len() && f[j].0@ == k;
                    if j != i {
                        assert(o[j].0@ == k);
                    }
                }
            }
            assert forall|j: int| 0 <= j < f.len() implies key_map(o).insert(nv, entry.1)[#[trigger] f[j].0@] == f[j].1 by {
                if j != i {
                    assert(o[j].0@ != nv) by {
                        if j < i {
                            lemma_seq_less_total(o[j].0@, o[i as int].0@);
                        } else {
                            lemma_seq_less_total(o[i as int].0@, o[j].0@);
                        }
                    }
                    assert(key_map(o)[o[j].0@] == o[j].1);
                }
            }
            lemma_key_map_ext(f, key_map(o).insert(nv, entry.1));
        }
    } else {
        proof {
            if i < o.len() {
                lemma_seq_less_total(o[i as int].0@, nv);
            }
        }
        entries.insert(i, (name, value));
        proof {
            let f = entries@;
            assert(f == o.insert(i as int, entry));
            assert forall|a: int, b: int| 0 <= a < b < f.len() implies seq_less(f[a].0@, f[b].0@) by {
                if b < i {
                } else if b == i {
                } else if a < i {
                    lemma_seq_less_trans(o[a].0@, nv, o[i as int].0@);
                    if b - 1 > i {
                        lemma_seq_less_trans(o[a].0@, o[i as int].0@, o[b - 1].0@);
                    }
                } else if a == i {
                    if b - 1 > i {
                        lemma_seq_less_trans(nv, o[i as int].0@, o[b - 1].0@);
                    }
                } else {
                    assert(f[a] == o[a - 1] && f[b] == o[b - 1]);
                }
            }
            assert forall|j: int| 0 <= j < o.len() implies o[j].0@ != nv by {
                if j < i {
                    lemma_seq_less_total(o[j].0@, nv);
                } else {
                    lemma_seq_less_total(nv, o[j].0@);
                    if j > i {
                        lemma_seq_less_trans(nv, o[i as int].0@, o[j].0@);
                    }
                }
            }
            assert forall|k: Seq<char>| #[trigger] key_map(o).insert(nv, entry.1).dom().contains(k)
                <==> exists|j: int| 0 <= j < f.len() && f[j].0@ == k by {
                if key_map(o).insert(nv, entry.1).dom().contains(k) && k != nv {
                    let j = choose|j: int| 0 <= j < o.len() && o[j].0@ == k;
                    if j < i {
                        assert(f[j].0@ == k);
                    } else {
                        assert(f[j + 1].0@ == k);
                    }
                }
                if k == nv {
                    assert(f[i as int].0@ == k);
                }
                if exists|j: int| 0 <= j < f.len() && f[j].0@ == k {
                    let j = choose|j: int| 0 <= j < f.len() && f[j].0@ == k;
                    if j < i {
                        assert(o[j].0@ == k);
                    } else if j > i {
                        assert(o[j - 1].0@ == k);
                    }
                }
            }
            assert forall|j: int| 0 <= j < f.len() implies key_map(o).insert(nv, entry.1)[#[trigger] f[j].0@] == f[j].1 by {
                if j < i {
                    assert(key_map(o)[o[j].0@] == o[j].1);
                } else if j > i {
                    assert(key_map(o)[o[j - 1].0@] == o[j - 1].1);
                }
            }
            lemma_key_map_ext(f, key_map(o).insert(nv, entry.1));
        }
    }
}

} // verus!
