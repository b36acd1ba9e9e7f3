//! Resources attached to messages and requests, and the choice of the
//! resources that an agent or a tool accepts.
use vstd::prelude::*;
use vstd::multiset::Multiset;
use crate::text::{str_eq, texts_of, listed};

verus! {

/// A resource: a file, a link or data, with tags that tell its kind.
#[derive(Debug)]
pub struct Resource {
    /// The resource's id in its collection (0 when it has none yet).
    pub _id: u64,
    /// Tags that tell the kind of the resource: "text", "image", "audio", "video", ...
    pub tags: Vec<String>,
    pub name: String,
    pub description: Option<String>,
    pub uri: Option<String>,
    /// The MIME type.
    pub mime_type: Option<String>,
    /// The data.
    pub blob: Option<Vec<u8>>,
    /// The size in bytes.
    pub size: Option<usize>,
    /// The SHA3-256 hash.
    pub hash: Option<Vec<u8>>,
    /// Metadata, each value as JSON text, keys in increasing order.
    pub metadata: Option<Vec<(String, String)>>,
}

/// The resource has one of the tags.
pub open spec fn has_any_tag(r: Resource, tags: Seq<Seq<char>>) -> bool {
    exists|i: int| 0 <= i < r.tags@.len() && tags.contains(#[trigger] r.tags@[i]@)
}

/// Whether the resource has one of the tags.
fn resource_has_tag(r: &Resource, tags: &Vec<String>) -> (b: bool)
    ensures
        b == has_any_tag(*r, texts_of(tags@)),
{
    let mut i: usize = 0;
    while i < r.tags.len()
        invariant
            i <= r.tags.len(),
            forall|k: int| 0 <= k < i ==> !texts_of(tags@).contains(#[trigger] r.tags@[k]@),
        decreases r.tags.len() - i,
    {
        if listed(r.tags[i].as_str(), tags) {
            return true;
        }
        i = i + 1;
    }
    false
}

/// `taken` are the resources of `before` that an agent or a tool with the
/// tags accepts and `after` the rest: none when there are no tags, all when
/// the first tag is "*", otherwise those with one of the tags; both in order.
pub open spec fn selected_by_tags(before: Seq<Resource>, after: Seq<Resource>, taken: Seq<Resource>, tags: Seq<Seq<char>>) -> bool {
    if tags.len() == 0 {
        taken.len() == 0 && after == before
    } else if tags[0] == "*"@ {
        taken == before && after.len() == 0
    } else {
        taken == before.filter(|x: Resource| has_any_tag(x, tags))
            && after == before.filter(|x: Resource| !has_any_tag(x, tags))
    }
}

/// Takes out of `resources` those that an agent or a tool with the given
/// tags accepts, in order: none when there are no tags, all when the first
/// tag is "*", otherwise those with one of the tags; the rest stay, in order.
pub fn select_resources(resources: &mut Vec<Resource>, tags: &Vec<String>) -> (r: Vec<Resource>)
    ensures
        tags@.len() == 0 ==> r@.len() == 0 && final(resources)@ == old(resources)@,
        tags@.len() > 0 && tags@[0]@ == "*"@ ==> r@ == old(resources)@ && final(resources)@.len()
            == 0,
        tags@.len() > 0 && tags@[0]@ != "*"@ ==> r@ == old(resources)@.filter(
            |x: Resource| has_any_tag(x, texts_of(tags@)),
        ) && final(resources)@ == old(resources)@.filter(
            |x: Resource| !has_any_tag(x, texts_of(tags@)),
        ),
        selected_by_tags(old(resources)@, final(resources)@, r@, texts_of(tags@)),
{
    if tags.len() == 0 {
        return Vec::new();
    }
    if str_eq(tags[0].as_str(), "*") {
        let mut all: Vec<Resource> = Vec::new();
        all.append(resources);
        return all;
    }
    let ghost old_r = resources@;
    let ghost p = |x: Resource| has_any_tag(x, texts_of(tags@));
    let ghost q = |x: Resource| !has_any_tag(x, texts_of(tags@));
    let mut res: Vec<Resource> = Vec::new();
    let mut i: usize = 0;
    let ghost mut k: int = 0;
    assert(old_r.take(0) =~= Seq::<Resource>::empty());
    assert(resources@ =~= old_r.take(0).filter(q) + old_r.skip(0));
    while i < resources.len()
        invariant
            0 <= k <= old_r.len(),
            p == (|x: Resource| has_any_tag(x, texts_of(tags@))),
            q == (|x: Resource| !has_any_tag(x, texts_of(tags@))),
            i == old_r.take(k).filter(q).len(),
            resources@ == old_r.take(k).filter(q) + old_r.skip(k),
            res@ == old_r.take(k).filter(p),
        decreases resources.len() - i,
    {
        proof {
            assert(resources@[i as int] == old_r[k]);
            assert(old_r.take(k + 1) =~= old_r.take(k).push(old_r[k]));
            old_r.take(k).lemma_filter_push(old_r[k], p);
            old_r.take(k).lemma_filter_push(old_r[k], q);
        }
        if resource_has_tag(&resources[i], tags) {
            let x = resources.remove(i);
            res.push(x);
            proof {
                assert(resources@ =~= old_r.take(k + 1).filter(q) + old_r.skip(k + 1));
            }
        } else {
            i = i + 1;
            proof {
                assert(resources@ =~= old_r.take(k + 1).filter(q) + old_r.skip(k + 1));
            }
        }
        proof {
            k = k + 1;
        }
    }
    proof {
        assert(k == old_r.len()) by {
            if k < old_r.len() {
                assert(resources@.len() > i);
            }
        }
        assert(old_r.take(k) =~= old_r);
        assert(resources@ =~= old_r.filter(q));
    }
    res
}

/// What passes `p` and what passes `q`, its opposite, make up the sequence.
proof fn lemma_filter_partition(s: Seq<Resource>, p: spec_fn(Resource) -> bool, q: spec_fn(Resource) -> bool)
    requires
        forall|x: Resource| #[trigger] q(x) == !p(x),
    ensures
        s.filter(p).to_multiset().add(s.filter(q).to_multiset()) =~= s.to_multiset(),
    decreases s.len(),
{
    broadcast use vstd::multiset::group_multiset_axioms;
    if s.len() == 0 {
        assert(s.filter(p) =~= s) by {
            reveal(Seq::filter);
        }
        assert(s.filter(q) =~= s) by {
            reveal(Seq::filter);
        }
        assert(s.to_multiset() =~= Multiset::empty()) by {
            vstd::seq_lib::to_multiset_len(s);
        }
    } else {
        let init = s.drop_last();
        let x = s.last();
        lemma_filter_partition(init, p, q);
        assert(init.push(x) =~= s);
        init.lemma_filter_push(x, p);
        init.lemma_filter_push(x, q);
        vstd::seq_lib::to_multiset_build(init, x);
        if p(x) {
            vstd::seq_lib::to_multiset_build(init.filter(p), x);
        } else {
            vstd::seq_lib::to_multiset_build(init.filter(q), x);
        }
    }
}

/// Choosing the resources that a function accepts loses none and makes none
/// up: the resources taken and those that stay are, together, those there were.
pub proof fn selection_keeps_resources(before: Seq<Resource>, after: Seq<Resource>, taken: Seq<Resource>, tags: Seq<Seq<char>>)
    requires
        selected_by_tags(before, after, taken, tags),
    ensures
        taken.to_multiset().add(after.to_multiset()) == before.to_multiset(),
{
    broadcast use vstd::multiset::group_multiset_axioms;
    if tags.len() == 0 || tags[0] == "*"@ {
        vstd::seq_lib::to_multiset_len(taken);
        vstd::seq_lib::to_multiset_len(after);
        if tags.len() == 0 {
            assert(taken.to_multiset() =~= Multiset::empty());
        } else {
            assert(after.to_multiset() =~= Multiset::empty());
        }
        assert(taken.to_multiset().add(after.to_multiset()) =~= before.to_multiset());
    } else {
        lemma_filter_partition(
            before,
            |x: Resource| has_any_tag(x, tags),
            |x: Resource| !has_any_tag(x, tags),
        );
    }
}

} // verus!
