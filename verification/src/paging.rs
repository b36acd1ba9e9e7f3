//! Pages of thread ids and message ids, with the numeric cursors that the
//! thread and message APIs hand out.
use vstd::prelude::*;
use vstd::relations::sorted_by;
use vstd::seq_lib::{lemma_multiset_commutative, lemma_sorted_unique};

verus! {

/// The ascending order of ids.
pub open spec fn id_leq() -> spec_fn(u64, u64) -> bool {
    |a: u64, b: u64| a <= b
}

/// The page size for a requested limit: 100 when none is given, at most 1000.
pub open spec fn spec_page_limit(limit: Option<usize>) -> usize {
    let l: usize = match limit {
        Some(l) => l,
        None => 100usize,
    };
    if l < 1000 { l } else { 1000usize }
}

/// The page size for a requested limit: 100 when none is given, at most 1000.
pub fn page_limit(limit: Option<usize>) -> (r: usize)
    ensures
        r == spec_page_limit(limit),
{
    let l: usize = match limit {
        Some(l) => l,
        None => 100,
    };
    if l < 1000 {
        l
    } else {
        1000
    }
}

/// The ids in ascending order.
pub fn sort_ids(v: &Vec<u64>) -> (r: Vec<u64>)
    ensures
        r@ == v@.sort_by(id_leq()),
{
    let mut r: Vec<u64> = Vec::new();
    let mut i: usize = 0;
    assert(r@ =~= v@.take(0));
    while i < v.len()
        invariant
            i <= v.len(),
            sorted_by(r@, id_leq()),
            r@.to_multiset() == v@.take(i as int).to_multiset(),
        decreases v.len() - i,
    {
        let x = v[i];
        let mut pos: usize = 0;
        while pos < r.len() && r[pos] <= x
            invariant
                pos <= r.len(),
                forall|k: int| 0 <= k < pos ==> r[k] <= x,
            decreases r.len() - pos,
        {
            pos = pos + 1;
        }
        let ghost old_r = r@;
        r.insert(pos, x);
        proof {
            assert(r@ == old_r.subrange(0, pos as int).push(x) + old_r.subrange(
                pos as int,
                old_r.len() as int,
            ));
            lemma_multiset_commutative(
                old_r.subrange(0, pos as int).push(x),
                old_r.subrange(pos as int, old_r.len() as int),
            );
            lemma_multiset_commutative(
                old_r.subrange(0, pos as int),
                old_r.subrange(pos as int, old_r.len() as int),
            );
            assert(old_r.subrange(0, pos as int) + old_r.subrange(pos as int, old_r.len() as int)
                =~= old_r);
            assert(old_r.subrange(0, pos as int).push(x).to_multiset() =~= old_r.subrange(
                0,
                pos as int,
            ).to_multiset().insert(x)) by {
                broadcast use vstd::seq_lib::group_to_multiset_ensures;
            }
            assert(v@.take(i + 1) =~= v@.take(i as int).push(x));
            assert(v@.take(i + 1).to_multiset() =~= v@.take(i as int).to_multiset().insert(x)) by {
                broadcast use vstd::seq_lib::group_to_multiset_ensures;
            }
            assert(r@.to_multiset() =~= v@.take(i + 1).to_multiset()) by {
                broadcast use vstd::multiset::group_multiset_axioms;
            }
            assert forall|a: int, b: int| 0 <= a < b < r.len() implies #[trigger] id_leq()(
                r[a],
                r[b],
            ) by {
                if pos < old_r.len() && b == pos as int {
                } else if a == pos as int && b > pos {
                    assert(r[b] == old_r[b - 1]);
                    assert(old_r[pos as int] > x);
                    if b - 1 > pos {
                        assert(id_leq()(old_r[pos as int], old_r[b - 1]));
                    }
                } else if a < pos && b == pos as int {
                } else {
                    let a0 = if a < pos { a } else { a - 1 };
                    let b0 = if b < pos { b } else { b - 1 };
                    assert(r[a] == old_r[a0]);
                    assert(r[b] == old_r[b0]);
                    assert(id_leq()(old_r[a0], old_r[b0]));
                }
            }
        }
        i = i + 1;
    }
    proof {
        assert(v@.take(v.len() as int) =~= v@);
        v@.lemma_sort_by_ensures(id_leq());
        lemma_sorted_unique(r@, v@.sort_by(id_leq()), id_leq());
    }
    r
}


/// The ids above `cursor`, in their order.
fn ids_above(v: &Vec<u64>, cursor: u64) -> (r: Vec<u64>)
    ensures
        r@ == v@.filter(|x: u64| x > cursor),
{
    let mut r: Vec<u64> = Vec::new();
    let mut i: usize = 0;
    assert(v@.take(0).filter(|x: u64| x > cursor) =~= Seq::<u64>::empty());
    while i < v.len()
        invariant
            i <= v.len(),
            r@ == v@.take(i as int).filter(|x: u64| x > cursor),
        decreases v.len() - i,
    {
        assert(v@.take(i + 1) =~= v@.take(i as int).push(v[i as int]));
        if v[i] > cursor {
            r.push(v[i]);
        }
        proof {
            v@.take(i as int).lemma_filter_push(v[i as int], |x: u64| x > cursor);
        }
        i = i + 1;
    }
    assert(v@.take(v.len() as int) =~= v@);
    r
}

/// The ids below `cursor`, in their order.
fn ids_below(v: &Vec<u64>, cursor: u64) -> (r: Vec<u64>)
    ensures
        r@ == v@.filter(|x: u64| x < cursor),
{
    let mut r: Vec<u64> = Vec::new();
    let mut i: usize = 0;
    assert(v@.take(0).filter(|x: u64| x < cursor) =~= Seq::<u64>::empty());
    while i < v.len()
        invariant
            i <= v.len(),
            r@ == v@.take(i as int).filter(|x: u64| x < cursor),
        decreases v.len() - i,
    {
        assert(v@.take(i + 1) =~= v@.take(i as int).push(v[i as int]));
        if v[i] < cursor {
            r.push(v[i]);
        }
        proof {
            v@.take(i as int).lemma_filter_push(v[i as int], |x: u64| x < cursor);
        }
        i = i + 1;
    }
    assert(v@.take(v.len() as int) =~= v@);
    r
}

/// The thread ids a page of "my threads" is drawn from: with a cursor, the
/// ids above it in ascending order; without one (cursor 0), the ids as given.
pub open spec fn my_threads_base(ids: Seq<u64>, cursor: u64) -> Seq<u64> {
    if cursor > 0 {
        ids.sort_by(id_leq()).filter(|x: u64| x > cursor)
    } else {
        ids
    }
}

/// A page of a user's thread ids, at most `limit` of them, and the cursor of
/// the next page: the last id of a full page.
pub fn my_threads_page(ids: &Vec<u64>, cursor: u64, limit: usize) -> (r: (Vec<u64>, Option<u64>))
    requires
        limit > 0,
    ensures
        r.0@ == my_threads_base(ids@, cursor).take(
            if my_threads_base(ids@, cursor).len() < limit {
                my_threads_base(ids@, cursor).len() as int
            } else {
                limit as int
            },
        ),
        r.1 == if r.0@.len() >= limit {
            Some(r.0@.last())
        } else {
            None::<u64>
        },
{
    let mut page = if cursor > 0 {
        let sorted = sort_ids(ids);
        ids_above(&sorted, cursor)
    } else {
        let mut copy: Vec<u64> = Vec::new();
        let mut i: usize = 0;
        while i < ids.len()
            invariant
                i <= ids.len(),
                copy@ == ids@.take(i as int),
            decreases ids.len() - i,
        {
            copy.push(ids[i]);
            i = i + 1;
            assert(copy@ =~= ids@.take(i as int));
        }
        assert(ids@.take(ids.len() as int) =~= ids@);
        copy
    };
    let ghost base = page@;
    if page.len() > limit {
        page.truncate(limit);
    }
    assert(page@ =~= base.take(if base.len() < limit { base.len() as int } else { limit as int }));
    let next = if page.len() >= limit {
        Some(page[page.len() - 1])
    } else {
        None
    };
    (page, next)
}

/// The message ids a page of messages is drawn from: with a cursor, the ids
/// below it; without one (cursor 0), all ids.
pub open spec fn messages_base(ids: Seq<u64>, cursor: u64) -> Seq<u64> {
    if cursor > 0 {
        ids.filter(|x: u64| x < cursor)
    } else {
        ids
    }
}

/// A page of message ids: the last `limit` of the ids below the cursor (of
/// all ids when the cursor is 0), in their order.
pub fn messages_page(ids: &Vec<u64>, cursor: u64, limit: usize) -> (r: Vec<u64>)
    ensures
        r@ == if messages_base(ids@, cursor).len() > limit {
            messages_base(ids@, cursor).skip(messages_base(ids@, cursor).len() - limit)
        } else {
            messages_base(ids@, cursor)
        },
{
    let base = if cursor > 0 {
        ids_below(ids, cursor)
    } else {
        let mut copy: Vec<u64> = Vec::new();
        let mut i: usize = 0;
        while i < ids.len()
            invariant
                i <= ids.len(),
                copy@ == ids@.take(i as int),
            decreases ids.len() - i,
        {
            copy.push(ids[i]);
            i = i + 1;
            assert(copy@ =~= ids@.take(i as int));
        }
        assert(ids@.take(ids.len() as int) =~= ids@);
        copy
    };
    if base.len() <= limit {
        return base;
    }
    let start = base.len() - limit;
    let mut r: Vec<u64> = Vec::new();
    let mut i: usize = start;
    while i < base.len()
        invariant
            start <= i <= base.len(),
            r@ == base@.subrange(start as int, i as int),
        decreases base.len() - i,
    {
        r.push(base[i]);
        i = i + 1;
        assert(r@ =~= base@.subrange(start as int, i as int));
    }
    assert(r@ =~= base@.skip(start as int));
    r
}

/// The cursor of the next page of messages: the id of the first message
/// fetched when a full page was fetched.
pub fn next_messages_cursor(fetched: &Vec<u64>, limit: usize) -> (r: Option<u64>)
    requires
        fetched.len() > 0 || limit > 0,
    ensures
        r == if fetched.len() >= limit {
            Some(fetched@[0])
        } else {
            None::<u64>
        },
{
    if fetched.len() >= limit {
        Some(fetched[0])
    } else {
        None
    }
}

/// No id of `s` is above `c`: none passes the filter.
proof fn lemma_none_above(s: Seq<u64>, c: u64)
    requires
        forall|i: int| 0 <= i < s.len() ==> s[i] <= c,
    ensures
        s.filter(|x: u64| x > c) =~= Seq::<u64>::empty(),
    decreases s.len(),
{
    reveal(Seq::filter);
    if s.len() > 0 {
        lemma_none_above(s.drop_last(), c);
    }
}

/// In strictly increasing ids, those above the `k`th are the ones after it.
proof fn lemma_above_is_after(s: Seq<u64>, k: int)
    requires
        forall|i: int, j: int| 0 <= i < j < s.len() ==> s[i] < s[j],
        0 <= k < s.len(),
    ensures
        s.filter(|x: u64| x > s[k]) == s.skip(k + 1),
    decreases s.len(),
{
    let c = s[k];
    if k == s.len() - 1 {
        lemma_none_above(s, c);
        assert(s.skip(k + 1) =~= Seq::<u64>::empty());
    } else {
        let init = s.drop_last();
        assert(init[k] == c);
        lemma_above_is_after(init, k);
        assert(init.push(s.last()) =~= s);
        init.lemma_filter_push(s.last(), |x: u64| x > c);
        assert(s.skip(k + 1) =~= init.skip(k + 1).push(s.last()));
    }
}

/// Paging through a user's threads (ids strictly increasing, as the thread
/// store lists them) goes on where a full page ended: with the last id of a
/// page as the cursor, the next page is drawn from the ids after it. (An id 0
/// as cursor would mean no cursor, so the ids are above 0.)
pub proof fn my_threads_pages_continue(ids: Seq<u64>, k: int)
    requires
        forall|i: int, j: int| 0 <= i < j < ids.len() ==> ids[i] < ids[j],
        0 <= k < ids.len(),
        ids[k] > 0,
    ensures
        my_threads_base(ids, ids[k]) == ids.skip(k + 1),
        my_threads_base(ids, 0) == ids,
{
    let leq = id_leq();
    assert(vstd::relations::total_ordering(leq));
    assert(sorted_by(ids, leq));
    ids.lemma_sort_by_ensures(leq);
    lemma_sorted_unique(ids.sort_by(leq), ids, leq);
    lemma_above_is_after(ids, k);
}

/// In strictly increasing ids, those below the `k`th are the ones before it.
proof fn lemma_below_is_before(s: Seq<u64>, k: int)
    requires
        forall|i: int, j: int| 0 <= i < j < s.len() ==> s[i] < s[j],
        0 <= k < s.len(),
    ensures
        s.filter(|x: u64| x < s[k]) == s.take(k),
    decreases s.len(),
{
    let c = s[k];
    let init = s.drop_last();
    assert(init.push(s.last()) =~= s);
    init.lemma_filter_push(s.last(), |x: u64| x < c);
    if k == s.len() - 1 {
        lemma_all_below(init, c);
        assert(s.take(k) =~= init);
    } else {
        assert(init[k] == c);
        lemma_below_is_before(init, k);
        assert(s.take(k) =~= init.take(k));
    }
}

/// Ids all below `c` all pass the filter.
proof fn lemma_all_below(s: Seq<u64>, c: u64)
    requires
        forall|i: int| 0 <= i < s.len() ==> s[i] < c,
    ensures
        s.filter(|x: u64| x < c) =~= s,
    decreases s.len(),
{
    if s.len() > 0 {
        let init = s.drop_last();
        lemma_all_below(init, c);
        assert(init.push(s.last()) =~= s);
        init.lemma_filter_push(s.last(), |x: u64| x < c);
    } else {
        reveal(Seq::filter);
    }
}

/// Paging back through a thread's messages (ids strictly increasing) goes on
/// where a page began: with the first id of a page as the cursor, the next
/// page is drawn from the ids before it, and without a cursor from all ids.
pub proof fn messages_pages_continue(ids: Seq<u64>, k: int)
    requires
        forall|i: int, j: int| 0 <= i < j < ids.len() ==> ids[i] < ids[j],
        0 <= k < ids.len(),
        ids[k] > 0,
    ensures
        messages_base(ids, ids[k]) == ids.take(k),
        messages_base(ids, 0) == ids,
{
    lemma_below_is_before(ids, k);
}

} // verus!
