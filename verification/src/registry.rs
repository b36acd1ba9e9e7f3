//! The in-memory registry of thread states, keyed by the threads' ids, and
//! the listings read from it.
use vstd::prelude::*;
use std::collections::BTreeMap;
use vstd::std_specs::btree::{spec_btree_map_iter, increasing_seq};
use vstd::std_specs::iter::IteratorSpec;
use vstd::std_specs::cmp::OrdSpec;
use crate::principal::Principal;
use crate::nexus::{ThreadState, ThreadStatus, ThreadVisibility, NexusError, Thread};

verus! {

/// The optional principal as its bytes.
pub open spec fn opt_pview(o: Option<Principal>) -> Option<Seq<u8>> {
    match o {
        Some(p) => Some(p@),
        None => None,
    }
}

/// Two thread states hold the same values.
pub open spec fn same_state(a: ThreadState, b: ThreadState) -> bool {
    &&& a.visibility == b.visibility
    &&& a.status == b.status
    &&& a.updated_at == b.updated_at
    &&& a.participants == b.participants
    &&& a.max_participants == b.max_participants
    &&& opt_pview(a.latest_message_by) == opt_pview(b.latest_message_by)
    &&& a.latest_message_id == b.latest_message_id
    &&& a.latest_message_at == b.latest_message_at
}

/// A copy of an optional principal.
pub fn copy_opt_principal(o: &Option<Principal>) -> (r: Option<Principal>)
    ensures
        opt_pview(r) == opt_pview(*o),
{
    match o {
        Some(p) => Some(p.copy()),
        None => None,
    }
}

impl ThreadState {
    /// A copy of this state.
    pub fn copy(&self) -> (s: ThreadState)
        ensures
            same_state(s, *self),
    {
        ThreadState {
            visibility: self.visibility,
            status: self.status,
            updated_at: self.updated_at,
            participants: self.participants,
            max_participants: self.max_participants,
            latest_message_by: copy_opt_principal(&self.latest_message_by),
            latest_message_id: self.latest_message_id,
            latest_message_at: self.latest_message_at,
        }
    }
}

/// A state listed among the public threads: public or protected, and active.
pub open spec fn is_listed(s: ThreadState) -> bool {
    (s.visibility == ThreadVisibility::Public || s.visibility == ThreadVisibility::Protected)
        && s.status == ThreadStatus::Active
}

/// In the listing of public threads, the thread updated last comes first;
/// among threads updated at the same time, the smaller id comes first.
pub open spec fn ranks_before(a: (u64, u64), b: (u64, u64)) -> bool {
    a.1 > b.1 || (a.1 == b.1 && a.0 < b.0)
}

/// Keys that a map yields in increasing order are strictly increasing integers.
proof fn lemma_increasing_keys(ks: Seq<u64>)
    requires
        increasing_seq(ks),
    ensures
        forall|i: int, j: int| 0 <= i < j < ks.len() ==> ks[i] < ks[j],
{
    assert forall|i: int, j: int| 0 <= i < j < ks.len() implies ks[i] < ks[j] by {
        assert(ks[i].cmp_spec(&ks[j]) is Less);
    }
}

/// The ids among `ids`, in their order, of known threads whose state meets `p`.
pub open spec fn select_ids(m: Map<u64, ThreadState>, ids: Seq<u64>, p: spec_fn(ThreadState) -> bool) -> Seq<u64>
    decreases ids.len(),
{
    if ids.len() == 0 {
        Seq::empty()
    } else {
        let rest = select_ids(m, ids.drop_last(), p);
        let k = ids.last();
        if m.contains_key(k) && p(m[k]) {
            rest.push(k)
        } else {
            rest
        }
    }
}


/// Each selected id is a known thread whose state passes the test.
pub proof fn lemma_select_ids_sound(m: Map<u64, ThreadState>, ids: Seq<u64>, p: spec_fn(ThreadState) -> bool)
    ensures
        forall|i: int|
            0 <= i < select_ids(m, ids, p).len() ==> m.contains_key(#[trigger] select_ids(m, ids, p)[i])
                && p(m[select_ids(m, ids, p)[i]]),
    decreases ids.len(),
{
    if ids.len() > 0 {
        let rest = select_ids(m, ids.drop_last(), p);
        lemma_select_ids_sound(m, ids.drop_last(), p);
        let sel = select_ids(m, ids, p);
        assert forall|i: int| 0 <= i < sel.len() implies m.contains_key(#[trigger] sel[i]) && p(m[sel[i]]) by {
            if i < rest.len() {
                assert(sel[i] == rest[i]);
            }
        }
    }
}

/// The public listing lists only public active threads: every id it selects
/// is a known thread that is public and active.
pub proof fn public_listing_only_public(m: Map<u64, ThreadState>, ids: Seq<u64>, sel: Seq<u64>)
    requires
        sel == select_ids(m, ids, |s: ThreadState| is_public_active(s)),
    ensures
        forall|i: int|
            0 <= i < sel.len() ==> m.contains_key(#[trigger] sel[i]) && m[sel[i]].visibility
                == ThreadVisibility::Public && m[sel[i]].status == ThreadStatus::Active,
{
    lemma_select_ids_sound(m, ids, |s: ThreadState| is_public_active(s));
}

/// The listing of a user's threads lists only active threads.
pub proof fn user_listing_only_active(m: Map<u64, ThreadState>, ids: Seq<u64>, sel: Seq<u64>)
    requires
        sel == select_ids(m, ids, |s: ThreadState| is_active(s)),
    ensures
        forall|i: int| 0 <= i < sel.len() ==> m.contains_key(#[trigger] sel[i]) && m[sel[i]].status == ThreadStatus::Active,
{
    lemma_select_ids_sound(m, ids, |s: ThreadState| is_active(s));
}

/// An active thread.
pub open spec fn is_active(s: ThreadState) -> bool {
    s.status == ThreadStatus::Active
}

/// A public, active thread.
pub open spec fn is_public_active(s: ThreadState) -> bool {
    s.visibility == ThreadVisibility::Public && s.status == ThreadStatus::Active
}

/// Ids in strictly increasing order (the order of a set of ids).
pub open spec fn strictly_increasing(ids: Seq<u64>) -> bool {
    forall|i: int, j: int| 0 <= i < j < ids.len() ==> ids[i] < ids[j]
}

/// The states of the threads, keyed by their ids in the thread collection.
pub struct ThreadRegistry {
    pub states: BTreeMap<u64, ThreadState>,
}

impl View for ThreadRegistry {
    type V = Map<u64, ThreadState>;

    open spec fn view(&self) -> Map<u64, ThreadState> {
        self.states@
    }
}

impl ThreadRegistry {
    /// An empty registry.
    pub fn new() -> (r: ThreadRegistry)
        ensures
            r@ == Map::<u64, ThreadState>::empty(),
    {
        ThreadRegistry { states: BTreeMap::new() }
    }

    /// The (id, updated_at) pairs of the listed states, in increasing id order.
    fn listed_pairs(&self) -> (r: Vec<(u64, u64)>)
        ensures
            forall|i: int, j: int| 0 <= i < j < r.len() ==> r[i].0 < r[j].0,
            forall|i: int|
                0 <= i < r.len() ==> self@.contains_key(#[trigger] r[i].0) && is_listed(
                    self@[r[i].0],
                ) && r[i].1 == self@[r[i].0].updated_at,
            forall|k: u64|
                self@.contains_key(k) && is_listed(self@[k]) ==> exists|i: int|
                    0 <= i < r.len() && #[trigger] r[i].0 == k,
    {
        let m = &self.states;
        let iter = m.iter();
        let ghost s = iter.remaining();
        proof {
            let ks = s.map_values(|kv: (&u64, &ThreadState)| *kv.0);
            lemma_increasing_keys(ks);
            assert forall|a: int, b: int| 0 <= a < b < s.len() implies *s[a].0 < *s[b].0 by {
                assert(ks[a] == *s[a].0 && ks[b] == *s[b].0);
            }
        }
        let mut r: Vec<(u64, u64)> = Vec::new();
        let ghost mut idxs: Seq<int> = Seq::empty();
        for kv in it: iter
            invariant
                it.seq() == s,
                s == spec_btree_map_iter(m).remaining(),
                forall|a: int, b: int| 0 <= a < b < s.len() ==> *s[a].0 < *s[b].0,
                idxs.len() == r.len(),
                forall|i: int|
                    0 <= i < r.len() ==> 0 <= #[trigger] idxs[i] < it.index() && r[i].0
                        == *s[idxs[i]].0 && r[i].1 == s[idxs[i]].1.updated_at && is_listed(
                        *s[idxs[i]].1,
                    ),
                forall|i: int, j: int| 0 <= i < j < r.len() ==> idxs[i] < idxs[j],
                forall|j: int|
                    0 <= j < it.index() && is_listed(*s[j].1) ==> exists|i: int|
                        0 <= i < r.len() && #[trigger] idxs[i] == j,
        {
            let ghost idx = it.index();
            let ghost old_idxs = idxs;
            let (k, st) = kv;
            assert(*k == *s[idx].0 && *st == *s[idx].1);
            if (st.visibility == ThreadVisibility::Public || st.visibility
                == ThreadVisibility::Protected) && st.status == ThreadStatus::Active {
                r.push((*k, st.updated_at));
                proof {
                    idxs = idxs.push(idx);
                    assert forall|j: int| 0 <= j < idx + 1 && is_listed(*s[j].1) implies exists|i: int|
                        0 <= i < r.len() && #[trigger] idxs[i] == j by {
                        if j < idx {
                            let i = choose|i: int| 0 <= i < old_idxs.len() && #[trigger] old_idxs[i] == j;
                            assert(idxs[i] == j);
                        } else {
                            assert(idxs[idxs.len() - 1] == j);
                        }
                    }
                }
            }
        }
        proof {
            assert forall|i: int, j: int| 0 <= i < j < r.len() implies r[i].0 < r[j].0 by {
                assert(idxs[i] < idxs[j]);
            }
            assert forall|i: int| 0 <= i < r.len() implies self@.contains_key(
                #[trigger] r[i].0,
            ) && is_listed(self@[r[i].0]) && r[i].1 == self@[r[i].0].updated_at by {
                let j = idxs[i];
                assert(m@.contains_key(*s[j].0) && m@[*s[j].0] == *s[j].1);
            }
            assert forall|k: u64| self@.contains_key(k) && is_listed(self@[k]) implies exists|i: int|
                0 <= i < r.len() && #[trigger] r[i].0 == k by {
                assert(s.contains((&k, &m@[k])));
                let j = choose|j: int| 0 <= j < s.len() && s[j] == (&k, &m@[k]);
                assert(is_listed(*s[j].1));
                let i = choose|i: int| 0 <= i < r.len() && #[trigger] idxs[i] == j;
                assert(r[i].0 == k);
            }
        }
        r
    }

    /// The ids of the threads to list as public threads, at most `limit` of
    /// them: public or protected active threads, the most recently updated
    /// first and, among those updated at the same time, the smaller id first.
    pub fn public_thread_ids(&self, limit: usize) -> (r: Vec<u64>)
        ensures
            r.len() <= limit,
            forall|i: int|
                0 <= i < r.len() ==> self@.contains_key(#[trigger] r[i]) && is_listed(self@[r[i]]),
            forall|i: int, j: int|
                0 <= i < j < r.len() ==> ranks_before(
                    (r[i], self@[r[i]].updated_at),
                    (r[j], self@[r[j]].updated_at),
                ),
            forall|k: u64, i: int|
                self@.contains_key(k) && is_listed(self@[k]) && !r@.contains(k) && 0 <= i
                    < r.len() ==> ranks_before(
                    (r[i], self@[r[i]].updated_at),
                    (k, self@[k].updated_at),
                ),
            r.len() < limit ==> forall|k: u64|
                self@.contains_key(k) && is_listed(self@[k]) ==> r@.contains(k),
    {
        let cands = self.listed_pairs();
        let mut chosen: Vec<(u64, u64)> = Vec::new();
        let mut done = false;
        while chosen.len() < limit && !done
            invariant
                forall|i: int, j: int| 0 <= i < j < cands.len() ==> cands[i].0 < cands[j].0,
                chosen.len() <= limit,
                forall|i: int| 0 <= i < chosen.len() ==> cands@.contains(#[trigger] chosen[i]),
                forall|i: int, j: int|
                    0 <= i < j < chosen.len() ==> ranks_before(chosen[i], chosen[j]),
                forall|c: (u64, u64)|
                    cands@.contains(c) ==> chosen@.contains(c) || chosen.len() == 0
                        || ranks_before(chosen[chosen.len() - 1], c),
                done ==> forall|c: (u64, u64)| cands@.contains(c) ==> chosen@.contains(c),
            decreases (limit - chosen.len()) * 2 + if done { 0int } else { 1int },
        {
            let has_last = chosen.len() > 0;
            let last: (u64, u64) = if has_last { chosen[chosen.len() - 1] } else { (0, 0) };
            let mut best: Option<(u64, u64)> = None;
            let mut j: usize = 0;
            while j < cands.len()
                invariant
                    forall|a: int, b: int| 0 <= a < b < cands.len() ==> cands[a].0 < cands[b].0,
                    j <= cands.len(),
                    has_last == (chosen.len() > 0),
                    has_last ==> last == chosen[chosen.len() - 1],
                    best matches Some(b) ==> cands@.contains(b) && (!has_last || ranks_before(
                        last,
                        b,
                    )),
                    forall|jj: int|
                        0 <= jj < j && (!has_last || ranks_before(last, #[trigger] cands[jj]))
                            ==> (best matches Some(b) && (b == cands[jj] || ranks_before(
                            b,
                            cands[jj],
                        ))),
                decreases cands.len() - j,
            {
                let c = cands[j];
                let after = !has_last || last.1 > c.1 || (last.1 == c.1 && last.0 < c.0);
                if after {
                    match best {
                        None => {
                            best = Some(c);
                        },
                        Some(b) => {
                            if c.1 > b.1 || (c.1 == b.1 && c.0 < b.0) {
                                best = Some(c);
                            }
                        },
                    }
                }
                proof {
                    assert(cands@.contains(c)) by {
                        assert(cands@[j as int] == c);
                    }
                }
                j = j + 1;
            }
            match best {
                None => {
                    done = true;
                },
                Some(b) => {
                    let ghost old_chosen = chosen@;
                    chosen.push(b);
                    proof {
                        assert forall|c: (u64, u64)| cands@.contains(c) implies chosen@.contains(c)
                            || ranks_before(chosen[chosen.len() - 1], c) by {
                            if !old_chosen.contains(c) {
                                let jj = choose|jj: int| 0 <= jj < cands.len() && cands@[jj] == c;
                                assert(!has_last || ranks_before(last, cands[jj]));
                                if c == b {
                                    assert(chosen@[chosen.len() - 1] == c);
                                }
                            } else {
                                let i = choose|i: int| 0 <= i < old_chosen.len() && old_chosen[i] == c;
                                assert(chosen@[i] == c);
                            }
                        }
                        assert forall|x: int, y: int|
                            0 <= x < y < chosen.len() implies ranks_before(chosen[x], chosen[y]) by {
                            if y == chosen.len() - 1 && has_last {
                                assert(chosen[x] == old_chosen[x]);
                                if x < old_chosen.len() - 1 {
                                    assert(ranks_before(old_chosen[x], last));
                                }
                            }
                        }
                        assert forall|i: int| 0 <= i < chosen.len() implies cands@.contains(
                            #[trigger] chosen[i],
                        ) by {
                            if i < old_chosen.len() {
                                assert(chosen[i] == old_chosen[i]);
                            }
                        }
                    }
                },
            }
        }
        let mut r: Vec<u64> = Vec::new();
        let mut i: usize = 0;
        while i < chosen.len()
            invariant
                i <= chosen.len(),
                r.len() == i,
                forall|a: int| 0 <= a < i ==> r[a] == chosen[a].0,
            decreases chosen.len() - i,
        {
            r.push(chosen[i].0);
            i = i + 1;
        }
        proof {
            assert forall|a: int| 0 <= a < r.len() implies self@.contains_key(#[trigger] r[a])
                && is_listed(self@[r[a]]) && chosen[a] == (r[a], self@[r[a]].updated_at) by {
                assert(cands@.contains(chosen[a]));
                let x = choose|x: int| 0 <= x < cands.len() && cands@[x] == chosen[a];
            }
            assert forall|k: u64, a: int|
                self@.contains_key(k) && is_listed(self@[k]) && !r@.contains(k) && 0 <= a
                    < r.len() implies ranks_before(
                (r[a], self@[r[a]].updated_at),
                (k, self@[k].updated_at),
            ) by {
                let x = choose|x: int| 0 <= x < cands.len() && #[trigger] cands[x].0 == k;
                let c = cands[x];
                assert(cands@.contains(c));
                if chosen@.contains(c) {
                    let y = choose|y: int| 0 <= y < chosen.len() && chosen@[y] == c;
                    assert(r@[y] == k);
                }
                assert(chosen.len() > 0 && ranks_before(chosen[chosen.len() - 1], c));
                assert(chosen[a] == (r[a], self@[r[a]].updated_at));
                if a < chosen.len() - 1 {
                    assert(ranks_before(chosen[a], chosen[chosen.len() - 1]));
                }
            }
            if r.len() < limit {
                assert forall|k: u64| self@.contains_key(k) && is_listed(self@[k]) implies r@.contains(
                    k,
                ) by {
                    let x = choose|x: int| 0 <= x < cands.len() && #[trigger] cands[x].0 == k;
                    let c = cands[x];
                    assert(cands@.contains(c));
                    let y = choose|y: int| 0 <= y < chosen.len() && chosen@[y] == c;
                    assert(r@[y] == k);
                }
            }
        }
        r
    }

    /// Adds or replaces the state of thread `id`.
    pub fn insert(&mut self, id: u64, state: ThreadState)
        ensures
            final(self)@ == old(self)@.insert(id, state),
    {
        self.states.insert(id, state);
    }

    /// Forgets thread `id`.
    pub fn remove(&mut self, id: u64)
        ensures
            final(self)@ == old(self)@.remove(id),
    {
        self.states.remove(&id);
    }

    /// The visibility of thread `id`, which must be known and active.
    pub fn check_thread_state(&self, id: u64) -> (r: Result<ThreadVisibility, NexusError>)
        ensures
            !self@.contains_key(id) ==> r == Err::<ThreadVisibility, NexusError>(
                NexusError::ThreadNotFound(id),
            ),
            self@.contains_key(id) && self@[id].status != ThreadStatus::Active ==> r == Err::<
                ThreadVisibility,
                NexusError,
            >(NexusError::ThreadNotActive(id)),
            self@.contains_key(id) && self@[id].status == ThreadStatus::Active ==> r == Ok::<
                ThreadVisibility,
                NexusError,
            >(self@[id].visibility),
    {
        match self.states.get(&id) {
            Some(s) => {
                if s.status != ThreadStatus::Active {
                    return Err(NexusError::ThreadNotActive(id));
                }
                Ok(s.visibility)
            },
            None => Err(NexusError::ThreadNotFound(id)),
        }
    }

    /// Thread `id` must be known and not unavailable (to quit or delete it).
    pub fn check_available(&self, id: u64) -> (r: Result<(), NexusError>)
        ensures
            !self@.contains_key(id) ==> r == Err::<(), NexusError>(NexusError::ThreadNotFound(id)),
            self@.contains_key(id) && self@[id].status == ThreadStatus::Unavailable ==> r == Err::<
                (),
                NexusError,
            >(NexusError::ThreadUnavailable(id)),
            self@.contains_key(id) && self@[id].status != ThreadStatus::Unavailable ==> r is Ok,
    {
        match self.states.get(&id) {
            Some(s) => {
                if s.status == ThreadStatus::Unavailable {
                    return Err(NexusError::ThreadUnavailable(id));
                }
                Ok(())
            },
            None => Err(NexusError::ThreadNotFound(id)),
        }
    }

    /// Thread `id` must be known and active, and have room for `adding` more
    /// participants under its limit.
    pub fn check_capacity(&self, id: u64, adding: usize) -> (r: Result<(), NexusError>)
        requires
            self@.contains_key(id) ==> self@[id].participants + adding <= u64::MAX,
        ensures
            !self@.contains_key(id) ==> r == Err::<(), NexusError>(NexusError::ThreadNotFound(id)),
            self@.contains_key(id) && self@[id].status != ThreadStatus::Active ==> r == Err::<
                (),
                NexusError,
            >(NexusError::ThreadNotActive(id)),
            self@.contains_key(id) && self@[id].status == ThreadStatus::Active && self@[id].participants
                + adding > self@[id].max_participants ==> r == Err::<(), NexusError>(
                NexusError::ExceedMaxParticipants(self@[id].max_participants),
            ),
            r is Ok <==> self@.contains_key(id) && self@[id].status == ThreadStatus::Active
                && self@[id].participants + adding <= self@[id].max_participants,
    {
        match self.states.get(&id) {
            Some(s) => {
                if s.status != ThreadStatus::Active {
                    return Err(NexusError::ThreadNotActive(id));
                }
                if s.participants + adding as u64 > s.max_participants {
                    return Err(NexusError::ExceedMaxParticipants(s.max_participants));
                }
                Ok(())
            },
            None => Err(NexusError::ThreadNotFound(id)),
        }
    }

    /// The latest message id recorded for thread `id` (0 when unknown).
    pub fn latest_message_id(&self, id: u64) -> (r: u64)
        ensures
            r == if self@.contains_key(id) { self@[id].latest_message_id } else { 0 },
    {
        match self.states.get(&id) {
            Some(s) => s.latest_message_id,
            None => 0,
        }
    }

    /// Replaces the state of a known thread.
    fn update_state(&mut self, id: u64, st: ThreadState)
        requires
            old(self)@.contains_key(id),
        ensures
            final(self)@ == old(self)@.insert(id, st),
    {
        self.states.insert(id, st);
    }

    /// Records a membership change of thread `id`: its participant count and
    /// update time. An unknown thread is left alone.
    pub fn record_participants(&mut self, id: u64, participants: u64, now: u64)
        ensures
            !old(self)@.contains_key(id) ==> final(self)@ == old(self)@,
            old(self)@.contains_key(id) ==> final(self)@.dom() == old(self)@.dom() && (forall|k: u64|
                k != id && old(self)@.contains_key(k) ==> final(self)@[k] == old(self)@[k]) && {
                let (a, b) = (old(self)@[id], final(self)@[id]);
                &&& b.participants == participants
                &&& b.updated_at == now
                &&& b.visibility == a.visibility && b.status == a.status && b.max_participants
                    == a.max_participants
                &&& opt_pview(b.latest_message_by) == opt_pview(a.latest_message_by)
                &&& b.latest_message_id == a.latest_message_id && b.latest_message_at
                    == a.latest_message_at
            },
    {
        let st = match self.states.get(&id) {
            Some(s) => {
                let mut st = s.copy();
                st.participants = participants;
                st.updated_at = now;
                st
            },
            None => {
                return ;
            },
        };
        self.update_state(id, st);
        assert(self@.dom() =~= old(self)@.dom());
    }

    /// Records an update of thread `id`'s information: its update time and,
    /// when given, its new visibility. An unknown thread is left alone.
    pub fn record_update(&mut self, id: u64, now: u64, visibility: Option<ThreadVisibility>)
        ensures
            !old(self)@.contains_key(id) ==> final(self)@ == old(self)@,
            old(self)@.contains_key(id) ==> final(self)@.dom() == old(self)@.dom() && (forall|k: u64|
                k != id && old(self)@.contains_key(k) ==> final(self)@[k] == old(self)@[k]) && {
                let (a, b) = (old(self)@[id], final(self)@[id]);
                &&& b.updated_at == now
                &&& b.visibility == (match visibility {
                    Some(v) => v,
                    None => a.visibility,
                })
                &&& b.status == a.status && b.participants == a.participants && b.max_participants
                    == a.max_participants
                &&& opt_pview(b.latest_message_by) == opt_pview(a.latest_message_by)
                &&& b.latest_message_id == a.latest_message_id && b.latest_message_at
                    == a.latest_message_at
            },
    {
        let st = match self.states.get(&id) {
            Some(s) => {
                let mut st = s.copy();
                st.updated_at = now;
                if let Some(v) = visibility {
                    st.visibility = v;
                }
                st
            },
            None => {
                return ;
            },
        };
        self.update_state(id, st);
        assert(self@.dom() =~= old(self)@.dom());
    }

    /// Records a new status of thread `id`, set by the system. An unknown
    /// thread is left alone.
    pub fn record_status(&mut self, id: u64, status: ThreadStatus, now: u64)
        ensures
            !old(self)@.contains_key(id) ==> final(self)@ == old(self)@,
            old(self)@.contains_key(id) ==> final(self)@.dom() == old(self)@.dom() && (forall|k: u64|
                k != id && old(self)@.contains_key(k) ==> final(self)@[k] == old(self)@[k]) && {
                let (a, b) = (old(self)@[id], final(self)@[id]);
                &&& b.status == status && b.updated_at == now
                &&& b.visibility == a.visibility && b.participants == a.participants
                    && b.max_participants == a.max_participants
                &&& opt_pview(b.latest_message_by) == opt_pview(a.latest_message_by)
                &&& b.latest_message_id == a.latest_message_id && b.latest_message_at
                    == a.latest_message_at
            },
    {
        let st = match self.states.get(&id) {
            Some(s) => {
                let mut st = s.copy();
                st.status = status;
                st.updated_at = now;
                st
            },
            None => {
                return ;
            },
        };
        self.update_state(id, st);
        assert(self@.dom() =~= old(self)@.dom());
    }

    /// Records a new participant limit of thread `id`, set by the system. An
    /// unknown thread is left alone.
    pub fn record_max_participants(&mut self, id: u64, max_participants: u64, now: u64)
        ensures
            !old(self)@.contains_key(id) ==> final(self)@ == old(self)@,
            old(self)@.contains_key(id) ==> final(self)@.dom() == old(self)@.dom() && (forall|k: u64|
                k != id && old(self)@.contains_key(k) ==> final(self)@[k] == old(self)@[k]) && {
                let (a, b) = (old(self)@[id], final(self)@[id]);
                &&& b.max_participants == max_participants && b.updated_at == now
                &&& b.visibility == a.visibility && b.participants == a.participants && b.status
                    == a.status
                &&& opt_pview(b.latest_message_by) == opt_pview(a.latest_message_by)
                &&& b.latest_message_id == a.latest_message_id && b.latest_message_at
                    == a.latest_message_at
            },
    {
        let st = match self.states.get(&id) {
            Some(s) => {
                let mut st = s.copy();
                st.max_participants = max_participants;
                st.updated_at = now;
                st
            },
            None => {
                return ;
            },
        };
        self.update_state(id, st);
        assert(self@.dom() =~= old(self)@.dom());
    }

    /// Records the latest message of thread `id` (after a message was added,
    /// or the latest one deleted). An unknown thread is left alone.
    pub fn record_latest_message(&mut self, id: u64, by: Option<Principal>, message_id: u64, at: u64)
        ensures
            !old(self)@.contains_key(id) ==> final(self)@ == old(self)@,
            old(self)@.contains_key(id) ==> final(self)@.dom() == old(self)@.dom() && (forall|k: u64|
                k != id && old(self)@.contains_key(k) ==> final(self)@[k] == old(self)@[k]) && {
                let (a, b) = (old(self)@[id], final(self)@[id]);
                &&& opt_pview(b.latest_message_by) == opt_pview(by)
                &&& b.latest_message_id == message_id && b.latest_message_at == at
                &&& b.visibility == a.visibility && b.participants == a.participants && b.status
                    == a.status && b.max_participants == a.max_participants && b.updated_at
                    == a.updated_at
            },
    {
        let st = match self.states.get(&id) {
            Some(s) => {
                let mut st = s.copy();
                st.latest_message_by = copy_opt_principal(&by);
                st.latest_message_id = message_id;
                st.latest_message_at = at;
                st
            },
            None => {
                return ;
            },
        };
        self.update_state(id, st);
        assert(self@.dom() =~= old(self)@.dom());
    }

    /// Records a message found in the collection of thread `id` as its latest
    /// one when it is newer than the recorded one. An unknown thread is left alone.
    pub fn note_latest_message(&mut self, id: u64, by: Option<Principal>, message_id: u64, at: u64)
        ensures
            !old(self)@.contains_key(id) || message_id <= old(self)@[id].latest_message_id
                ==> final(self)@ == old(self)@,
            old(self)@.contains_key(id) && message_id > old(self)@[id].latest_message_id
                ==> final(self)@.dom() == old(self)@.dom() && (forall|k: u64|
                k != id && old(self)@.contains_key(k) ==> final(self)@[k] == old(self)@[k]) && {
                let (a, b) = (old(self)@[id], final(self)@[id]);
                &&& opt_pview(b.latest_message_by) == opt_pview(by)
                &&& b.latest_message_id == message_id && b.latest_message_at == at
                &&& b.visibility == a.visibility && b.participants == a.participants && b.status
                    == a.status && b.max_participants == a.max_participants && b.updated_at
                    == a.updated_at
            },
    {
        if message_id > self.latest_message_id(id) {
            self.record_latest_message(id, by, message_id, at);
        }
    }

    /// Copies of the states of the known threads among `ids` that meet `keep`.
    fn select_states(&self, ids: &Vec<u64>, public_only: bool) -> (r: Vec<ThreadState>)
        ensures
            r.len() == select_ids(
                self@,
                ids@,
                if public_only { |s: ThreadState| is_public_active(s) } else { |s: ThreadState| is_active(s) },
            ).len(),
            forall|i: int|
                0 <= i < r.len() ==> same_state(
                    #[trigger] r[i],
                    self@[select_ids(
                        self@,
                        ids@,
                        if public_only { |s: ThreadState| is_public_active(s) } else { |s: ThreadState| is_active(s) },
                    )[i]],
                ),
    {
        let ghost p: spec_fn(ThreadState) -> bool = if public_only {
            |s: ThreadState| is_public_active(s)
        } else {
            |s: ThreadState| is_active(s)
        };
        let mut r: Vec<ThreadState> = Vec::new();
        let mut i: usize = 0;
        while i < ids.len()
            invariant
                i <= ids.len(),
                p == (if public_only { |s: ThreadState| is_public_active(s) } else { |s: ThreadState| is_active(s) }),
                r.len() == select_ids(self@, ids@.take(i as int), p).len(),
                forall|a: int|
                    0 <= a < r.len() ==> same_state(
                        #[trigger] r[a],
                        self@[select_ids(self@, ids@.take(i as int), p)[a]],
                    ),
            decreases ids.len() - i,
        {
            let id = ids[i];
            let ghost prev = select_ids(self@, ids@.take(i as int), p);
            assert(ids@.take(i + 1).drop_last() =~= ids@.take(i as int));
            assert(ids@.take(i + 1).last() == id);
            match self.states.get(&id) {
                Some(s) => {
                    let keep = if public_only {
                        s.visibility == ThreadVisibility::Public && s.status == ThreadStatus::Active
                    } else {
                        s.status == ThreadStatus::Active
                    };
                    if keep {
                        r.push(s.copy());
                        assert(select_ids(self@, ids@.take(i + 1), p) == prev.push(id));
                    } else {
                        assert(select_ids(self@, ids@.take(i + 1), p) == prev);
                    }
                },
                None => {
                    assert(select_ids(self@, ids@.take(i + 1), p) == prev);
                },
            }
            i = i + 1;
        }
        assert(ids@.take(ids.len() as int) =~= ids@);
        r
    }

    /// The states of the active threads among `ids` (the threads a user
    /// participates in), in the order of `ids`.
    pub fn active_states(&self, ids: &Vec<u64>) -> (r: Vec<ThreadState>)
        ensures
            r.len() == select_ids(self@, ids@, |s: ThreadState| is_active(s)).len(),
            forall|i: int|
                0 <= i < r.len() ==> same_state(
                    #[trigger] r[i],
                    self@[select_ids(self@, ids@, |s: ThreadState| is_active(s))[i]],
                ),
            forall|i: int| 0 <= i < r.len() ==> (#[trigger] r[i]).status == ThreadStatus::Active,
    {
        proof {
            lemma_select_ids_sound(self@, ids@, |s: ThreadState| is_active(s));
        }
        self.select_states(ids, false)
    }

    /// The states of the public active threads among a set of ids, in
    /// increasing id order.
    pub fn public_states(&self, ids: &Vec<u64>) -> (r: Vec<ThreadState>)
        requires
            strictly_increasing(ids@),
        ensures
            r.len() == select_ids(self@, ids@, |s: ThreadState| is_public_active(s)).len(),
            forall|i: int|
                0 <= i < r.len() ==> same_state(
                    #[trigger] r[i],
                    self@[select_ids(self@, ids@, |s: ThreadState| is_public_active(s))[i]],
                ),
            forall|i: int|
                0 <= i < r.len() ==> (#[trigger] r[i]).visibility == ThreadVisibility::Public && r[i].status
                    == ThreadStatus::Active,
    {
        proof {
            lemma_select_ids_sound(self@, ids@, |s: ThreadState| is_public_active(s));
        }
        self.select_states(ids, true)
    }
}

} // verus!
