//! Principals (user and canister identities) held by their bytes, and the
//! sets and maps of principals that the permission logic reads.
use vstd::prelude::*;

verus! {

/// An identity, held as its raw bytes (the bytes of a candid principal).
#[derive(Debug)]
pub struct Principal {
    pub bytes: Vec<u8>,
}

impl View for Principal {
    type V = Seq<u8>;

    open spec fn view(&self) -> Seq<u8> {
        self.bytes@
    }
}

/// The bytes of the anonymous principal.
pub open spec fn anonymous_bytes() -> Seq<u8> {
    seq![4u8]
}

impl Principal {
    /// The anonymous principal.
    pub fn anonymous() -> (p: Principal)
        ensures
            p@ == anonymous_bytes(),
    {
        let mut bytes: Vec<u8> = Vec::new();
        bytes.push(4u8);
        assert(bytes@ =~= anonymous_bytes());
        Principal { bytes }
    }

    /// The principal with the given bytes.
    pub fn from_slice(bytes: &[u8]) -> (p: Principal)
        ensures
            p@ == bytes@,
    {
        Principal { bytes: vstd::slice::slice_to_vec(bytes) }
    }

    /// A copy of this principal.
    pub fn copy(&self) -> (p: Principal)
        ensures
            p@ == self@,
    {
        Principal { bytes: vstd::slice::slice_to_vec(self.bytes.as_slice()) }
    }

    /// Whether this is the anonymous principal.
    pub fn is_anonymous(&self) -> (b: bool)
        ensures
            b == (self@ == anonymous_bytes()),
    {
        let b = self.bytes.len() == 1 && self.bytes[0] == 4u8;
        proof {
            if b {
                assert(self@ =~= anonymous_bytes());
            }
        }
        b
    }
}

/// Two principals have the same bytes.
pub fn principal_eq(a: &Principal, b: &Principal) -> (r: bool)
    ensures
        r == (a@ == b@),
{
    if a.bytes.len() != b.bytes.len() {
        return false;
    }
    let mut i: usize = 0;
    while i < a.bytes.len()
        invariant
            a.bytes.len() == b.bytes.len(),
            i <= a.bytes.len(),
            forall|k: int| 0 <= k < i ==> a.bytes@[k] == b.bytes@[k],
        decreases a.bytes.len() - i,
    {
        if a.bytes[i] != b.bytes[i] {
            return false;
        }
        i = i + 1;
    }
    assert(a@ =~= b@);
    true
}

/// The byte views of a sequence of principals.
pub open spec fn pview(v: Seq<Principal>) -> Seq<Seq<u8>> {
    v.map_values(|p: Principal| p@)
}

/// The (principal bytes, value) views of a sequence of map entries.
pub open spec fn eview(v: Seq<(Principal, u64)>) -> Seq<(Seq<u8>, u64)> {
    v.map_values(|e: (Principal, u64)| (e.0@, e.1))
}

/// The key views of a sequence of map entries.
pub open spec fn kview(v: Seq<(Principal, u64)>) -> Seq<Seq<u8>> {
    v.map_values(|e: (Principal, u64)| e.0@)
}

/// A vector of principals used as a set: no principal occurs twice.
pub open spec fn is_pset(v: Seq<Principal>) -> bool {
    pview(v).no_duplicates()
}

/// A vector of entries used as a map: no key occurs twice.
pub open spec fn is_pmap(v: Seq<(Principal, u64)>) -> bool {
    kview(v).no_duplicates()
}

/// Whether `p` is in the vector of principals.
pub fn contains_principal(v: &Vec<Principal>, p: &Principal) -> (r: bool)
    ensures
        r == pview(v@).contains(p@),
{
    let mut i: usize = 0;
    while i < v.len()
        invariant
            i <= v.len(),
            forall|k: int| 0 <= k < i ==> v@[k]@ != p@,
        decreases v.len() - i,
    {
        if principal_eq(&v[i], p) {
            assert(pview(v@)[i as int] == p@);
            return true;
        }
        i = i + 1;
    }
    assert(!pview(v@).contains(p@)) by {
        if pview(v@).contains(p@) {
            let k = choose|k: int| 0 <= k < pview(v@).len() && pview(v@)[k] == p@;
            assert(v@[k]@ == p@);
        }
    }
    false
}

/// Whether `p` is a key of the vector of entries.
pub fn contains_key(v: &Vec<(Principal, u64)>, p: &Principal) -> (r: bool)
    ensures
        r == kview(v@).contains(p@),
{
    let mut i: usize = 0;
    while i < v.len()
        invariant
            i <= v.len(),
            forall|k: int| 0 <= k < i ==> v@[k].0@ != p@,
        decreases v.len() - i,
    {
        if principal_eq(&v[i].0, p) {
            assert(kview(v@)[i as int] == p@);
            return true;
        }
        i = i + 1;
    }
    assert(!kview(v@).contains(p@)) by {
        if kview(v@).contains(p@) {
            let k = choose|k: int| 0 <= k < kview(v@).len() && kview(v@)[k] == p@;
            assert(v@[k].0@ == p@);
        }
    }
    false
}

/// A sequence with one more element holds exactly the old elements and the new one.
pub proof fn lemma_push_contains<A>(s: Seq<A>, a: A, x: A)
    ensures
        s.push(a).contains(x) <==> (s.contains(x) || x == a),
{
    if s.contains(x) {
        let k = choose|k: int| 0 <= k < s.len() && s[k] == x;
        assert(s.push(a)[k] == x);
    }
    if x == a {
        assert(s.push(a)[s.len() as int] == x);
    }
    if s.push(a).contains(x) {
        let k = choose|k: int| 0 <= k < s.push(a).len() && s.push(a)[k] == x;
        if k < s.len() {
            assert(s[k] == x);
        }
    }
}

/// The set of the given principals, each once, in the order of first occurrence.
pub fn dedup_principals(v: &Vec<Principal>) -> (r: Vec<Principal>)
    ensures
        is_pset(r@),
        forall|x: Seq<u8>| pview(r@).contains(x) <==> pview(v@).contains(x),
{
    let mut r: Vec<Principal> = Vec::new();
    let mut i: usize = 0;
    while i < v.len()
        invariant
            i <= v.len(),
            is_pset(r@),
            forall|x: Seq<u8>|
                pview(r@).contains(x) <==> pview(v@.subrange(0, i as int)).contains(x),
        decreases v.len() - i,
    {
        let p = &v[i];
        let ghost old_r = pview(r@);
        let ghost old_prefix = pview(v@.subrange(0, i as int));
        let found = contains_principal(&r, p);
        if !found {
            r.push(p.copy());
            assert(pview(r@) =~= old_r.push(p@));
        }
        assert(pview(v@.subrange(0, i + 1)) =~= old_prefix.push(p@));
        i = i + 1;
        assert forall|x: Seq<u8>|
            pview(r@).contains(x) <==> pview(v@.subrange(0, i as int)).contains(x) by {
            lemma_push_contains(old_prefix, p@, x);
            lemma_push_contains(old_r, p@, x);
        }
    }
    assert(v@.subrange(0, v.len() as int) =~= v@);
    r
}


/// Whether some principal of `a` is also in `b`.
pub fn intersects(a: &Vec<Principal>, b: &Vec<Principal>) -> (r: bool)
    ensures
        r == exists|x: Seq<u8>| pview(a@).contains(x) && pview(b@).contains(x),
{
    let mut i: usize = 0;
    while i < a.len()
        invariant
            i <= a.len(),
            forall|k: int| 0 <= k < i ==> !pview(b@).contains(#[trigger] a@[k]@),
        decreases a.len() - i,
    {
        if contains_principal(b, &a[i]) {
            assert(pview(a@)[i as int] == a@[i as int]@);
            assert(pview(a@).contains(a@[i as int]@));
            return true;
        }
        i = i + 1;
    }
    assert forall|x: Seq<u8>| !(pview(a@).contains(x) && pview(b@).contains(x)) by {
        if pview(a@).contains(x) {
            let k = choose|k: int| 0 <= k < pview(a@).len() && pview(a@)[k] == x;
            assert(a@[k]@ == x);
        }
    }
    false
}

/// The principals of `v` that are not in `drop`, in their order.
pub fn without_principals(v: &Vec<Principal>, drop: &Vec<Principal>) -> (r: Vec<Principal>)
    ensures
        forall|x: Seq<u8>|
            pview(r@).contains(x) <==> pview(v@).contains(x) && !pview(drop@).contains(x),
        is_pset(v@) ==> is_pset(r@),
{
    let mut r: Vec<Principal> = Vec::new();
    let mut i: usize = 0;
    while i < v.len()
        invariant
            i <= v.len(),
            forall|x: Seq<u8>|
                pview(r@).contains(x) <==> pview(v@.subrange(0, i as int)).contains(x)
                    && !pview(drop@).contains(x),
            is_pset(v@) ==> is_pset(r@),
        decreases v.len() - i,
    {
        let ghost old_r = pview(r@);
        let ghost old_prefix = pview(v@.subrange(0, i as int));
        let p = &v[i];
        assert(pview(v@.subrange(0, i + 1)) =~= old_prefix.push(p@));
        if !contains_principal(drop, p) {
            r.push(p.copy());
            assert(pview(r@) =~= old_r.push(p@));
            proof {
                if is_pset(v@) {
                    assert(!old_prefix.contains(p@)) by {
                        if old_prefix.contains(p@) {
                            let k = choose|k: int| 0 <= k < old_prefix.len() && old_prefix[k] == p@;
                            assert(pview(v@)[k] == pview(v@)[i as int]);
                        }
                    }
                    assert(!old_r.contains(p@));
                    assert forall|a: int, b: int|
                        0 <= a < b < pview(r@).len() implies pview(r@)[a] != pview(r@)[b] by {
                        if b == old_r.len() {
                            assert(old_r[a] == pview(r@)[a]);
                        }
                    }
                }
            }
        }
        i = i + 1;
        assert forall|x: Seq<u8>|
            pview(r@).contains(x) <==> pview(v@.subrange(0, i as int)).contains(x)
                && !pview(drop@).contains(x) by {
            lemma_push_contains(old_prefix, p@, x);
            lemma_push_contains(old_r, p@, x);
        }
    }
    assert(v@.subrange(0, v.len() as int) =~= v@);
    r
}

/// Principal-keyed entries of `v` whose key is not in `drop`, in their order.
pub fn without_keys(v: &Vec<(Principal, u64)>, drop: &Vec<Principal>) -> (r: Vec<(Principal, u64)>)
    ensures
        forall|e: (Seq<u8>, u64)|
            eview(r@).contains(e) <==> eview(v@).contains(e) && !pview(drop@).contains(e.0),
        forall|x: Seq<u8>|
            kview(r@).contains(x) <==> kview(v@).contains(x) && !pview(drop@).contains(x),
        is_pmap(v@) ==> is_pmap(r@),
{
    let mut r: Vec<(Principal, u64)> = Vec::new();
    let mut i: usize = 0;
    while i < v.len()
        invariant
            i <= v.len(),
            forall|e: (Seq<u8>, u64)|
                eview(r@).contains(e) <==> eview(v@.subrange(0, i as int)).contains(e)
                    && !pview(drop@).contains(e.0),
            forall|x: Seq<u8>|
                kview(r@).contains(x) <==> kview(v@.subrange(0, i as int)).contains(x)
                    && !pview(drop@).contains(x),
            is_pmap(v@) ==> is_pmap(r@),
        decreases v.len() - i,
    {
        let ghost old_r = eview(r@);
        let ghost old_rk = kview(r@);
        let ghost old_prefix = eview(v@.subrange(0, i as int));
        let ghost old_kprefix = kview(v@.subrange(0, i as int));
        let key = &v[i].0;
        let val = v[i].1;
        let ghost e = (key@, val);
        assert(eview(v@.subrange(0, i + 1)) =~= old_prefix.push(e));
        assert(kview(v@.subrange(0, i + 1)) =~= old_kprefix.push(key@));
        if !contains_principal(drop, key) {
            r.push((key.copy(), val));
            assert(eview(r@) =~= old_r.push(e));
            assert(kview(r@) =~= old_rk.push(key@));
            proof {
                if is_pmap(v@) {
                    assert(!old_kprefix.contains(key@)) by {
                        if old_kprefix.contains(key@) {
                            let k = choose|k: int|
                                0 <= k < old_kprefix.len() && old_kprefix[k] == key@;
                            assert(kview(v@)[k] == kview(v@)[i as int]);
                        }
                    }
                    assert(!old_rk.contains(key@));
                    assert forall|a: int, b: int|
                        0 <= a < b < kview(r@).len() implies kview(r@)[a] != kview(r@)[b] by {
                        if b == old_rk.len() {
                            assert(old_rk[a] == kview(r@)[a]);
                        }
                    }
                }
            }
        }
        i = i + 1;
        assert forall|x: (Seq<u8>, u64)|
            eview(r@).contains(x) <==> eview(v@.subrange(0, i as int)).contains(x)
                && !pview(drop@).contains(x.0) by {
            lemma_push_contains(old_prefix, e, x);
            lemma_push_contains(old_r, e, x);
        }
        assert forall|x: Seq<u8>|
            kview(r@).contains(x) <==> kview(v@.subrange(0, i as int)).contains(x)
                && !pview(drop@).contains(x) by {
            lemma_push_contains(old_kprefix, key@, x);
            lemma_push_contains(old_rk, key@, x);
        }
    }
    assert(v@.subrange(0, v.len() as int) =~= v@);
    r
}

/// Adds each principal of `add` that is not yet a key of `v` as a new entry
/// with value 0; existing entries keep their values.
pub fn insert_missing_keys(v: &mut Vec<(Principal, u64)>, add: &Vec<Principal>)
    ensures
        forall|e: (Seq<u8>, u64)|
            eview(old(v)@).contains(e) ==> eview(final(v)@).contains(e),
        forall|e: (Seq<u8>, u64)|
            eview(final(v)@).contains(e) ==> eview(old(v)@).contains(e) || (e.1 == 0
                && pview(add@).contains(e.0) && !kview(old(v)@).contains(e.0)),
        kview(final(v)@).to_set() == kview(old(v)@).to_set().union(pview(add@).to_set()),
        is_pmap(old(v)@) ==> is_pmap(final(v)@),
{
    let mut i: usize = 0;
    while i < add.len()
        invariant
            i <= add.len(),
            forall|e: (Seq<u8>, u64)|
                eview(old(v)@).contains(e) ==> eview(v@).contains(e),
            forall|e: (Seq<u8>, u64)|
                eview(v@).contains(e) ==> eview(old(v)@).contains(e) || (e.1 == 0
                    && pview(add@).contains(e.0) && !kview(old(v)@).contains(e.0)),
            forall|x: Seq<u8>|
                kview(v@).contains(x) <==> kview(old(v)@).contains(x) || pview(
                    add@.subrange(0, i as int),
                ).contains(x),
            is_pmap(old(v)@) ==> is_pmap(v@),
        decreases add.len() - i,
    {
        let p = &add[i];
        let ghost old_e = eview(v@);
        let ghost old_k = kview(v@);
        let ghost old_prefix = pview(add@.subrange(0, i as int));
        assert(pview(add@.subrange(0, i + 1)) =~= old_prefix.push(p@));
        assert(pview(add@)[i as int] == p@);
        if !contains_key(v, p) {
            v.push((p.copy(), 0u64));
            assert(eview(v@) =~= old_e.push((p@, 0u64)));
            assert(kview(v@) =~= old_k.push(p@));
            proof {
                assert forall|e: (Seq<u8>, u64)|
                    eview(old(v)@).contains(e) implies eview(v@).contains(e) by {
                    lemma_push_contains(old_e, (p@, 0u64), e);
                }
                assert forall|e: (Seq<u8>, u64)| eview(v@).contains(e) implies eview(
                    old(v)@,
                ).contains(e) || (e.1 == 0 && pview(add@).contains(e.0) && !kview(
                    old(v)@,
                ).contains(e.0)) by {
                    lemma_push_contains(old_e, (p@, 0u64), e);
                }
                if is_pmap(old(v)@) {
                    assert forall|a: int, b: int|
                        0 <= a < b < kview(v@).len() implies kview(v@)[a] != kview(v@)[b] by {
                        if b == old_k.len() {
                            assert(old_k[a] == kview(v@)[a]);
                        }
                    }
                }
            }
        }
        i = i + 1;
        assert forall|x: Seq<u8>|
            kview(v@).contains(x) <==> kview(old(v)@).contains(x) || pview(
                add@.subrange(0, i as int),
            ).contains(x) by {
            lemma_push_contains(old_prefix, p@, x);
            lemma_push_contains(old_k, p@, x);
        }
    }
    assert(add@.subrange(0, add.len() as int) =~= add@);
    assert(kview(v@).to_set() =~= kview(old(v)@).to_set().union(pview(add@).to_set()));
}

} // verus!
