//! Association lists of 32-byte addresses, viewed as finite maps.
//!
//! Both persistent stores of the escrow system — the value ledger's
//! accounts and the table of escrow records — are vectors of
//! `(address, value)` pairs whose addresses never repeat.  This module
//! gives such a list its mathematical meaning as a `Map` and proves how
//! the list operations act on that map.

use vstd::prelude::*;

verus! {

/// The finite map denoted by an association list: the value of each
/// address is the value of its last entry.
pub open spec fn kv_map<V>(s: Seq<([u8; 32], V)>) -> Map<Seq<u8>, V>
    decreases s.len(),
{
    if s.len() == 0 {
        Map::empty()
    } else {
        kv_map(s.drop_last()).insert(s.last().0@, s.last().1)
    }
}

/// No two entries share an address.
pub open spec fn kv_distinct<V>(s: Seq<([u8; 32], V)>) -> bool {
    forall|i: int, j: int| 0 <= i < j < s.len() ==> s[i].0@ != s[j].0@
}

/// The map holds an address exactly when some entry holds it.
pub proof fn lemma_kv_contains<V>(s: Seq<([u8; 32], V)>, k: Seq<u8>)
    ensures
        kv_map(s).contains_key(k) <==> (exists|i: int| 0 <= i < s.len() && s[i].0@ == k),
    decreases s.len(),
{
    if s.len() > 0 {
        let s0 = s.drop_last();
        lemma_kv_contains(s0, k);
        if kv_map(s).contains_key(k) {
            if s.last().0@ == k {
                assert(s[s.len() - 1].0@ == k);
            } else {
                let i = choose|i: int| 0 <= i < s0.len() && s0[i].0@ == k;
                assert(s[i].0@ == k);
            }
        }
        if exists|i: int| 0 <= i < s.len() && s[i].0@ == k {
            let i = choose|i: int| 0 <= i < s.len() && s[i].0@ == k;
            if i < s.len() - 1 {
                assert(s0[i].0@ == k);
            }
        }
    }
}

/// In a distinct list, each entry gives its address's value in the map.
pub proof fn lemma_kv_index<V>(s: Seq<([u8; 32], V)>, i: int)
    requires
        kv_distinct(s),
        0 <= i < s.len(),
    ensures
        kv_map(s).contains_key(s[i].0@),
        kv_map(s)[s[i].0@] == s[i].1,
    decreases s.len(),
{
    let s0 = s.drop_last();
    if i < s.len() - 1 {
        assert(kv_distinct(s0)) by {
            assert(forall|p: int, q: int|
                0 <= p < q < s0.len() ==> s0[p].0@ != s0[q].0@) by {
                assert(forall|p: int| 0 <= p < s0.len() ==> s0[p] == s[p]);
            }
        }
        lemma_kv_index(s0, i);
        assert(s.last().0@ != s[i].0@);
    }
}

/// Replacing the value at an entry inserts into the map.
pub proof fn lemma_kv_update<V>(s: Seq<([u8; 32], V)>, i: int, v: V)
    requires
        kv_distinct(s),
        0 <= i < s.len(),
    ensures
        kv_map(s.update(i, (s[i].0, v))) == kv_map(s).insert(s[i].0@, v),
        kv_distinct(s.update(i, (s[i].0, v))),
    decreases s.len(),
{
    let t = s.update(i, (s[i].0, v));
    let k = s[i].0@;
    assert(kv_distinct(t)) by {
        assert(forall|p: int| 0 <= p < t.len() ==> t[p].0@ == s[p].0@);
    }
    let s0 = s.drop_last();
    if i == s.len() - 1 {
        assert(t.drop_last() =~= s0);
        assert(kv_map(t) == kv_map(s0).insert(k, v));
        assert(kv_map(s0).insert(k, s[i].1).insert(k, v) =~= kv_map(s0).insert(k, v));
    } else {
        assert(kv_distinct(s0)) by {
            assert(forall|p: int| 0 <= p < s0.len() ==> s0[p] == s[p]);
        }
        lemma_kv_update(s0, i, v);
        assert(t.drop_last() =~= s0.update(i, (s0[i].0, v)));
        assert(t.last() == s.last());
        let lk = s.last().0@;
        assert(lk != k);
        assert(kv_map(s0).insert(k, v).insert(lk, s.last().1)
            =~= kv_map(s0).insert(lk, s.last().1).insert(k, v));
    }
}

/// Removing an entry removes its address from the map.
pub proof fn lemma_kv_remove<V>(s: Seq<([u8; 32], V)>, i: int)
    requires
        kv_distinct(s),
        0 <= i < s.len(),
    ensures
        kv_map(s.remove(i)) == kv_map(s).remove(s[i].0@),
        kv_distinct(s.remove(i)),
    decreases s.len(),
{
    let t = s.remove(i);
    let k = s[i].0@;
    s.remove_ensures(i);
    assert(kv_distinct(t)) by {
        assert forall|p: int, q: int| 0 <= p < q < t.len() implies t[p].0@ != t[q].0@ by {
            let p1: int = if p < i { p } else { p + 1 };
            let q1: int = if q < i { q } else { q + 1 };
            assert(t[p] == s[p1] && t[q] == s[q1]);
        }
    }
    let s0 = s.drop_last();
    if i == s.len() - 1 {
        assert(t =~= s0);
        lemma_kv_contains(s0, k);
        assert(forall|p: int| 0 <= p < s0.len() ==> s0[p] == s[p]);
        assert(!kv_map(s0).contains_key(k));
        assert(kv_map(s0).insert(k, s.last().1).remove(k) =~= kv_map(s0));
    } else {
        assert(kv_distinct(s0)) by {
            assert(forall|p: int| 0 <= p < s0.len() ==> s0[p] == s[p]);
        }
        lemma_kv_remove(s0, i);
        assert(t.drop_last() =~= s0.remove(i));
        assert(t.last() == s.last());
        let lk = s.last().0@;
        assert(lk != k);
        assert(kv_map(s0).remove(k).insert(lk, s.last().1)
            =~= kv_map(s0).insert(lk, s.last().1).remove(k));
    }
}

/// Appending an entry with a fresh address inserts into the map.
pub proof fn lemma_kv_push<V>(s: Seq<([u8; 32], V)>, a: [u8; 32], v: V)
    requires
        kv_distinct(s),
        !kv_map(s).contains_key(a@),
    ensures
        kv_map(s.push((a, v))) == kv_map(s).insert(a@, v),
        kv_distinct(s.push((a, v))),
{
    let t = s.push((a, v));
    lemma_kv_contains(s, a@);
    assert(kv_distinct(t)) by {
        assert(forall|p: int| 0 <= p < s.len() ==> t[p] == s[p]);
    }
    assert(t.drop_last() =~= s);
    assert(t.last() == (a, v));
}

/// Byte-for-byte equality of two addresses.
pub fn addr_eq(a: &[u8; 32], b: &[u8; 32]) -> (r: bool)
    ensures
        r == (a@ == b@),
{
    let mut i: usize = 0;
    while i < 32
        invariant
            0 <= i <= 32,
            forall|j: int| 0 <= j < i ==> a@[j] == b@[j],
        decreases 32 - i,
    {
        if a[i] != b[i] {
            return false;
        }
        i += 1;
    }
    proof {
        assert(a@ =~= b@);
    }
    true
}

} // verus!
