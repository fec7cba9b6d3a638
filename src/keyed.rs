//! Tables of entries with distinct request ids, seen as maps.
use vstd::prelude::*;
use crate::message::IdKey;

verus! {

/// The map that a sequence of entries stands for.
pub open spec fn keyed<V>(s: Seq<(IdKey, V)>) -> Map<IdKey, V>
    decreases s.len(),
{
    if s.len() == 0 {
        Map::empty()
    } else {
        keyed(s.drop_last()).insert(s.last().0, s.last().1)
    }
}

/// No two entries share an id.
pub open spec fn unique_keys<V>(s: Seq<(IdKey, V)>) -> bool {
    forall|i: int, j: int| 0 <= i < s.len() && 0 <= j < s.len() && s[i].0 == s[j].0 ==> i == j
}

/// Some entry has the id `k`.
pub open spec fn has_key<V>(s: Seq<(IdKey, V)>, k: IdKey) -> bool {
    exists|i: int| 0 <= i < s.len() && s[i].0 == k
}

pub proof fn lemma_keyed_domain<V>(s: Seq<(IdKey, V)>, k: IdKey)
    ensures
        keyed(s).contains_key(k) == has_key(s, k),
    decreases s.len(),
{
    if s.len() > 0 {
        let p = s.drop_last();
        lemma_keyed_domain(p, k);
        if has_key(p, k) {
            let i = choose|i: int| 0 <= i < p.len() && p[i].0 == k;
            assert(s[i].0 == k);
        }
        if has_key(s, k) && s.last().0 != k {
            let i = choose|i: int| 0 <= i < s.len() && s[i].0 == k;
            assert(i < s.len() - 1);
            assert(p[i].0 == k);
        }
    }
}

pub proof fn lemma_keyed_at<V>(s: Seq<(IdKey, V)>, i: int)
    requires
        unique_keys(s),
        0 <= i < s.len(),
    ensures
        keyed(s).contains_key(s[i].0),
        keyed(s)[s[i].0] == s[i].1,
    decreases s.len(),
{
    if i < s.len() - 1 {
        let p = s.drop_last();
        assert(unique_keys(p));
        assert(p[i] == s[i]);
        lemma_keyed_at(p, i);
        assert(s.last().0 != s[i].0);
    }
}

pub proof fn lemma_keyed_push<V>(s: Seq<(IdKey, V)>, k: IdKey, v: V)
    requires
        unique_keys(s),
        !has_key(s, k),
    ensures
        keyed(s.push((k, v))) == keyed(s).insert(k, v),
        unique_keys(s.push((k, v))),
{
    assert(s.push((k, v)).drop_last() =~= s);
    let t = s.push((k, v));
    assert forall|i: int, j: int| 0 <= i < t.len() && 0 <= j < t.len() && t[i].0 == t[j].0 implies i == j by {
        if i < s.len() && j == s.len() {
            assert(s[i].0 == k);
        } else if j < s.len() && i == s.len() {
            assert(s[j].0 == k);
        }
    }
}

pub proof fn lemma_keyed_remove<V>(s: Seq<(IdKey, V)>, i: int)
    requires
        unique_keys(s),
        0 <= i < s.len(),
    ensures
        keyed(s.remove(i)) == keyed(s).remove(s[i].0),
        unique_keys(s.remove(i)),
    decreases s.len(),
{
    let k = s[i].0;
    let p = s.drop_last();
    let r = s.remove(i);
    assert(unique_keys(p));
    assert forall|a: int, b: int| 0 <= a < r.len() && 0 <= b < r.len() && r[a].0 == r[b].0 implies a == b by {
        let sa = if a < i { a } else { a + 1 };
        let sb = if b < i { b } else { b + 1 };
        assert(r[a] == s[sa]);
        assert(r[b] == s[sb]);
    }
    if i == s.len() - 1 {
        assert(r =~= p);
        lemma_keyed_domain(p, k);
        if has_key(p, k) {
            let j = choose|j: int| 0 <= j < p.len() && p[j].0 == k;
            assert(s[j].0 == k);
        }
        assert(keyed(r) =~= keyed(s).remove(k));
    } else {
        lemma_keyed_remove(p, i);
        assert(p[i] == s[i]);
        assert(r =~= p.remove(i).push(s.last()));
        assert(r.drop_last() =~= p.remove(i));
        assert(s.last().0 != k);
        assert(keyed(r) =~= keyed(s).remove(k));
    }
}

} // verus!
