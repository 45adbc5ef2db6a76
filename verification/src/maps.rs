//! A small association map with unique keys, used for attribute sets and per-object state.

use vstd::prelude::*;

verus! {

/// The mathematical identity of a map key: an integer part and a text part.
pub type KeyView = (int, Seq<char>);

/// Keys that can be compared by their mathematical identity.
pub trait MapKey: Sized {
    spec fn key_view(&self) -> KeyView;

    fn same_key(&self, other: &Self) -> (r: bool)
        ensures
            r == (self.key_view() == other.key_view()),
    ;
}

impl MapKey for u64 {
    open spec fn key_view(&self) -> KeyView {
        (*self as int, Seq::empty())
    }

    fn same_key(&self, other: &Self) -> (r: bool) {
        *self == *other
    }
}

impl MapKey for u32 {
    open spec fn key_view(&self) -> KeyView {
        (*self as int, Seq::empty())
    }

    fn same_key(&self, other: &Self) -> (r: bool) {
        *self == *other
    }
}

/// Values that can be copied exactly
pub trait Duplicate: Sized {
    fn duplicate(&self) -> (r: Self)
        ensures
            r == *self,
    ;
}

/// No two entries share a key
pub open spec fn keys_unique<K: MapKey, V>(s: Seq<(K, V)>) -> bool {
    forall|i: int, j: int|
        0 <= i < s.len() && 0 <= j < s.len() && i != j ==> #[trigger] s[i].0.key_view()
            != #[trigger] s[j].0.key_view()
}

pub open spec fn has_key<K: MapKey, V>(s: Seq<(K, V)>, k: KeyView) -> bool {
    exists|i: int| 0 <= i < s.len() && #[trigger] s[i].0.key_view() == k
}

pub open spec fn index_of_key<K: MapKey, V>(s: Seq<(K, V)>, k: KeyView) -> int {
    choose|i: int| 0 <= i < s.len() && #[trigger] s[i].0.key_view() == k
}

/// The map that a sequence of entries with unique keys stands for
pub open spec fn entries_to_map<K: MapKey, V>(s: Seq<(K, V)>) -> Map<KeyView, V> {
    Map::new(|k: KeyView| has_key(s, k), |k: KeyView| s[index_of_key(s, k)].1)
}

pub proof fn lemma_index_of_key<K: MapKey, V>(s: Seq<(K, V)>, i: int)
    requires
        keys_unique(s),
        0 <= i < s.len(),
    ensures
        has_key(s, s[i].0.key_view()),
        index_of_key(s, s[i].0.key_view()) == i,
        entries_to_map(s).contains_key(s[i].0.key_view()),
        entries_to_map(s)[s[i].0.key_view()] == s[i].1,
{
    let k = s[i].0.key_view();
    assert(has_key(s, k));
    let j = index_of_key(s, k);
    assert(s[j].0.key_view() == k);
}

/// A map from keys to values held as a vector of entries with unique keys.
pub struct AssocMap<K, V> {
    items: Vec<(K, V)>,
}

impl<K: MapKey, V> AssocMap<K, V> {
    pub closed spec fn entries(&self) -> Seq<(K, V)> {
        self.items@
    }

    pub open spec fn wf(&self) -> bool {
        keys_unique(self.entries())
    }

    pub open spec fn view(&self) -> Map<KeyView, V> {
        entries_to_map(self.entries())
    }

    pub fn new() -> (r: Self)
        ensures
            r.wf(),
            r@ == Map::<KeyView, V>::empty(),
            r.entries().len() == 0,
    {
        let r = AssocMap { items: Vec::new() };
        assert(r@ =~= Map::<KeyView, V>::empty());
        r
    }

    pub fn len(&self) -> (r: usize)
        ensures
            r == self.entries().len(),
    {
        self.items.len()
    }

    /// The entries in storage order
    pub fn as_slice(&self) -> (r: &[(K, V)])
        ensures
            r@ == self.entries(),
    {
        self.items.as_slice()
    }

    pub fn find(&self, k: &K) -> (r: Option<usize>)
        requires
            self.wf(),
        ensures
            match r {
                Some(i) => i < self.entries().len() && self.entries()[i as int].0.key_view()
                    == k.key_view(),
                None => !self@.contains_key(k.key_view()),
            },
    {
        let mut i: usize = 0;
        while i < self.items.len()
            invariant
                i <= self.items@.len(),
                forall|j: int| 0 <= j < i ==> #[trigger] self.items@[j].0.key_view() != k.key_view(),
            decreases self.items@.len() - i,
        {
            if self.items[i].0.same_key(k) {
                return Some(i);
            }
            i = i + 1;
        }
        None
    }

    pub fn contains_key(&self, k: &K) -> (r: bool)
        requires
            self.wf(),
        ensures
            r == self@.contains_key(k.key_view()),
    {
        match self.find(k) {
            Some(i) => {
                proof {
                    lemma_index_of_key(self.entries(), i as int);
                }
                true
            },
            None => false,
        }
    }

    pub fn get(&self, k: &K) -> (r: Option<&V>)
        requires
            self.wf(),
        ensures
            match r {
                Some(v) => self@.contains_key(k.key_view()) && self@[k.key_view()] == *v,
                None => !self@.contains_key(k.key_view()),
            },
    {
        match self.find(k) {
            Some(i) => {
                proof {
                    lemma_index_of_key(self.entries(), i as int);
                }
                Some(&self.items[i].1)
            },
            None => None,
        }
    }

    /// Inserts or replaces the value under `k`
    pub fn insert(&mut self, k: K, v: V)
        requires
            old(self).wf(),
        ensures
            final(self).wf(),
            final(self)@ == old(self)@.insert(k.key_view(), v),
    {
        let ghost kv = k.key_view();
        let ghost old_s = self.entries();
        match self.find(&k) {
            Some(i) => {
                self.items.set(i, (k, v));
                let ghost s = self.entries();
                assert(s == old_s.update(i as int, s[i as int]));
                assert(keys_unique(s)) by {
                    assert forall|a: int, b: int|
                        0 <= a < s.len() && 0 <= b < s.len() && a != b implies #[trigger] s[a].0.key_view()
                        != #[trigger] s[b].0.key_view() by {
                        if a != i as int && b != i as int {
                            assert(s[a] == old_s[a] && s[b] == old_s[b]);
                        } else if a == i as int {
                            assert(s[b] == old_s[b]);
                            assert(old_s[a].0.key_view() != old_s[b].0.key_view());
                        } else {
                            assert(s[a] == old_s[a]);
                            assert(old_s[a].0.key_view() != old_s[b].0.key_view());
                        }
                    }
                }
                assert(self@ =~= old(self)@.insert(kv, v)) by {
                    lemma_index_of_key(s, i as int);
                    assert forall|q: KeyView| #[trigger] self@.contains_key(q) <==> old(self)@.insert(
                        kv,
                        v,
                    ).contains_key(q) by {
                        if has_key(s, q) {
                            let j = choose|j: int| 0 <= j < s.len() && #[trigger] s[j].0.key_view() == q;
                            if j != i as int {
                                assert(old_s[j] == s[j]);
                                assert(has_key(old_s, q));
                            }
                        }
                        if has_key(old_s, q) && q != kv {
                            let j = choose|j: int| 0 <= j < old_s.len() && #[trigger] old_s[j].0.key_view() == q;
                            assert(j != i as int);
                            assert(s[j] == old_s[j]);
                            assert(has_key(s, q));
                        }
                    }
                    assert forall|q: KeyView| #[trigger] self@.contains_key(q) implies self@[q]
                        == old(self)@.insert(kv, v)[q] by {
                        if q != kv {
                            let j = choose|j: int| 0 <= j < s.len() && #[trigger] s[j].0.key_view() == q;
                            assert(j != i as int);
                            assert(s[j] == old_s[j]);
                            lemma_index_of_key(s, j);
                            lemma_index_of_key(old_s, j);
                        }
                    }
                }
            },
            None => {
                self.items.push((k, v));
                let ghost s = self.entries();
                assert(s == old_s.push((k, v)));
                assert(keys_unique(s)) by {
                    assert forall|a: int, b: int|
                        0 <= a < s.len() && 0 <= b < s.len() && a != b implies #[trigger] s[a].0.key_view()
                        != #[trigger] s[b].0.key_view() by {
                        if a < old_s.len() && b < old_s.len() {
                            assert(s[a] == old_s[a] && s[b] == old_s[b]);
                        } else if a < old_s.len() {
                            assert(s[a] == old_s[a]);
                            assert(!has_key(old_s, kv));
                        } else {
                            assert(s[b] == old_s[b]);
                            assert(!has_key(old_s, kv));
                        }
                    }
                }
                assert(self@ =~= old(self)@.insert(kv, v)) by {
                    lemma_index_of_key(s, old_s.len() as int);
                    assert forall|q: KeyView| #[trigger] self@.contains_key(q) <==> old(self)@.insert(
                        kv,
                        v,
                    ).contains_key(q) by {
                        if has_key(s, q) && q != kv {
                            let j = choose|j: int| 0 <= j < s.len() && #[trigger] s[j].0.key_view() == q;
                            assert(j < old_s.len());
                            assert(old_s[j] == s[j]);
                            assert(has_key(old_s, q));
                        }
                        if has_key(old_s, q) {
                            let j = choose|j: int| 0 <= j < old_s.len() && #[trigger] old_s[j].0.key_view() == q;
                            assert(s[j] == old_s[j]);
                            assert(has_key(s, q));
                        }
                    }
                    assert forall|q: KeyView| #[trigger] self@.contains_key(q) implies self@[q]
                        == old(self)@.insert(kv, v)[q] by {
                        if q != kv {
                            let j = choose|j: int| 0 <= j < s.len() && #[trigger] s[j].0.key_view() == q;
                            assert(j < old_s.len());
                            assert(s[j] == old_s[j]);
                            lemma_index_of_key(s, j);
                            lemma_index_of_key(old_s, j);
                        }
                    }
                }
            },
        }
    }

    /// Removes the value under `k`, returning it when present
    pub fn remove(&mut self, k: &K) -> (r: Option<V>)
        requires
            old(self).wf(),
        ensures
            final(self).wf(),
            final(self)@ == old(self)@.remove(k.key_view()),
            match r {
                Some(v) => old(self)@.contains_key(k.key_view()) && old(self)@[k.key_view()] == v,
                None => !old(self)@.contains_key(k.key_view()) && *final(self) == *old(self),
            },
    {
        let ghost kv = k.key_view();
        let ghost old_s = self.entries();
        match self.find(k) {
            Some(i) => {
                proof {
                    lemma_index_of_key(old_s, i as int);
                }
                let (_, v) = self.items.remove(i);
                let ghost s = self.entries();
                assert(s == old_s.remove(i as int));
                assert(forall|j: int| 0 <= j < i ==> s[j] == old_s[j]);
                assert(forall|j: int| i <= j < s.len() ==> s[j] == old_s[j + 1]);
                assert(keys_unique(s)) by {
                    assert forall|a: int, b: int|
                        0 <= a < s.len() && 0 <= b < s.len() && a != b implies #[trigger] s[a].0.key_view()
                        != #[trigger] s[b].0.key_view() by {
                        let oa = if a < i { a } else { a + 1 };
                        let ob = if b < i { b } else { b + 1 };
                        assert(s[a] == old_s[oa] && s[b] == old_s[ob]);
                        assert(old_s[oa].0.key_view() != old_s[ob].0.key_view());
                    }
                }
                assert(self@ =~= old(self)@.remove(kv)) by {
                    assert forall|q: KeyView| #[trigger] self@.contains_key(q) <==> old(self)@.remove(
                        kv,
                    ).contains_key(q) by {
                        if has_key(s, q) {
                            let j = choose|j: int| 0 <= j < s.len() && #[trigger] s[j].0.key_view() == q;
                            let oj = if j < i { j } else { j + 1 };
                            assert(s[j] == old_s[oj]);
                            assert(has_key(old_s, q));
                            assert(oj != i as int);
                        }
                        if has_key(old_s, q) && q != kv {
                            let j = choose|j: int| 0 <= j < old_s.len() && #[trigger] old_s[j].0.key_view() == q;
                            assert(j != i as int);
                            let sj = if j < i { j } else { j - 1 };
                            assert(s[sj] == old_s[j]);
                            assert(has_key(s, q));
                        }
                    }
                    assert forall|q: KeyView| #[trigger] self@.contains_key(q) implies self@[q]
                        == old(self)@.remove(kv)[q] by {
                        let j = choose|j: int| 0 <= j < s.len() && #[trigger] s[j].0.key_view() == q;
                        let oj = if j < i { j } else { j + 1 };
                        assert(s[j] == old_s[oj]);
                        lemma_index_of_key(s, j);
                        lemma_index_of_key(old_s, oj);
                    }
                }
                Some(v)
            },
            None => {
                assert(old(self)@.remove(kv) =~= old(self)@);
                None
            },
        }
    }
}

impl<K: MapKey + Duplicate, V: Duplicate> AssocMap<K, V> {
    /// An exact copy of the map
    pub fn duplicate(&self) -> (r: Self)
        ensures
            r.entries() == self.entries(),
    {
        let mut items: Vec<(K, V)> = Vec::new();
        let mut i: usize = 0;
        while i < self.items.len()
            invariant
                i <= self.items@.len(),
                items@ == self.items@.subrange(0, i as int),
            decreases self.items@.len() - i,
        {
            let k = self.items[i].0.duplicate();
            let v = self.items[i].1.duplicate();
            items.push((k, v));
            i = i + 1;
            assert(items@ =~= self.items@.subrange(0, i as int));
        }
        assert(items@ =~= self.items@);
        AssocMap { items }
    }
}

impl<K: MapKey + Duplicate, V> AssocMap<K, V> {
    /// Replaces the value of the entry at position `i`
    pub fn set_value_at(&mut self, i: usize, v: V)
        requires
            old(self).wf(),
            i < old(self).entries().len(),
        ensures
            final(self).wf(),
            final(self).entries() == old(self).entries().update(
                i as int,
                (old(self).entries()[i as int].0, v),
            ),
    {
        let k = self.items[i].0.duplicate();
        self.items.set(i, (k, v));
        let ghost s = self.items@;
        let ghost o = old(self).items@;
        assert forall|a: int, b: int|
            0 <= a < s.len() && 0 <= b < s.len() && a != b implies #[trigger] s[a].0.key_view()
            != #[trigger] s[b].0.key_view() by {
            assert(s[a].0 == o[a].0 && s[b].0 == o[b].0);
            assert(o[a].0.key_view() != o[b].0.key_view());
        }
    }
}

/// Entries with the same keys, each value mapped by `f`, stand for the map with its
/// values mapped by `f`
pub proof fn lemma_entries_map_values<K: MapKey, V>(s: Seq<(K, V)>, s2: Seq<(K, V)>, f: spec_fn(V) -> V)
    requires
        keys_unique(s),
        s2.len() == s.len(),
        forall|j: int| 0 <= j < s.len() ==> #[trigger] s2[j] == (s[j].0, f(s[j].1)),
    ensures
        keys_unique(s2),
        entries_to_map(s2) == entries_to_map(s).map_values(f),
{
    assert forall|a: int, b: int|
        0 <= a < s2.len() && 0 <= b < s2.len() && a != b implies #[trigger] s2[a].0.key_view()
        != #[trigger] s2[b].0.key_view() by {
        assert(s2[a].0 == s[a].0 && s2[b].0 == s[b].0);
        assert(s[a].0.key_view() != s[b].0.key_view());
    }
    let m = entries_to_map(s);
    let m2 = entries_to_map(s2);
    assert forall|k: KeyView| #[trigger] m2.contains_key(k) <==> m.contains_key(k) by {
        if has_key(s2, k) {
            let j = choose|j: int| 0 <= j < s2.len() && #[trigger] s2[j].0.key_view() == k;
            assert(s2[j].0 == s[j].0);
            assert(has_key(s, k));
        }
        if has_key(s, k) {
            let j = choose|j: int| 0 <= j < s.len() && #[trigger] s[j].0.key_view() == k;
            assert(s2[j].0 == s[j].0);
            assert(has_key(s2, k));
        }
    }
    assert forall|k: KeyView| #[trigger] m2.contains_key(k) implies m2[k] == f(m[k]) by {
        let j = choose|j: int| 0 <= j < s2.len() && #[trigger] s2[j].0.key_view() == k;
        assert(s2[j].0 == s[j].0);
        lemma_index_of_key(s, j);
        lemma_index_of_key(s2, j);
    }
    assert(m2 =~= m.map_values(f));
}

} // verus!
