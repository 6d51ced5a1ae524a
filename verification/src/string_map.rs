use vstd::prelude::*;

verus! {

broadcast use vstd::map::group_map_axioms, vstd::set::group_set_axioms;

/// The map that a list of entries denotes: later entries override earlier
/// ones with the same key.
pub open spec fn entries_map<V>(e: Seq<(String, V)>) -> Map<Seq<char>, V>
    decreases e.len(),
{
    if e.len() == 0 {
        Map::empty()
    } else {
        entries_map(e.drop_last()).insert(e.last().0@, e.last().1)
    }
}

/// No key occurs twice among the entries.
pub open spec fn keys_distinct<V>(e: Seq<(String, V)>) -> bool {
    forall|i: int, j: int| 0 <= i < j < e.len() ==> (#[trigger] e[i]).0@ != (#[trigger] e[j]).0@
}

/// The entries restricted to those whose value satisfies `keep`.
pub open spec fn restrict<V>(m: Map<Seq<char>, V>, keep: spec_fn(V) -> bool) -> Map<Seq<char>, V> {
    Map::new(|k: Seq<char>| m.contains_key(k) && keep(m[k]), |k: Seq<char>| m[k])
}

proof fn lemma_distinct_prefix<V>(e: Seq<(String, V)>)
    requires
        keys_distinct(e),
        e.len() > 0,
    ensures
        keys_distinct(e.drop_last()),
{
    let d = e.drop_last();
    assert forall|i: int, j: int| 0 <= i < j < d.len() implies (#[trigger] d[i]).0@ != (#[trigger] d[j]).0@ by {
        assert(d[i] == e[i] && d[j] == e[j]);
    }
}

/// A key absent from every entry is absent from the map.
proof fn lemma_absent<V>(e: Seq<(String, V)>, k: Seq<char>)
    requires
        forall|i: int| 0 <= i < e.len() ==> (#[trigger] e[i]).0@ != k,
    ensures
        !entries_map(e).contains_key(k),
    decreases e.len(),
{
    if e.len() > 0 {
        let d = e.drop_last();
        assert forall|i: int| 0 <= i < d.len() implies (#[trigger] d[i]).0@ != k by {
            assert(d[i] == e[i]);
        }
        lemma_absent(d, k);
        assert(e.last() == e[e.len() - 1]);
    }
}

/// Every entry of a list with distinct keys is found in the map.
proof fn lemma_present<V>(e: Seq<(String, V)>, i: int)
    requires
        keys_distinct(e),
        0 <= i < e.len(),
    ensures
        entries_map(e).contains_key(e[i].0@),
        entries_map(e)[e[i].0@] == e[i].1,
    decreases e.len(),
{
    let n = e.len() - 1;
    if i < n {
        let d = e.drop_last();
        lemma_distinct_prefix(e);
        lemma_present(d, i);
        assert(d[i] == e[i]);
        assert(e[i].0@ != e[n].0@);
    }
}

/// A key of the map occurs in some entry.
proof fn lemma_key_has_entry<V>(e: Seq<(String, V)>, k: Seq<char>)
    requires
        entries_map(e).contains_key(k),
    ensures
        exists|i: int| 0 <= i < e.len() && (#[trigger] e[i]).0@ == k,
{
    if forall|i: int| 0 <= i < e.len() ==> (#[trigger] e[i]).0@ != k {
        lemma_absent(e, k);
    }
}

proof fn lemma_update<V>(e: Seq<(String, V)>, i: int, x: (String, V))
    requires
        keys_distinct(e),
        0 <= i < e.len(),
        e[i].0@ == x.0@,
    ensures
        keys_distinct(e.update(i, x)),
        entries_map(e.update(i, x)) =~= entries_map(e).insert(x.0@, x.1),
    decreases e.len(),
{
    let u = e.update(i, x);
    assert forall|a: int, b: int| 0 <= a < b < u.len() implies (#[trigger] u[a]).0@ != (#[trigger] u[b]).0@ by {
        assert(e[a].0@ != e[b].0@);
    }
    let n = e.len() - 1;
    let d = e.drop_last();
    if i == n {
        assert(u.drop_last() =~= d);
    } else {
        lemma_distinct_prefix(e);
        assert(u.drop_last() =~= d.update(i, x));
        lemma_update(d, i, x);
        assert(e[i].0@ != e[n].0@);
        assert(u.last() == e.last());
    }
}

proof fn lemma_remove<V>(e: Seq<(String, V)>, i: int)
    requires
        keys_distinct(e),
        0 <= i < e.len(),
    ensures
        keys_distinct(e.remove(i)),
        entries_map(e.remove(i)) =~= entries_map(e).remove(e[i].0@),
    decreases e.len(),
{
    let r = e.remove(i);
    assert forall|a: int, b: int| 0 <= a < b < r.len() implies (#[trigger] r[a]).0@ != (#[trigger] r[b]).0@ by {
        let a2 = if a < i { a } else { a + 1 };
        let b2 = if b < i { b } else { b + 1 };
        assert(r[a] == e[a2] && r[b] == e[b2]);
        assert(e[a2].0@ != e[b2].0@);
    }
    let n = e.len() - 1;
    let d = e.drop_last();
    lemma_distinct_prefix(e);
    if i == n {
        assert(r =~= d);
        assert forall|j: int| 0 <= j < d.len() implies (#[trigger] d[j]).0@ != e[n].0@ by {
            assert(d[j] == e[j]);
        }
        lemma_absent(d, e[n].0@);
    } else {
        assert(r.drop_last() =~= d.remove(i));
        assert(r.last() == e.last());
        lemma_remove(d, i);
        assert(d[i] == e[i]);
        assert(e[i].0@ != e[n].0@);
    }
}

proof fn lemma_len<V>(e: Seq<(String, V)>)
    requires
        keys_distinct(e),
    ensures
        entries_map(e).dom().finite(),
        entries_map(e).len() == e.len(),
    decreases e.len(),
{
    if e.len() > 0 {
        let d = e.drop_last();
        let n = e.len() - 1;
        lemma_distinct_prefix(e);
        lemma_len(d);
        assert forall|j: int| 0 <= j < d.len() implies (#[trigger] d[j]).0@ != e[n].0@ by {
            assert(d[j] == e[j]);
        }
        lemma_absent(d, e[n].0@);
    }
}

/// A finite map from strings to values, held as a list of entries with
/// distinct keys.
pub struct StringMap<V> {
    entries: Vec<(String, V)>,
}

impl<V> View for StringMap<V> {
    type V = Map<Seq<char>, V>;

    closed spec fn view(&self) -> Map<Seq<char>, V> {
        entries_map(self.entries@)
    }
}

impl<V> StringMap<V> {
    /// The map holds each key at most once.
    pub closed spec fn wf(&self) -> bool {
        keys_distinct(self.entries@)
    }

    /// The keys in the order in which `entry` hands them out.
    pub closed spec fn key_order(&self) -> Seq<Seq<char>> {
        self.entries@.map_values(|x: (String, V)| x.0@)
    }

    /// The key order lists each key of the map exactly once.
    pub proof fn lemma_key_order(&self)
        requires
            self.wf(),
        ensures
            self.key_order().len() == self@.len(),
            self@.dom().finite(),
            forall|k: Seq<char>| self@.contains_key(k) <==> self.key_order().contains(k),
            self.key_order().no_duplicates(),
    {
        let e = self.entries@;
        lemma_len(e);
        let ks = self.key_order();
        assert forall|k: Seq<char>| self@.contains_key(k) <==> ks.contains(k) by {
            if self@.contains_key(k) {
                lemma_key_has_entry(e, k);
                let i = choose|i: int| 0 <= i < e.len() && (#[trigger] e[i]).0@ == k;
                assert(ks[i] == k);
            }
            if ks.contains(k) {
                let i = choose|i: int| 0 <= i < ks.len() && ks[i] == k;
                lemma_present(e, i);
            }
        }
        assert forall|a: int, b: int| 0 <= a < ks.len() && 0 <= b < ks.len() && a != b implies ks[a] != ks[b] by {
            if a < b {
                assert(e[a].0@ != e[b].0@);
            } else {
                assert(e[b].0@ != e[a].0@);
            }
        }
    }

    /// An empty map.
    pub fn new() -> (m: Self)
        ensures
            m.wf(),
            m@ == Map::<Seq<char>, V>::empty(),
    {
        StringMap { entries: Vec::new() }
    }

    /// The number of keys.
    pub fn len(&self) -> (n: usize)
        requires
            self.wf(),
        ensures
            n == self@.len(),
            self@.dom().finite(),
    {
        proof {
            lemma_len(self.entries@);
        }
        self.entries.len()
    }

    fn find(&self, key: &str) -> (r: Option<usize>)
        ensures
            match r {
                Some(i) => i < self.entries@.len() && self.entries@[i as int].0@ == key@,
                None => forall|j: int| 0 <= j < self.entries@.len() ==> (#[trigger] self.entries@[j]).0@ != key@,
            },
    {
        let k = key.to_owned();
        let mut i: usize = 0;
        while i < self.entries.len()
            invariant
                i <= self.entries@.len(),
                k@ == key@,
                forall|j: int| 0 <= j < i ==> (#[trigger] self.entries@[j]).0@ != key@,
            decreases self.entries@.len() - i,
        {
            if self.entries[i].0 == k {
                return Some(i);
            }
            i = i + 1;
        }
        None
    }

    /// The value held under `key`, if any.
    pub fn get(&self, key: &str) -> (r: Option<&V>)
        requires
            self.wf(),
        ensures
            match r {
                Some(v) => self@.contains_key(key@) && *v == self@[key@],
                None => !self@.contains_key(key@),
            },
    {
        match self.find(key) {
            Some(i) => {
                proof {
                    lemma_present(self.entries@, i as int);
                }
                Some(&self.entries[i].1)
            },
            None => {
                proof {
                    lemma_absent(self.entries@, key@);
                }
                None
            },
        }
    }

    /// Whether `key` is held.
    pub fn contains_key(&self, key: &str) -> (r: bool)
        requires
            self.wf(),
        ensures
            r == self@.contains_key(key@),
    {
        match self.get(key) {
            Some(_) => true,
            None => false,
        }
    }

    /// Holds `value` under `key`, replacing what was held there.
    pub fn insert(&mut self, key: String, value: V)
        requires
            old(self).wf(),
        ensures
            final(self).wf(),
            final(self)@ == old(self)@.insert(key@, value),
    {
        let ghost k = key@;
        match self.find(key.as_str()) {
            Some(i) => {
                proof {
                    lemma_update(self.entries@, i as int, (key, value));
                }
                self.entries[i] = (key, value);
            },
            None => {
                let ghost e = self.entries@;
                self.entries.push((key, value));
                proof {
                    let p = self.entries@;
                    assert(p.drop_last() =~= e);
                    assert forall|a: int, b: int| 0 <= a < b < p.len() implies (#[trigger] p[a]).0@ != (#[trigger] p[b]).0@ by {
                        if b < e.len() {
                            assert(p[a] == e[a] && p[b] == e[b]);
                        } else {
                            assert(p[a] == e[a]);
                        }
                    }
                }
            },
        }
    }

    /// Removes `key` and hands back what it held, if anything.
    pub fn remove(&mut self, key: &str) -> (r: Option<V>)
        requires
            old(self).wf(),
        ensures
            final(self).wf(),
            final(self)@ == old(self)@.remove(key@),
            match r {
                Some(v) => old(self)@.contains_key(key@) && v == old(self)@[key@],
                None => !old(self)@.contains_key(key@) && final(self)@ == old(self)@,
            },
    {
        match self.find(key) {
            Some(i) => {
                proof {
                    lemma_present(self.entries@, i as int);
                    lemma_remove(self.entries@, i as int);
                }
                let (_, v) = self.entries.remove(i);
                Some(v)
            },
            None => {
                proof {
                    lemma_absent(self.entries@, key@);
                    assert(self@.remove(key@) =~= self@);
                }
                None
            },
        }
    }

    /// The key and value at position `i` of the key order.
    pub fn entry(&self, i: usize) -> (r: (&String, &V))
        requires
            self.wf(),
            i < self.key_order().len(),
        ensures
            r.0@ == self.key_order()[i as int],
            self@.contains_key(r.0@),
            self@[r.0@] == *r.1,
    {
        proof {
            lemma_present(self.entries@, i as int);
        }
        let e = &self.entries[i];
        (&e.0, &e.1)
    }

    /// Keeps the keys whose value `keep` accepts and drops the others;
    /// `keep` decides as the spec function `accepts` says.
    pub fn retain<F: Fn(&V) -> bool>(&mut self, keep: F, Ghost(accepts): Ghost<spec_fn(V) -> bool>)
        requires
            old(self).wf(),
            forall|v: V| #[trigger] keep.requires((&v,)),
            forall|v: V, b: bool| keep.ensures((&v,), b) ==> b == accepts(v),
        ensures
            final(self).wf(),
            final(self)@ == restrict(old(self)@, accepts),
    {
        let mut rest: Vec<(String, V)> = Vec::new();
        std::mem::swap(&mut rest, &mut self.entries);
        let ghost e = rest@;
        let ghost n = e.len();
        let mut kept: Vec<(String, V)> = Vec::new();
        let ghost mut i: int = 0;
        assert(e.take(0) =~= Seq::<(String, V)>::empty());
        assert(restrict(entries_map(e.take(0)), accepts) =~= entries_map(kept@));
        while rest.len() > 0
            invariant
                keys_distinct(e),
                n == e.len(),
                0 <= i <= n,
                rest@ =~= e.subrange(i, n as int),
                keys_distinct(kept@),
                forall|j: int| 0 <= j < kept@.len() ==> entries_map(e.take(i)).contains_key((#[trigger] kept@[j]).0@),
                entries_map(kept@) =~= restrict(entries_map(e.take(i)), accepts),
                forall|v: V| #[trigger] keep.requires((&v,)),
                forall|v: V, b: bool| keep.ensures((&v,), b) ==> b == accepts(v),
            decreases rest@.len(),
        {
            let x = rest.remove(0);
            proof {
                assert(x == e[i]);
                assert(e.take(i + 1).drop_last() =~= e.take(i));
                assert(e.take(i + 1).last() == x);
                assert forall|j: int| 0 <= j < e.take(i).len() implies (#[trigger] e.take(i)[j]).0@ != x.0@ by {
                    assert(e.take(i)[j] == e[j]);
                }
                lemma_absent(e.take(i), x.0@);
            }
            let ghost before = kept@;
            if keep(&x.1) {
                kept.push(x);
                proof {
                    let p = kept@;
                    assert(p.drop_last() =~= before);
                    assert forall|a: int, b: int| 0 <= a < b < p.len() implies (#[trigger] p[a]).0@ != (#[trigger] p[b]).0@ by {
                        if b < before.len() {
                            assert(p[a] == before[a] && p[b] == before[b]);
                        } else {
                            assert(p[a] == before[a]);
                            assert(entries_map(e.take(i)).contains_key(before[a].0@));
                        }
                    }
                    assert forall|j: int| 0 <= j < p.len() implies entries_map(e.take(i + 1)).contains_key((#[trigger] p[j]).0@) by {
                        if j < before.len() {
                            assert(p[j] == before[j]);
                        }
                    }
                    assert(entries_map(p) =~= restrict(entries_map(e.take(i + 1)), accepts));
                }
            } else {
                proof {
                    assert forall|j: int| 0 <= j < kept@.len() implies entries_map(e.take(i + 1)).contains_key((#[trigger] kept@[j]).0@) by {
                        assert(entries_map(e.take(i)).contains_key(kept@[j].0@));
                    }
                    assert(entries_map(kept@) =~= restrict(entries_map(e.take(i + 1)), accepts));
                }
            }
            proof {
                i = i + 1;
            }
        }
        proof {
            assert(e.take(n as int) =~= e);
        }
        self.entries = kept;
    }
}

} // verus!
