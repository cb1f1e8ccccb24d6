//! A map keyed by string ids.

use vstd::prelude::*;

use crate::text::str_eq;

verus! {

/// The value of the first entry at or after `i` whose key is `k`.
pub open spec fn lookup_from<V>(e: Seq<(String, V)>, k: Seq<char>, i: int) -> Option<V>
    decreases e.len() - i,
{
    if 0 <= i < e.len() {
        if e[i].0@ == k {
            Some(e[i].1)
        } else {
            lookup_from(e, k, i + 1)
        }
    } else {
        None
    }
}

proof fn lemma_lookup_first<V>(e: Seq<(String, V)>, k: Seq<char>, i: int, p: int)
    requires
        0 <= i <= p < e.len(),
        e[p].0@ == k,
        forall|j: int| i <= j < p ==> e[j].0@ != k,
    ensures
        lookup_from(e, k, i) == Some(e[p].1),
    decreases p - i,
{
    if i < p {
        lemma_lookup_first(e, k, i + 1, p);
    }
}

proof fn lemma_lookup_absent<V>(e: Seq<(String, V)>, k: Seq<char>, i: int)
    requires
        0 <= i <= e.len(),
        forall|j: int| i <= j < e.len() ==> e[j].0@ != k,
    ensures
        lookup_from(e, k, i) is None,
    decreases e.len() - i,
{
    if i < e.len() {
        lemma_lookup_absent(e, k, i + 1);
    }
}

proof fn lemma_lookup_other_update<V>(e: Seq<(String, V)>, p: int, x: (String, V), k: Seq<char>, i: int)
    requires
        0 <= p < e.len(),
        0 <= i,
        x.0@ == e[p].0@,
        k != x.0@,
    ensures
        lookup_from(e.update(p, x), k, i) == lookup_from(e, k, i),
    decreases e.len() - i,
{
    if 0 <= i < e.len() {
        lemma_lookup_other_update(e, p, x, k, i + 1);
    }
}

proof fn lemma_lookup_push<V>(e: Seq<(String, V)>, x: (String, V), k: Seq<char>, i: int)
    requires
        0 <= i <= e.len(),
    ensures
        lookup_from(e.push(x), k, i) == match lookup_from(e, k, i) {
            Some(v) => Some(v),
            None => if x.0@ == k {
                Some(x.1)
            } else {
                None
            },
        },
    decreases e.len() - i,
{
    let pushed = e.push(x);
    if i < e.len() {
        assert(pushed[i] == e[i]);
        lemma_lookup_push(e, x, k, i + 1);
    } else {
        assert(pushed[i] == x);
        assert(lookup_from(pushed, k, i + 1) is None);
    }
}

/// A map from string ids to values.
#[derive(Clone, Debug)]
pub struct IdMap<V> {
    entries: Vec<(String, V)>,
}

impl<V> View for IdMap<V> {
    type V = Map<Seq<char>, V>;

    closed spec fn view(&self) -> Map<Seq<char>, V> {
        Map::new(
            |k: Seq<char>| lookup_from(self.entries@, k, 0) is Some,
            |k: Seq<char>| lookup_from(self.entries@, k, 0)->0,
        )
    }
}

impl<V> Default for IdMap<V> {
    fn default() -> (r: Self)
        ensures
            r@ == Map::<Seq<char>, V>::empty(),
    {
        Self::new()
    }
}

impl<V> IdMap<V> {
    /// An empty map.
    pub fn new() -> (r: Self)
        ensures
            r@ == Map::<Seq<char>, V>::empty(),
    {
        let r = IdMap { entries: Vec::new() };
        assert(r@ =~= Map::<Seq<char>, V>::empty());
        r
    }

    fn find(&self, k: &str) -> (r: Option<usize>)
        ensures
            match r {
                Some(p) => p < self.entries.len() && self.entries@[p as int].0@ == k@ && forall|
                    j: int,
                | 0 <= j < p ==> self.entries@[j].0@ != k@,
                None => forall|j: int| 0 <= j < self.entries.len() ==> self.entries@[j].0@ != k@,
            },
    {
        let mut i: usize = 0;
        while i < self.entries.len()
            invariant
                i <= self.entries.len(),
                forall|j: int| 0 <= j < i ==> self.entries@[j].0@ != k@,
            decreases self.entries.len() - i,
        {
            if str_eq(self.entries[i].0.as_str(), k) {
                return Some(i);
            }
            i = i + 1;
        }
        None
    }

    /// The value stored under `k`.
    pub fn get(&self, k: &str) -> (r: Option<&V>)
        ensures
            match r {
                Some(v) => self@.contains_key(k@) && self@[k@] == *v,
                None => !self@.contains_key(k@),
            },
    {
        match self.find(k) {
            Some(p) => {
                proof {
                    lemma_lookup_first(self.entries@, k@, 0, p as int);
                }
                Some(&self.entries[p].1)
            },
            None => {
                proof {
                    lemma_lookup_absent(self.entries@, k@, 0);
                }
                None
            },
        }
    }

    /// Stores `v` under `k`, replacing any earlier value.
    pub fn insert(&mut self, k: &str, v: V)
        ensures
            final(self)@ == old(self)@.insert(k@, v),
    {
        match self.find(k) {
            Some(p) => {
                let key = self.entries[p].0.clone();
                let ghost x = (key, v);
                self.entries.set(p, (key, v));
                proof {
                    let e = old(self).entries@;
                    assert(self.entries@ == e.update(p as int, x));
                    assert forall|q: Seq<char>| q != k@ implies lookup_from(
                        self.entries@,
                        q,
                        0,
                    ) == lookup_from(e, q, 0) by {
                        lemma_lookup_other_update(e, p as int, x, q, 0);
                    }
                    lemma_lookup_first(self.entries@, k@, 0, p as int);
                    assert(self@ =~= old(self)@.insert(k@, v));
                }
            },
            None => {
                let key = k.to_owned();
                self.entries.push((key, v));
                proof {
                    let e = old(self).entries@;
                    lemma_lookup_absent(e, k@, 0);
                    assert forall|q: Seq<char>| #[trigger]
                        lookup_from(self.entries@, q, 0) == match lookup_from(e, q, 0) {
                            Some(w) => Some(w),
                            None => if k@ == q {
                                Some(v)
                            } else {
                                None
                            },
                        } by {
                        lemma_lookup_push(e, self.entries@.last(), q, 0);
                        assert(self.entries@ == e.push(self.entries@.last()));
                    }
                    assert(self@ =~= old(self)@.insert(k@, v));
                }
            },
        }
    }
}

} // verus!
