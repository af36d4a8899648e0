//! A map from strings to values, kept as a list of entries with distinct keys.
use vstd::prelude::*;

use crate::text::same_text;

verus! {

/// A map with string keys. Its view is the mathematical map from the texts of
/// the keys to the views of the values.
pub struct TextMap<V> {
    entries: Vec<(String, V)>,
}

/// The position of `k` among the keys of `entries`, if it is one of them.
pub closed spec fn key_at<V>(entries: Seq<(String, V)>, k: Seq<char>, i: int) -> bool {
    0 <= i < entries.len() && entries[i].0@ == k
}

pub closed spec fn distinct_keys<V>(entries: Seq<(String, V)>) -> bool {
    forall|i: int, j: int|
        0 <= i < entries.len() && 0 <= j < entries.len() && #[trigger] entries[i].0@
            == #[trigger] entries[j].0@ ==> i == j
}

pub closed spec fn as_map<V: View>(entries: Seq<(String, V)>) -> Map<Seq<char>, V::V> {
    Map::new(
        |k: Seq<char>| exists|i: int| key_at(entries, k, i),
        |k: Seq<char>| entries[choose|i: int| key_at(entries, k, i)].1@,
    )
}

/// `order` lists the keys of `m`, each once.
pub open spec fn lists_keys<T>(order: Seq<Seq<char>>, m: Map<Seq<char>, T>) -> bool {
    &&& order.no_duplicates()
    &&& forall|k: Seq<char>| #[trigger] m.dom().contains(k) <==> order.contains(k)
}

impl<V: View> View for TextMap<V> {
    type V = Map<Seq<char>, V::V>;

    closed spec fn view(&self) -> Map<Seq<char>, V::V> {
        as_map(self.entries@)
    }
}

proof fn lemma_entry<V: View>(entries: Seq<(String, V)>, i: int)
    requires
        distinct_keys(entries),
        0 <= i < entries.len(),
    ensures
        as_map(entries).dom().contains(entries[i].0@),
        as_map(entries)[entries[i].0@] == entries[i].1@,
{
    let k = entries[i].0@;
    assert(key_at(entries, k, i));
    let j = choose|j: int| key_at(entries, k, j);
    assert(key_at(entries, k, j));
    assert(i == j);
}

proof fn lemma_absent<V: View>(entries: Seq<(String, V)>, k: Seq<char>)
    requires
        forall|i: int| 0 <= i < entries.len() ==> (#[trigger] entries[i]).0@ != k,
    ensures
        !as_map(entries).dom().contains(k),
{
}

impl<V> TextMap<V> {
    #[verifier::type_invariant]
    spec fn well_formed(self) -> bool {
        distinct_keys(self.entries@)
    }
}

impl<V: View> TextMap<V> {
    /// How many keys the map has.
    pub closed spec fn count(self) -> nat {
        self.entries@.len()
    }

    /// The key of the `i`-th entry.
    pub closed spec fn key(self, i: int) -> Seq<char> {
        self.entries@[i].0@
    }

    /// The value of the `i`-th entry.
    pub closed spec fn value(self, i: int) -> V {
        self.entries@[i].1
    }

    /// The keys in the order of the entries.
    pub open spec fn order(self) -> Seq<Seq<char>> {
        Seq::new(self.count(), |i: int| self.key(i))
    }

    pub fn new() -> (r: Self)
        ensures
            r@ == Map::<Seq<char>, V::V>::empty(),
            r.count() == 0,
    {
        let r = TextMap { entries: Vec::new() };
        assert(r@ =~= Map::<Seq<char>, V::V>::empty());
        r
    }

    /// How many entries there are. Their keys are distinct, and each is one of
    /// the view.
    pub fn len(&self) -> (r: usize)
        ensures
            r == self.count(),
            forall|i: int, j: int|
                0 <= i < r && 0 <= j < r && #[trigger] self.key(i) == #[trigger] self.key(j) ==> i
                    == j,
            forall|i: int| 0 <= i < r ==> self@.dom().contains(#[trigger] self.key(i)),
            lists_keys(self.order(), self@),
    {
        proof {
            use_type_invariant(self);
            assert forall|i: int| 0 <= i < self.count() implies self@.dom().contains(
                #[trigger] self.key(i),
            ) by {
                lemma_entry(self.entries@, i);
            }
            assert forall|k: Seq<char>| #[trigger]
                self@.dom().contains(k) implies self.order().contains(k) by {
                self.lemma_keys(k);
                let i = choose|i: int| 0 <= i < self.count() && #[trigger] self.key(i) == k;
                assert(self.order()[i] == k);
            }
        }
        self.entries.len()
    }

    fn position(&self, k: &str) -> (r: Option<usize>)
        ensures
            match r {
                Some(i) => i < self.entries@.len() && self.entries@[i as int].0@ == k@,
                None => forall|i: int|
                    0 <= i < self.entries@.len() ==> (#[trigger] self.entries@[i]).0@ != k@,
            },
    {
        let mut i: usize = 0;
        while i < self.entries.len()
            invariant
                i <= self.entries@.len(),
                forall|j: int| 0 <= j < i ==> (#[trigger] self.entries@[j]).0@ != k@,
            decreases self.entries@.len() - i,
        {
            if same_text(self.entries[i].0.as_str(), k) {
                return Some(i);
            }
            i += 1;
        }
        None
    }

    pub fn contains(&self, k: &str) -> (r: bool)
        ensures
            r == self@.dom().contains(k@),
    {
        proof {
            use_type_invariant(self);
        }
        match self.position(k) {
            Some(i) => {
                proof {
                    lemma_entry(self.entries@, i as int);
                }
                true
            },
            None => {
                proof {
                    lemma_absent(self.entries@, k@);
                }
                false
            },
        }
    }

    pub fn get(&self, k: &str) -> (r: Option<&V>)
        ensures
            match r {
                Some(v) => self@.dom().contains(k@) && self@[k@] == v@,
                None => !self@.dom().contains(k@),
            },
    {
        proof {
            use_type_invariant(self);
        }
        match self.position(k) {
            Some(i) => {
                proof {
                    lemma_entry(self.entries@, i as int);
                }
                Some(&self.entries[i].1)
            },
            None => {
                proof {
                    lemma_absent(self.entries@, k@);
                }
                None
            },
        }
    }

    /// The `i`-th entry.
    pub fn entry(&self, i: usize) -> (r: (&String, &V))
        requires
            i < self.count(),
        ensures
            r.0@ == self.key(i as int),
            *r.1 == self.value(i as int),
            self@.dom().contains(r.0@),
            self@[r.0@] == r.1@,
    {
        proof {
            use_type_invariant(self);
            lemma_entry(self.entries@, i as int);
        }
        (&self.entries[i].0, &self.entries[i].1)
    }

    /// Every key of the view is the key of an entry.
    pub proof fn lemma_keys(self, k: Seq<char>)
        requires
            self@.dom().contains(k),
        ensures
            exists|i: int| 0 <= i < self.count() && #[trigger] self.key(i) == k,
    {
        let i = choose|i: int| key_at(self.entries@, k, i);
        assert(self.key(i) == k);
    }

    /// Sets the value of `k`.
    pub fn insert(&mut self, k: String, v: V)
        ensures
            final(self)@ == old(self)@.insert(k@, v@),
    {
        proof {
            use_type_invariant(&*self);
        }
        let ghost before = self.entries@;
        let at: Option<usize> = self.position(k.as_str());
        let ghost kt = k@;
        let mut entries: Vec<(String, V)> = Vec::new();
        std::mem::swap(&mut entries, &mut self.entries);
        match at {
            Some(i) => {
                entries.set(i, (k, v));
            },
            None => {
                entries.push((k, v));
            },
        }
        proof {
            let e = entries@;
            assert forall|i: int, j: int|
                0 <= i < e.len() && 0 <= j < e.len() && #[trigger] e[i].0@
                    == #[trigger] e[j].0@ implies i == j by {
                if i < before.len() && j < before.len() {
                    assert(before[i].0@ == e[i].0@);
                    assert(before[j].0@ == e[j].0@);
                }
            }
            assert(distinct_keys(e));
            assert forall|x: Seq<char>| as_map(e).dom().contains(x) == as_map(before).insert(kt, v@).dom().contains(x) by {
                if as_map(e).dom().contains(x) {
                    let i = choose|i: int| key_at(e, x, i);
                    if x != kt {
                        assert(key_at(before, x, i));
                    }
                }
                if as_map(before).dom().contains(x) {
                    let i = choose|i: int| key_at(before, x, i);
                    assert(key_at(e, x, i));
                }
                if x == kt {
                    match at {
                        Some(i) => assert(key_at(e, x, i as int)),
                        None => assert(key_at(e, x, before.len() as int)),
                    }
                }
            }
            assert forall|x: Seq<char>| as_map(e).dom().contains(x) implies as_map(e)[x] == as_map(before).insert(kt, v@)[x] by {
                let i = choose|i: int| key_at(e, x, i);
                lemma_entry(e, i);
                if x != kt {
                    assert(key_at(before, x, i));
                    lemma_entry(before, i);
                }
            }
            assert(as_map(e) =~= as_map(before).insert(kt, v@));
        }
        self.entries = entries;
    }

    /// Takes the entry of `k` out, if there is one.
    pub fn remove(&mut self, k: &str) -> (r: Option<V>)
        ensures
            final(self)@ == old(self)@.remove(k@),
            match r {
                Some(v) => old(self)@.dom().contains(k@) && old(self)@[k@] == v@,
                None => !old(self)@.dom().contains(k@),
            },
    {
        proof {
            use_type_invariant(&*self);
        }
        let ghost before = self.entries@;
        match self.position(k) {
            None => {
                proof {
                    lemma_absent(before, k@);
                    assert(self@.remove(k@) =~= self@);
                }
                None
            },
            Some(i) => {
                let mut entries: Vec<(String, V)> = Vec::new();
                std::mem::swap(&mut entries, &mut self.entries);
                let (_key, value) = entries.remove(i);
                proof {
                    let e = entries@;
                    let at = i as int;
                    lemma_entry(before, at);
                    assert(e =~= before.remove(at));
                    assert forall|j: int, l: int|
                        0 <= j < e.len() && 0 <= l < e.len() && #[trigger] e[j].0@
                            == #[trigger] e[l].0@ implies j == l by {
                        let bj = if j < at { j } else { j + 1 };
                        let bl = if l < at { l } else { l + 1 };
                        assert(before[bj].0@ == before[bl].0@);
                    }
                    assert(distinct_keys(e));
                    assert forall|x: Seq<char>| as_map(e).dom().contains(x) == as_map(before).remove(k@).dom().contains(x) by {
                        if as_map(e).dom().contains(x) {
                            let j = choose|j: int| key_at(e, x, j);
                            let bj = if j < at { j } else { j + 1 };
                            assert(key_at(before, x, bj));
                            assert(before[bj].0@ != before[at].0@);
                        }
                        if as_map(before).dom().contains(x) && x != k@ {
                            let j = choose|j: int| key_at(before, x, j);
                            let nj = if j < at { j } else { j - 1 };
                            assert(key_at(e, x, nj));
                        }
                    }
                    assert forall|x: Seq<char>| as_map(e).dom().contains(x) implies as_map(e)[x] == as_map(before).remove(k@)[x] by {
                        let j = choose|j: int| key_at(e, x, j);
                        let bj = if j < at { j } else { j + 1 };
                        lemma_entry(e, j);
                        lemma_entry(before, bj);
                    }
                    assert(as_map(e) =~= as_map(before).remove(k@));
                }
                self.entries = entries;
                Some(value)
            },
        }
    }
}

} // verus!
