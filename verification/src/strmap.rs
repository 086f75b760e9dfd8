//! A string-keyed mapping with a `Map` view.
//!
//! The store is an association list whose keys are pairwise distinct, so
//! the view of the whole structure is an ordinary finite map from the
//! key's characters to the value's view.

use vstd::prelude::*;

verus! {

/// A mapping from string keys to values, viewed as a `Map`.
pub struct StrMap<V> {
    pairs: Vec<(String, V)>,
}

pub open spec fn keys_distinct<V>(pairs: Seq<(String, V)>) -> bool {
    forall|i: int, j: int| 0 <= i < j < pairs.len() ==> pairs[i].0@ != pairs[j].0@
}

pub open spec fn assoc_view<V: View>(pairs: Seq<(String, V)>) -> Map<Seq<char>, V::V>
    decreases pairs.len(),
{
    if pairs.len() == 0 {
        Map::empty()
    } else {
        assoc_view(pairs.drop_last()).insert(pairs.last().0@, pairs.last().1@)
    }
}

proof fn lemma_assoc_contains<V: View>(pairs: Seq<(String, V)>, k: Seq<char>)
    ensures
        assoc_view(pairs).contains_key(k) <==> exists|i: int|
            0 <= i < pairs.len() && pairs[i].0@ == k,
    decreases pairs.len(),
{
    if pairs.len() > 0 {
        lemma_assoc_contains(pairs.drop_last(), k);
        if pairs.last().0@ == k {
            assert(pairs[pairs.len() - 1].0@ == k);
        } else {
            if assoc_view(pairs).contains_key(k) {
                let i = choose|i: int| 0 <= i < pairs.drop_last().len() && pairs.drop_last()[i].0@
                    == k;
                assert(pairs[i].0@ == k);
            } else {
                if exists|i: int| 0 <= i < pairs.len() && pairs[i].0@ == k {
                    let i = choose|i: int| 0 <= i < pairs.len() && pairs[i].0@ == k;
                    assert(pairs.drop_last()[i].0@ == k);
                }
            }
        }
    }
}

proof fn lemma_assoc_get<V: View>(pairs: Seq<(String, V)>, i: int)
    requires
        keys_distinct(pairs),
        0 <= i < pairs.len(),
    ensures
        assoc_view(pairs).contains_key(pairs[i].0@),
        assoc_view(pairs)[pairs[i].0@] == pairs[i].1@,
    decreases pairs.len(),
{
    lemma_assoc_contains(pairs, pairs[i].0@);
    if i < pairs.len() - 1 {
        assert(pairs[i].0@ != pairs.last().0@);
        assert(pairs.drop_last()[i] == pairs[i]);
        lemma_assoc_get(pairs.drop_last(), i);
    }
}

proof fn lemma_assoc_remove<V: View>(pairs: Seq<(String, V)>, i: int)
    requires
        keys_distinct(pairs),
        0 <= i < pairs.len(),
    ensures
        assoc_view(pairs.remove(i)) == assoc_view(pairs).remove(pairs[i].0@),
    decreases pairs.len(),
{
    let k = pairs[i].0@;
    if i == pairs.len() - 1 {
        assert(pairs.remove(i) =~= pairs.drop_last());
        lemma_assoc_contains(pairs.drop_last(), k);
        assert(forall|j: int|
            0 <= j < pairs.drop_last().len() ==> #[trigger] pairs.drop_last()[j].0@ != k);
        assert(assoc_view(pairs.drop_last()) =~= assoc_view(pairs.drop_last()).insert(
            k,
            pairs[i].1@,
        ).remove(k));
    } else {
        assert(pairs.remove(i).drop_last() =~= pairs.drop_last().remove(i));
        assert(pairs.remove(i).last() == pairs.last());
        lemma_assoc_remove(pairs.drop_last(), i);
        assert(pairs.drop_last()[i] == pairs[i]);
        assert(k != pairs.last().0@);
        assert(assoc_view(pairs.drop_last()).remove(k).insert(pairs.last().0@, pairs.last().1@)
            =~= assoc_view(pairs.drop_last()).insert(pairs.last().0@, pairs.last().1@).remove(k));
    }
}

proof fn lemma_assoc_push<V: View>(pairs: Seq<(String, V)>, p: (String, V))
    ensures
        assoc_view(pairs.push(p)) == assoc_view(pairs).insert(p.0@, p.1@),
{
    assert(pairs.push(p).drop_last() =~= pairs);
    assert(pairs.push(p).last() == p);
}

impl<V: View> View for StrMap<V> {
    type V = Map<Seq<char>, <V as View>::V>;

    closed spec fn view(&self) -> Map<Seq<char>, <V as View>::V> {
        assoc_view(self.pairs@)
    }
}

impl<V> StrMap<V> {
    #[verifier::type_invariant]
    spec fn wf(self) -> bool {
        keys_distinct(self.pairs@)
    }
}

impl<V: View> StrMap<V> {
    /// An empty mapping.
    pub fn new() -> (r: Self)
        ensures
            r@ == Map::<Seq<char>, <V as View>::V>::empty(),
    {
        StrMap { pairs: Vec::new() }
    }

    fn position_of(&self, k: &str) -> (r: Option<usize>)
        ensures
            match r {
                Some(i) => i < self.pairs@.len() && self.pairs@[i as int].0@ == k@,
                None => forall|i: int| 0 <= i < self.pairs@.len() ==> self.pairs@[i].0@ != k@,
            },
    {
        let n = self.pairs.len();
        let mut i: usize = 0;
        while i < n
            invariant
                i <= n,
                n == self.pairs@.len(),
                forall|j: int| 0 <= j < i ==> self.pairs@[j].0@ != k@,
            decreases n - i,
        {
            if crate::text::str_eq_str(self.pairs[i].0.as_str(), k) {
                return Some(i);
            }
            i = i + 1;
        }
        None
    }

    /// Whether the mapping holds the key.
    pub fn contains_key(&self, k: &str) -> (r: bool)
        ensures
            r == self@.contains_key(k@),
    {
        proof {
            use_type_invariant(&*self);
            lemma_assoc_contains(self.pairs@, k@);
        }
        self.position_of(k).is_some()
    }

    /// The value under a key, when the key is there.
    pub fn get(&self, k: &str) -> (r: Option<&V>)
        ensures
            match r {
                Some(v) => self@.contains_key(k@) && v@ == self@[k@],
                None => !self@.contains_key(k@),
            },
    {
        proof {
            use_type_invariant(&*self);
            lemma_assoc_contains(self.pairs@, k@);
        }
        match self.position_of(k) {
            Some(i) => {
                proof {
                    lemma_assoc_get(self.pairs@, i as int);
                }
                Some(&self.pairs[i].1)
            },
            None => None,
        }
    }

    /// Binds the key to the value, replacing any earlier binding.
    pub fn insert(&mut self, k: String, v: V)
        ensures
            final(self)@ == old(self)@.insert(k@, v@),
    {
        proof {
            use_type_invariant(&*self);
        }
        let ghost pre = self.pairs@;
        let pos = self.position_of(k.as_str());
        let mut pairs: Vec<(String, V)> = Vec::new();
        core::mem::swap(&mut self.pairs, &mut pairs);
        match pos {
            Some(i) => {
                let _ = pairs.remove(i);
                proof {
                    lemma_assoc_remove(pre, i as int);
                    assert(forall|a: int, b: int|
                        0 <= a < b < pairs@.len() ==> pairs@[a].0@ != pairs@[b].0@) by {
                        assert(forall|a: int|
                            0 <= a < pairs@.len() ==> #[trigger] pairs@[a] == (if a < i {
                                pre[a]
                            } else {
                                pre[a + 1]
                            }));
                    }
                    assert(forall|a: int| 0 <= a < pairs@.len() ==> #[trigger] pairs@[a].0@ != k@)
                        by {
                        assert(forall|a: int|
                            0 <= a < pairs@.len() ==> #[trigger] pairs@[a] == (if a < i {
                                pre[a]
                            } else {
                                pre[a + 1]
                            }));
                    }
                }
                let ghost mid = pairs@;
                pairs.push((k, v));
                proof {
                    lemma_assoc_push(mid, pairs@.last());
                    assert(assoc_view(pairs@) =~= assoc_view(pre).insert(k@, pairs@.last().1@));
                }
            },
            None => {
                pairs.push((k, v));
                proof {
                    lemma_assoc_push(pre, pairs@.last());
                }
            },
        }
        core::mem::swap(&mut self.pairs, &mut pairs);
    }

    /// The bindings as stored, keys pairwise distinct; every binding is
    /// in the view and every key of the view is among them.
    pub fn entries(&self) -> (r: &Vec<(String, V)>)
        ensures
            forall|i: int|
                0 <= i < r@.len() ==> self@.contains_key(#[trigger] r@[i].0@) && self@[r@[i].0@]
                    == r@[i].1@,
            forall|k: Seq<char>|
                self@.contains_key(k) ==> exists|i: int| 0 <= i < r@.len() && #[trigger] r@[i].0@
                    == k,
            forall|i: int, j: int| 0 <= i < j < r@.len() ==> r@[i].0@ != r@[j].0@,
    {
        proof {
            use_type_invariant(&*self);
            assert forall|i: int| 0 <= i < self.pairs@.len() implies self@.contains_key(
                #[trigger] self.pairs@[i].0@,
            ) && self@[self.pairs@[i].0@] == self.pairs@[i].1@ by {
                lemma_assoc_get(self.pairs@, i);
            }
            assert forall|k: Seq<char>| self@.contains_key(k) implies exists|i: int|
                0 <= i < self.pairs@.len() && #[trigger] self.pairs@[i].0@ == k by {
                lemma_assoc_contains(self.pairs@, k);
            }
        }
        &self.pairs
    }

    /// Removes the binding for a key, returning its value if it was there.
    pub fn remove(&mut self, k: &str) -> (r: Option<V>)
        ensures
            match r {
                Some(v) => old(self)@.contains_key(k@) && v@ == old(self)@[k@] && final(self)@
                    == old(self)@.remove(k@),
                None => !old(self)@.contains_key(k@) && final(self)@ == old(self)@,
            },
    {
        proof {
            use_type_invariant(&*self);
            lemma_assoc_contains(self.pairs@, k@);
        }
        let ghost pre = self.pairs@;
        let pos = self.position_of(k);
        match pos {
            Some(i) => {
                proof {
                    lemma_assoc_get(pre, i as int);
                    lemma_assoc_remove(pre, i as int);
                }
                let mut pairs: Vec<(String, V)> = Vec::new();
                core::mem::swap(&mut self.pairs, &mut pairs);
                let (_, v) = pairs.remove(i);
                core::mem::swap(&mut self.pairs, &mut pairs);
                Some(v)
            },
            None => None,
        }
    }
}

} // verus!
