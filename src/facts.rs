//! The map from accounting concepts to the text of their reported values.
use vstd::prelude::*;
use crate::numeric::is_float_literal;

verus! {

/// Concept name to the text of its reported value; each key once.
pub struct FactMap {
    entries: Vec<(String, String)>,
    model: Ghost<Map<Seq<char>, Seq<char>>>,
}

impl View for FactMap {
    type V = Map<Seq<char>, Seq<char>>;

    closed spec fn view(&self) -> Map<Seq<char>, Seq<char>> {
        self.model@
    }
}

impl FactMap {
    /// Keys are unique, the model holds exactly the entries, and every value
    /// is a floating-point literal.
    pub closed spec fn wf(&self) -> bool {
        &&& forall|i: int, j: int|
            0 <= i < j < self.entries.len() ==> self.entries@[i].0@ != self.entries@[j].0@
        &&& forall|i: int|
            0 <= i < self.entries.len() ==> self.model@.contains_key(#[trigger] self.entries@[i].0@)
                && self.model@[self.entries@[i].0@] == self.entries@[i].1@
        &&& forall|k: Seq<char>|
            self.model@.contains_key(k) ==> exists|i: int|
                0 <= i < self.entries.len() && #[trigger] self.entries@[i].0@ == k
        &&& forall|k: Seq<char>| #[trigger]
            self.model@.contains_key(k) ==> is_float_literal(self.model@[k])
    }

    /// The empty map.
    pub fn new() -> (r: FactMap)
        ensures
            r.wf(),
            r@ == Map::<Seq<char>, Seq<char>>::empty(),
    {
        FactMap { entries: Vec::new(), model: Ghost(Map::empty()) }
    }

    /// Number of concepts held.
    pub fn len(&self) -> (r: usize)
        requires
            self.wf(),
        ensures
            r == self@.len(),
    {
        proof {
            self.lemma_domain();
        }
        self.entries.len()
    }

    proof fn lemma_domain(&self)
        requires
            self.wf(),
        ensures
            self@.dom().finite(),
            self@.len() == self.entries.len(),
    {
        let keys = self.entries@.map_values(|e: (String, String)| e.0@);
        assert(keys.no_duplicates()) by {
            assert forall|i: int, j: int|
                0 <= i < keys.len() && 0 <= j < keys.len() && i != j implies keys[i]
                != keys[j] by {
                if i < j {
                    assert(self.entries@[i].0@ != self.entries@[j].0@);
                } else {
                    assert(self.entries@[j].0@ != self.entries@[i].0@);
                }
            }
        }
        assert(keys.to_set() =~= self@.dom()) by {
            assert forall|k: Seq<char>| self@.dom().contains(k) implies keys.to_set().contains(
                k,
            ) by {
                let i = choose|i: int|
                    0 <= i < self.entries.len() && #[trigger] self.entries@[i].0@ == k;
                assert(keys[i] == k);
            }
            assert forall|k: Seq<char>| keys.to_set().contains(k) implies self@.dom().contains(
                k,
            ) by {
                let i = choose|i: int| 0 <= i < keys.len() && keys[i] == k;
                assert(self.entries@[i].0@ == k);
            }
        }
        keys.unique_seq_to_set();
        vstd::seq_lib::seq_to_set_is_finite(keys);
    }

    fn position(&self, concept: &String) -> (r: Option<usize>)
        requires
            self.wf(),
        ensures
            match r {
                Some(i) => i < self.entries.len() && self.entries@[i as int].0@ == concept@,
                None => !self@.contains_key(concept@),
            },
    {
        let mut i: usize = 0;
        while i < self.entries.len()
            invariant
                self.wf(),
                i <= self.entries.len(),
                forall|j: int| 0 <= j < i ==> self.entries@[j].0@ != concept@,
            decreases self.entries.len() - i,
        {
            if self.entries[i].0 == *concept {
                return Some(i);
            }
            i = i + 1;
        }
        None
    }

    /// The value reported for `concept`, if any.
    pub fn get(&self, concept: &String) -> (r: Option<String>)
        requires
            self.wf(),
        ensures
            r is Some <==> self@.contains_key(concept@),
            r is Some ==> r->0@ == self@[concept@],
    {
        match self.position(concept) {
            Some(i) => Some(self.entries[i].1.clone()),
            None => None,
        }
    }

    /// Records `value` for `concept`, replacing an earlier value.
    pub fn insert(&mut self, concept: String, value: String)
        requires
            old(self).wf(),
            is_float_literal(value@),
        ensures
            final(self).wf(),
            final(self)@ == old(self)@.insert(concept@, value@),
    {
        let ghost k = concept@;
        let ghost v = value@;
        let ghost at: int;
        match self.position(&concept) {
            Some(i) => {
                self.entries.set(i, (concept, value));
                proof {
                    at = i as int;
                }
            },
            None => {
                self.entries.push((concept, value));
                proof {
                    at = self.entries.len() - 1;
                }
            },
        }
        self.model = Ghost(self.model@.insert(k, v));
        assert(self.entries@[at].0@ == k);
        assert forall|j: int| 0 <= j < self.entries.len() implies self.model@.contains_key(
            #[trigger] self.entries@[j].0@,
        ) && self.model@[self.entries@[j].0@] == self.entries@[j].1@ by {
            if j != at {
                assert(old(self).entries@[j] == self.entries@[j]);
            }
        }
        assert forall|q: Seq<char>| self.model@.contains_key(q) implies exists|i: int|
            0 <= i < self.entries.len() && #[trigger] self.entries@[i].0@ == q by {
            if q != k {
                let i = choose|i: int|
                    0 <= i < old(self).entries.len() && #[trigger] old(self).entries@[i].0@ == q;
                assert(self.entries@[i].0@ == q);
            } else {
                assert(self.entries@[at].0@ == q);
            }
        }
        assert forall|i: int, j: int|
            0 <= i < j < self.entries.len() implies self.entries@[i].0@ != self.entries@[j].0@ by {
            if i != at && j != at {
                assert(old(self).entries@[i] == self.entries@[i]);
                assert(old(self).entries@[j] == self.entries@[j]);
            } else if i == at {
                assert(old(self).entries@[j] == self.entries@[j]);
            } else {
                assert(old(self).entries@[i] == self.entries@[i]);
            }
        }
    }

    /// The entries, in the order their concepts first appeared.
    pub fn entries(&self) -> (r: &Vec<(String, String)>)
        requires
            self.wf(),
        ensures
            r.len() == self@.len(),
            forall|i: int|
                0 <= i < r.len() ==> self@.contains_key(#[trigger] r@[i].0@) && self@[r@[i].0@]
                    == r@[i].1@,
    {
        proof {
            self.lemma_domain();
        }
        &self.entries
    }
}

} // verus!
