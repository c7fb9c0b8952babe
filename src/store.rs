//! A map keyed by 256-bit hashes, kept as two parallel vectors with unique keys.

use crate::hash::H256;
use vstd::prelude::*;

verus! {

/// A finite map from hashes to values.
pub struct Store<T> {
    keys: Vec<H256>,
    vals: Vec<T>,
}

impl<T> View for Store<T> {
    type V = Map<Seq<u8>, T>;

    closed spec fn view(&self) -> Map<Seq<u8>, T> {
        Map::new(
            |k: Seq<u8>| exists|i: int| 0 <= i < self.keys.len() && self.keys@[i]@ == k,
            |k: Seq<u8>|
                self.vals@[choose|i: int| 0 <= i < self.keys.len() && self.keys@[i]@ == k],
        )
    }
}

impl<T> Store<T> {
    /// The two vectors have one length and no key occurs twice.
    pub closed spec fn wf(&self) -> bool {
        &&& self.keys.len() == self.vals.len()
        &&& forall|i: int, j: int|
            0 <= i < self.keys.len() && 0 <= j < self.keys.len() && i != j ==> self.keys@[i]@
                != self.keys@[j]@
    }

    proof fn lemma_entry(&self, i: int)
        requires
            self.wf(),
            0 <= i < self.keys.len(),
        ensures
            self@.contains_key(self.keys@[i]@),
            self@[self.keys@[i]@] == self.vals@[i],
    {
        let k = self.keys@[i]@;
        assert(0 <= i < self.keys.len() && self.keys@[i]@ == k);
        let j = choose|j: int| 0 <= j < self.keys.len() && self.keys@[j]@ == k;
        assert(j == i);
    }

    /// An empty map.
    pub fn new() -> (r: Store<T>)
        ensures
            r.wf(),
            r@ == Map::<Seq<u8>, T>::empty(),
    {
        let r = Store { keys: Vec::new(), vals: Vec::new() };
        assert(r@ =~= Map::<Seq<u8>, T>::empty());
        r
    }

    fn find(&self, k: &H256) -> (r: Option<usize>)
        requires
            self.wf(),
        ensures
            match r {
                Some(i) => i < self.keys.len() && self.keys@[i as int]@ == k@,
                None => !self@.contains_key(k@),
            },
    {
        let mut i: usize = 0;
        while i < self.keys.len()
            invariant
                self.wf(),
                0 <= i <= self.keys.len(),
                forall|j: int| 0 <= j < i ==> self.keys@[j]@ != k@,
            decreases self.keys.len() - i,
        {
            if self.keys[i] == *k {
                return Some(i);
            }
            i = i + 1;
        }
        None
    }

    /// Whether `k` has a value.
    pub fn contains_key(&self, k: &H256) -> (r: bool)
        requires
            self.wf(),
        ensures
            r == self@.contains_key(k@),
    {
        match self.find(k) {
            Some(i) => {
                proof {
                    self.lemma_entry(i as int);
                }
                true
            },
            None => false,
        }
    }

    /// The value of `k`, if it has one.
    pub fn get(&self, k: &H256) -> (r: Option<&T>)
        requires
            self.wf(),
        ensures
            match r {
                Some(v) => self@.contains_key(k@) && *v == self@[k@],
                None => !self@.contains_key(k@),
            },
    {
        match self.find(k) {
            Some(i) => {
                proof {
                    self.lemma_entry(i as int);
                }
                Some(&self.vals[i])
            },
            None => None,
        }
    }

    /// Gives `k` the value `v`, replacing the value it had.
    pub fn insert(&mut self, k: H256, v: T)
        requires
            old(self).wf(),
        ensures
            final(self).wf(),
            final(self)@ == old(self)@.insert(k@, v),
    {
        match self.find(&k) {
            Some(i) => {
                self.vals[i] = v;
                proof {
                    assert forall|key: Seq<u8>| #[trigger]
                        old(self)@.insert(k@, v).contains_key(key) implies self@.contains_key(key)
                        && self@[key] == old(self)@.insert(k@, v)[key] by {
                        if key == k@ {
                            self.lemma_entry(i as int);
                        } else {
                            let j = choose|j: int|
                                0 <= j < old(self).keys.len() && old(self).keys@[j]@ == key;
                            old(self).lemma_entry(j);
                            self.lemma_entry(j);
                        }
                    }
                    assert(self@ =~= old(self)@.insert(k@, v));
                }
            },
            None => {
                self.keys.push(k);
                self.vals.push(v);
                proof {
                    let n = old(self).keys.len() as int;
                    assert forall|key: Seq<u8>| #[trigger]
                        old(self)@.insert(k@, v).contains_key(key) implies self@.contains_key(key)
                        && self@[key] == old(self)@.insert(k@, v)[key] by {
                        if key == k@ {
                            self.lemma_entry(n);
                        } else {
                            let j = choose|j: int|
                                0 <= j < old(self).keys.len() && old(self).keys@[j]@ == key;
                            old(self).lemma_entry(j);
                            self.lemma_entry(j);
                        }
                    }
                    assert forall|key: Seq<u8>| #[trigger]
                        self@.contains_key(key) implies old(self)@.insert(k@, v).contains_key(
                        key,
                    ) by {
                        let j = choose|j: int| 0 <= j < self.keys.len() && self.keys@[j]@ == key;
                        if j < n {
                            old(self).lemma_entry(j);
                        }
                    }
                    assert(self@ =~= old(self)@.insert(k@, v));
                }
            },
        }
    }
}

} // verus!
