//! Values kept under string keys, each key once.
use vstd::prelude::*;

verus! {

/// A map from string keys to values. Its contents are the `Map` it views
/// as; the order in which keys came is not part of them.
#[derive(Debug)]
pub struct IdMap<V> {
    keys: Vec<String>,
    values: Vec<V>,
}

impl<V> IdMap<V> {
    #[verifier::type_invariant]
    closed spec fn keys_distinct(self) -> bool {
        &&& self.keys@.len() == self.values@.len()
        &&& forall|i: int, j: int|
            0 <= i < j < self.keys@.len() ==> #[trigger] self.keys@[i]@ != #[trigger] self.keys@[j]@
    }

    closed spec fn has(self, k: Seq<char>) -> bool {
        exists|i: int| 0 <= i < self.keys@.len() && #[trigger] self.keys@[i]@ == k
    }

    closed spec fn slot(self, k: Seq<char>) -> int {
        choose|i: int| 0 <= i < self.keys@.len() && #[trigger] self.keys@[i]@ == k
    }

    proof fn lemma_slot(self, i: int)
        requires
            self.keys_distinct(),
            0 <= i < self.keys@.len(),
        ensures
            self.has(self.keys@[i]@),
            self.slot(self.keys@[i]@) == i,
    {
        let k = self.keys@[i]@;
        assert(self.has(k));
        let s = self.slot(k);
        if s != i {
            if s < i {
                assert(self.keys@[s]@ != self.keys@[i]@);
            } else {
                assert(self.keys@[i]@ != self.keys@[s]@);
            }
        }
    }
}

impl<V> View for IdMap<V> {
    type V = Map<Seq<char>, V>;

    closed spec fn view(&self) -> Map<Seq<char>, V> {
        Map::new(|k: Seq<char>| self.has(k), |k: Seq<char>| self.values@[self.slot(k)])
    }
}

impl<V> IdMap<V> {
    /// An empty map.
    pub fn new() -> (r: Self)
        ensures
            r@ == Map::<Seq<char>, V>::empty(),
    {
        let r = IdMap { keys: Vec::new(), values: Vec::new() };
        assert(r@ =~= Map::<Seq<char>, V>::empty());
        r
    }

    fn find(&self, key: &str) -> (r: Option<usize>)
        ensures
            match r {
                Some(i) => i < self.keys@.len() && self.keys@[i as int]@ == key@,
                None => !self.has(key@),
            },
    {
        let k = String::from_str(key);
        let mut i: usize = 0;
        while i < self.keys.len()
            invariant
                i <= self.keys@.len(),
                k@ == key@,
                forall|j: int| 0 <= j < i ==> self.keys@[j]@ != key@,
            decreases self.keys@.len() - i,
        {
            if self.keys[i] == k {
                return Some(i);
            }
            i += 1;
        }
        None
    }

    /// Whether a value stands under the key.
    pub fn contains_key(&self, key: &str) -> (r: bool)
        ensures
            r == self@.contains_key(key@),
    {
        self.find(key).is_some()
    }

    /// The value under the key.
    pub fn get(&self, key: &str) -> (r: Option<&V>)
        ensures
            match r {
                Some(v) => self@.contains_key(key@) && *v == self@[key@],
                None => !self@.contains_key(key@),
            },
    {
        proof {
            use_type_invariant(self);
        }
        match self.find(key) {
            Some(i) => {
                proof {
                    self.lemma_slot(i as int);
                }
                Some(&self.values[i])
            },
            None => None,
        }
    }

    /// Puts the value under the key, in place of any value there.
    pub fn insert(&mut self, key: String, value: V)
        ensures
            final(self)@ == old(self)@.insert(key@, value),
    {
        let _ = self.replace(key, value);
    }

    /// Puts the value under the key and hands back the value that stood
    /// there.
    pub fn replace(&mut self, key: String, value: V) -> (r: Option<V>)
        ensures
            final(self)@ == old(self)@.insert(key@, value),
            r == if old(self)@.contains_key(key@) { Some(old(self)@[key@]) } else { None::<V> },
    {
        proof {
            use_type_invariant(&*self);
        }
        let ghost before = *self;
        let found = self.find(key.as_str());
        let mut taken = IdMap { keys: Vec::new(), values: Vec::new() };
        std::mem::swap(self, &mut taken);
        let IdMap { mut keys, mut values } = taken;
        match found {
            Some(i) => {
                proof {
                    before.lemma_slot(i as int);
                }
                let mut prev = value;
                std::mem::swap(&mut values[i], &mut prev);
                let r = IdMap { keys, values };
                proof {
                    assert forall|k: Seq<char>| r.has(k) implies r.slot(k) == before.slot(k) by {
                        let j = r.slot(k);
                        before.lemma_slot(j);
                    }
                    assert(r@ =~= before@.insert(key@, value));
                }
                *self = r;
                Some(prev)
            },
            None => {
                let ghost kv = key@;
                keys.push(key);
                values.push(value);
                let r = IdMap { keys, values };
                proof {
                    let n = before.keys@.len() as int;
                    assert(r.keys@[n]@ == kv);
                    r.lemma_slot(n);
                    assert forall|k: Seq<char>| before.has(k) implies r.slot(k) == before.slot(k) by {
                        let j = before.slot(k);
                        assert(r.keys@[j] == before.keys@[j]);
                        r.lemma_slot(j);
                    }
                    assert forall|k: Seq<char>| r.has(k) && k != kv implies before.has(k) by {
                        let j = r.slot(k);
                        assert(r.keys@[j] == before.keys@[j]);
                    }
                    assert forall|k: Seq<char>| before.has(k) implies r.has(k) by {
                        let j = before.slot(k);
                        assert(r.keys@[j] == before.keys@[j]);
                    }
                    assert(r.values@[n] == value);
                    assert forall|k: Seq<char>| #[trigger] r@.contains_key(k) implies r@[k] == before@.insert(kv, value)[k] by {
                        if k != kv {
                            let j = before.slot(k);
                            assert(r.values@[j] == before.values@[j]);
                        }
                    }
                    assert(r@ =~= before@.insert(kv, value));
                }
                *self = r;
                None
            },
        }
    }

    /// Takes the value under the key out, when there is one.
    pub fn remove(&mut self, key: &str) -> (r: Option<V>)
        ensures
            final(self)@ == old(self)@.remove(key@),
            r == if old(self)@.contains_key(key@) { Some(old(self)@[key@]) } else { None::<V> },
    {
        proof {
            use_type_invariant(&*self);
        }
        let ghost before = *self;
        match self.find(key) {
            Some(i) => {
                proof {
                    before.lemma_slot(i as int);
                }
                let mut taken = IdMap { keys: Vec::new(), values: Vec::new() };
                std::mem::swap(self, &mut taken);
                let IdMap { mut keys, mut values } = taken;
                let _ = keys.remove(i);
                let gone = values.remove(i);
                proof {
                    assert forall|a: int, b: int| 0 <= a < b < keys@.len() implies #[trigger] keys@[a]@
                        != #[trigger] keys@[b]@ by {
                        let a2 = if a < i { a } else { a + 1 };
                        let b2 = if b < i { b } else { b + 1 };
                        assert(keys@[a] == before.keys@[a2]);
                        assert(keys@[b] == before.keys@[b2]);
                    }
                }
                let r = IdMap { keys, values };
                proof {
                    let kv = key@;
                    assert forall|k: Seq<char>| r.has(k) implies before.has(k) && k != kv && r.values@[r.slot(k)]
                        == before.values@[before.slot(k)] by {
                        let j = r.slot(k);
                        let j2 = if j < i { j } else { j + 1 };
                        assert(r.keys@[j] == before.keys@[j2]);
                        assert(r.values@[j] == before.values@[j2]);
                        before.lemma_slot(j2);
                    }
                    assert forall|k: Seq<char>| before.has(k) && k != kv implies r.has(k) by {
                        let j2 = before.slot(k);
                        before.lemma_slot(j2);
                        let j = if j2 < i { j2 } else { j2 - 1 };
                        assert(r.keys@[j] == before.keys@[j2]);
                    }
                    assert(r@ =~= before@.remove(kv));
                }
                *self = r;
                Some(gone)
            },
            None => {
                assert(before@.remove(key@) =~= before@);
                None
            },
        }
    }
}

impl<V: Clone> Clone for IdMap<V> {
    /// A copy with the same keys, each value cloned.
    fn clone(&self) -> (r: Self)
        ensures
            r@.dom() == self@.dom(),
    {
        proof {
            use_type_invariant(self);
        }
        let keys = self.keys.clone();
        let values = self.values.clone();
        proof {
            assert forall|i: int| 0 <= i < keys@.len() implies keys@[i]@ == self.keys@[i]@ by {
                assert(cloned::<String>(self.keys@[i], keys@[i]));
            }
        }
        let r = IdMap { keys, values };
        proof {
            assert forall|k: Seq<char>| r.has(k) <==> self.has(k) by {
                if r.has(k) {
                    let j = r.slot(k);
                    assert(self.keys@[j]@ == k);
                }
                if self.has(k) {
                    let j = self.slot(k);
                    assert(r.keys@[j]@ == k);
                }
            }
            assert(r@.dom() =~= self@.dom());
        }
        r
    }
}

} // verus!
