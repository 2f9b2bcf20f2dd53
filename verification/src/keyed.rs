//! A map from string keys to values, kept as a list of slots.

use vstd::prelude::*;

verus! {

/// No key stands in two slots of `slots`.
spec fn keys_distinct<V>(slots: Seq<(String, V)>) -> bool {
    forall|i: int, j: int|
        0 <= i < j < slots.len() ==> (#[trigger] slots[i]).0@ != (#[trigger] slots[j]).0@
}

/// Whether some slot of `slots` holds `key`.
spec fn has_key<V>(slots: Seq<(String, V)>, key: Seq<char>) -> bool {
    exists|i: int| 0 <= i < slots.len() && (#[trigger] slots[i]).0@ == key
}

/// A slot of `slots` that holds `key`, where there is one.
spec fn slot_of<V>(slots: Seq<(String, V)>, key: Seq<char>) -> int {
    choose|i: int| 0 <= i < slots.len() && (#[trigger] slots[i]).0@ == key
}

/// The map that a list of slots with distinct keys stands for.
spec fn slots_map<V>(slots: Seq<(String, V)>) -> Map<Seq<char>, V> {
    Map::new(|k: Seq<char>| has_key(slots, k), |k: Seq<char>| slots[slot_of(slots, k)].1)
}

proof fn lemma_slot<V>(slots: Seq<(String, V)>, i: int)
    requires
        keys_distinct(slots),
        0 <= i < slots.len(),
    ensures
        has_key(slots, slots[i].0@),
        slot_of(slots, slots[i].0@) == i,
        slots_map(slots).contains_key(slots[i].0@),
        slots_map(slots)[slots[i].0@] == slots[i].1,
{
    let k = slots[i].0@;
    assert(has_key(slots, k));
    let j = slot_of(slots, k);
    assert(0 <= j < slots.len() && slots[j].0@ == k);
    if j < i {
        assert(slots[j].0@ != slots[i].0@);
    } else if i < j {
        assert(slots[i].0@ != slots[j].0@);
    }
}

/// A map from strings to values of type `V`. Each key is held once.
pub struct StringMap<V> {
    slots: Vec<(String, V)>,
}

impl<V> View for StringMap<V> {
    type V = Map<Seq<char>, V>;

    closed spec fn view(&self) -> Map<Seq<char>, V> {
        slots_map(self.slots@)
    }
}

impl<V> StringMap<V> {
    #[verifier::type_invariant]
    spec fn keys_are_distinct(&self) -> bool {
        keys_distinct(self.slots@)
    }

    /// An empty map.
    pub fn new() -> (r: Self)
        ensures
            r@ == Map::<Seq<char>, V>::empty(),
    {
        let r = StringMap { slots: Vec::new() };
        assert(r@ =~= Map::<Seq<char>, V>::empty());
        r
    }

    /// The slot that holds `key`, if any.
    fn find(&self, key: &String) -> (r: Option<usize>)
        ensures
            match r {
                Some(i) => i < self.slots@.len() && self.slots@[i as int].0@ == key@,
                None => !has_key(self.slots@, key@),
            },
    {
        let mut i: usize = 0;
        while i < self.slots.len()
            invariant
                i <= self.slots@.len(),
                forall|j: int| 0 <= j < i ==> (#[trigger] self.slots@[j]).0@ != key@,
            decreases self.slots@.len() - i,
        {
            if self.slots[i].0 == *key {
                return Some(i);
            }
            i += 1;
        }
        None
    }

    /// The value stored under `key`, if there is one.
    pub fn get(&self, key: &String) -> (r: Option<&V>)
        ensures
            match r {
                Some(value) => self@.contains_key(key@) && *value == self@[key@],
                None => !self@.contains_key(key@),
            },
    {
        proof {
            use_type_invariant(self);
        }
        match self.find(key) {
            Some(i) => {
                proof {
                    lemma_slot(self.slots@, i as int);
                }
                Some(&self.slots[i].1)
            },
            None => None,
        }
    }

    /// Stores `value` under `key`, over whatever was there, and returns the
    /// value that it replaced.
    pub fn insert(&mut self, key: String, value: V) -> (r: Option<V>)
        ensures
            final(self)@ == old(self)@.insert(key@, value),
            match r {
                Some(prev) => old(self)@.contains_key(key@) && prev == old(self)@[key@],
                None => !old(self)@.contains_key(key@),
            },
    {
        proof {
            use_type_invariant(&*self);
        }
        let ghost before = self.slots@;
        let found = self.find(&key);
        let mut slots: Vec<(String, V)> = Vec::new();
        std::mem::swap(&mut self.slots, &mut slots);
        match found {
            Some(i) => {
                proof {
                    lemma_slot(before, i as int);
                }
                let mut slot = (key, value);
                std::mem::swap(&mut slots[i], &mut slot);
                proof {
                    let after = slots@;
                    assert(keys_distinct(after));
                    assert forall|k: Seq<char>| has_key(after, k) == has_key(before, k) by {
                        if has_key(before, k) {
                            let j = slot_of(before, k);
                            assert(after[j].0@ == k);
                        }
                        if has_key(after, k) {
                            let j = slot_of(after, k);
                            assert(before[j].0@ == k);
                        }
                    }
                    assert forall|k: Seq<char>| has_key(after, k) implies slots_map(after)[k]
                        == slots_map(before).insert(key@, value)[k] by {
                        let j = slot_of(after, k);
                        lemma_slot(after, j);
                        lemma_slot(before, j);
                    }
                    assert(slots_map(after) =~= slots_map(before).insert(key@, value));
                }
                self.slots = slots;
                Some(slot.1)
            },
            None => {
                slots.push((key, value));
                proof {
                    let after = slots@;
                    let n = before.len() as int;
                    assert(after[n].0@ == key@);
                    assert(keys_distinct(after)) by {
                        assert forall|i: int, j: int| 0 <= i < j < after.len() implies (
                        #[trigger] after[i]).0@ != (#[trigger] after[j]).0@ by {
                            if j == n {
                                assert(before[i].0@ != key@);
                            } else {
                                assert(before[i].0@ != before[j].0@);
                            }
                        }
                    }
                    assert forall|k: Seq<char>| has_key(after, k) == (has_key(before, k) || k
                        == key@) by {
                        if has_key(before, k) {
                            let j = slot_of(before, k);
                            assert(after[j].0@ == k);
                        }
                        if has_key(after, k) {
                            let j = slot_of(after, k);
                            if j < n {
                                assert(before[j].0@ == k);
                            }
                        }
                    }
                    assert forall|k: Seq<char>| has_key(after, k) implies slots_map(after)[k]
                        == slots_map(before).insert(key@, value)[k] by {
                        let j = slot_of(after, k);
                        lemma_slot(after, j);
                        if j < n {
                            lemma_slot(before, j);
                        }
                    }
                    assert(slots_map(after) =~= slots_map(before).insert(key@, value));
                }
                self.slots = slots;
                None
            },
        }
    }
}

} // verus!
