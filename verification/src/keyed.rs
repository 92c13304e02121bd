//! A store of values by text key, each key held once: the collection both
//! caches keep their entries in. std's `HashMap` specifications in vstd hold
//! only for key types known to obey the key model (the integer types and
//! `bool`); for `String` keys that premise cannot be established, so this
//! store keeps its entries in a `Vec` with the keys held once as its
//! invariant, and looks a key up by scanning.

use vstd::prelude::*;
use crate::text::same_text;

verus! {

struct Slot<V> {
    key: String,
    value: V,
}

spec fn slots_map<V>(s: Seq<Slot<V>>) -> Map<Seq<char>, V>
    decreases s.len(),
{
    if s.len() == 0 {
        Map::empty()
    } else {
        slots_map(s.drop_last()).insert(s.last().key@, s.last().value)
    }
}

spec fn keys_unique<V>(s: Seq<Slot<V>>) -> bool {
    forall|i: int, j: int| 0 <= i < s.len() && 0 <= j < s.len() && i != j ==> s[i].key@ != s[j].key@
}

proof fn lemma_slots_map<V>(s: Seq<Slot<V>>)
    requires
        keys_unique(s),
    ensures
        forall|i: int| 0 <= i < s.len() ==> #[trigger] slots_map(s).contains_key(s[i].key@)
            && slots_map(s)[s[i].key@] == s[i].value,
        forall|k: Seq<char>| #[trigger] slots_map(s).contains_key(k) ==> exists|i: int| 0 <= i < s.len() && s[i].key@ == k,
    decreases s.len(),
{
    if s.len() > 0 {
        let t = s.drop_last();
        assert(keys_unique(t));
        lemma_slots_map(t);
        assert forall|i: int| 0 <= i < s.len() implies #[trigger] slots_map(s).contains_key(s[i].key@)
            && slots_map(s)[s[i].key@] == s[i].value by {
            if i < s.len() - 1 {
                assert(t[i] == s[i]);
                assert(slots_map(t).contains_key(t[i].key@));
                assert(s[i].key@ != s[s.len() - 1].key@);
            }
        }
        assert forall|k: Seq<char>| #[trigger] slots_map(s).contains_key(k) implies exists|i: int| 0 <= i < s.len() && s[i].key@ == k by {
            if k != s.last().key@ {
                assert(slots_map(t).contains_key(k));
                let i = choose|i: int| 0 <= i < t.len() && t[i].key@ == k;
                assert(s[i] == t[i]);
            } else {
                assert(s[s.len() - 1].key@ == k);
            }
        }
    }
}

/// Values by text key; a key is held at most once.
pub struct KeyedStore<V> {
    slots: Vec<Slot<V>>,
}

impl<V> KeyedStore<V> {
    #[verifier::type_invariant]
    spec fn well_formed(self) -> bool {
        keys_unique(self.slots@)
    }

    /// The values by key.
    pub closed spec fn map(self) -> Map<Seq<char>, V> {
        slots_map(self.slots@)
    }

    /// A store without values.
    pub fn new() -> (s: KeyedStore<V>)
        ensures
            s.map() == Map::<Seq<char>, V>::empty(),
    {
        KeyedStore { slots: Vec::new() }
    }

    fn position(&self, key: &str) -> (r: Option<usize>)
        ensures
            match r {
                Some(i) => i < self.slots@.len() && self.slots@[i as int].key@ == key@,
                None => forall|i: int| 0 <= i < self.slots@.len() ==> self.slots@[i].key@ != key@,
            },
    {
        let n = self.slots.len();
        let mut i: usize = 0;
        while i < n
            invariant
                n == self.slots@.len(),
                i <= n,
                forall|j: int| 0 <= j < i ==> self.slots@[j].key@ != key@,
            decreases n - i,
        {
            if same_text(self.slots[i].key.as_str(), key) {
                return Some(i);
            }
            i = i + 1;
        }
        None
    }

    /// The value held for `key`, if any.
    pub fn get(&self, key: &str) -> (r: Option<&V>)
        ensures
            match r {
                Some(v) => self.map().contains_key(key@) && *v == self.map()[key@],
                None => !self.map().contains_key(key@),
            },
    {
        proof {
            use_type_invariant(self);
            lemma_slots_map(self.slots@);
        }
        match self.position(key) {
            Some(i) => {
                assert(self.map().contains_key(self.slots@[i as int].key@));
                Some(&self.slots[i].value)
            },
            None => None,
        }
    }

    /// Holds `value` for `key`, replacing any value held for it.
    pub fn insert(&mut self, key: String, value: V)
        ensures
            final(self).map() == old(self).map().insert(key@, value),
    {
        proof {
            use_type_invariant(&*self);
            lemma_slots_map(self.slots@);
        }
        let ghost old_slots = self.slots@;
        let found = self.position(key.as_str());
        let ghost new_key = key@;
        let slot = Slot { key, value };
        let mut slots: Vec<Slot<V>> = Vec::new();
        std::mem::swap(&mut slots, &mut self.slots);
        match found {
            Some(i) => { slots.set(i, slot); },
            None => { slots.push(slot); },
        }
        let ghost new_slots = slots@;
        proof {
            assert(keys_unique(new_slots));
            lemma_slots_map(new_slots);
            let expected = slots_map(old_slots).insert(new_key, value);
            assert forall|k: Seq<char>| #[trigger] slots_map(new_slots).contains_key(k) <==> expected.contains_key(k) by {
                if slots_map(new_slots).contains_key(k) {
                    let j = choose|j: int| 0 <= j < new_slots.len() && new_slots[j].key@ == k;
                    if k != new_key {
                        assert(old_slots[j] == new_slots[j]);
                    }
                }
                if expected.contains_key(k) && k != new_key {
                    let j = choose|j: int| 0 <= j < old_slots.len() && old_slots[j].key@ == k;
                    assert(old_slots[j] == new_slots[j]);
                }
                if k == new_key {
                    match found {
                        Some(i) => { assert(new_slots[i as int].key@ == k); },
                        None => { assert(new_slots[old_slots.len() as int].key@ == k); },
                    }
                }
            }
            assert forall|k: Seq<char>| #[trigger] slots_map(new_slots).contains_key(k) implies slots_map(new_slots)[k] == expected[k] by {
                let j = choose|j: int| 0 <= j < new_slots.len() && new_slots[j].key@ == k;
                if k != new_key {
                    assert(old_slots[j] == new_slots[j]);
                }
            }
            assert(slots_map(new_slots) =~= expected);
        }
        self.slots = slots;
    }
}

} // verus!
