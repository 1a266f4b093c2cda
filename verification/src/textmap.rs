//! A map from texts to values that keeps its keys in order.
use vstd::prelude::*;

use crate::text::{
    lemma_text_order_is_strict, lemma_text_order_is_total, same_text, stands_before, text_before,
};

verus! {

/// Whether texts stand in strictly ascending order.
pub open spec fn ascending(keys: Seq<Seq<char>>) -> bool {
    forall|i: int, j: int| 0 <= i < j < keys.len() ==> text_before(#[trigger] keys[i], #[trigger] keys[j])
}

/// A map from texts to values. Its entries are held in the order of the keys,
/// and each key occurs once.
#[derive(Debug, Clone)]
pub struct TextMap<V> {
    entries: Vec<(String, V)>,
}

impl<V: View> View for TextMap<V> {
    type V = Map<Seq<char>, V::V>;

    /// The map from each key to what its value stands for.
    closed spec fn view(&self) -> Map<Seq<char>, V::V> {
        Map::new(
            |k: Seq<char>| self.keys().contains(k),
            |k: Seq<char>| self.entries@[self.keys().index_of(k)].1@,
        )
    }
}

impl<V: View> TextMap<V> {
    /// The keys, in the order in which the entries are held.
    pub closed spec fn keys(&self) -> Seq<Seq<char>> {
        self.entries@.map(|i: int, entry: (String, V)| entry.0@)
    }

    /// The keys are in order and none occurs twice.
    pub closed spec fn wf(&self) -> bool {
        ascending(self.keys())
    }

    /// What the order of the keys gives: they are the domain of the map, each
    /// once, and the value at a key's place is the value of the map there.
    pub proof fn lemma_keys(&self)
        requires
            self.wf(),
        ensures
            ascending(self.keys()),
            self.keys().no_duplicates(),
            self@.dom() == self.keys().to_set(),
            self@.dom().finite(),
            self@.len() == self.keys().len(),
            forall|k: Seq<char>| #[trigger] self@.contains_key(k) <==> self.keys().contains(k),
    {
        assert forall|i: int, j: int|
            0 <= i < self.keys().len() && 0 <= j < self.keys().len() && i != j implies self.keys()[i]
            != self.keys()[j] by {
            lemma_text_order_is_strict(self.keys()[i], self.keys()[i], self.keys()[i]);
            if i < j {
                assert(text_before(self.keys()[i], self.keys()[j]));
            } else {
                assert(text_before(self.keys()[j], self.keys()[i]));
            }
        }
        assert(self@.dom() =~= self.keys().to_set());
        self.keys().unique_seq_to_set();
    }

    proof fn lemma_value_at(&self, i: int)
        requires
            self.wf(),
            0 <= i < self.entries@.len(),
        ensures
            self.keys().len() == self.entries@.len(),
            self.keys()[i] == self.entries@[i].0@,
            self@.contains_key(self.entries@[i].0@),
            self@[self.entries@[i].0@] == self.entries@[i].1@,
    {
        self.lemma_keys();
        let k = self.entries@[i].0@;
        assert(self.keys()[i] == k);
        assert(self.keys().contains(k));
    }

    /// Replacing one value keeps the keys and changes the map at that key alone.
    proof fn lemma_replaced(&self, before: Self, i: int)
        requires
            before.wf(),
            0 <= i < before.entries@.len(),
            self.entries@ == before.entries@.update(
                i,
                (before.entries@[i].0, self.entries@[i].1),
            ),
        ensures
            self.wf(),
            self.keys() == before.keys(),
            self@ == before@.insert(before.entries@[i].0@, self.entries@[i].1@),
    {
        assert(self.keys() =~= before.keys());
        self.lemma_keys();
        before.lemma_keys();
        before.lemma_value_at(i);
        let key = before.entries@[i].0@;
        let after = before@.insert(key, self.entries@[i].1@);
        assert forall|k: Seq<char>| self@.contains_key(k) implies self@[k] == after[k] by {
            let j = self.keys().index_of(k);
            assert(self.keys()[j] == k);
            self.lemma_value_at(j);
            before.lemma_value_at(j);
        }
        assert(self@ =~= after);
    }

    /// An empty map.
    pub fn new() -> (m: Self)
        ensures
            m.wf(),
            m@ == Map::<Seq<char>, V::V>::empty(),
            m.keys() == Seq::<Seq<char>>::empty(),
    {
        let m = TextMap { entries: Vec::new() };
        assert(m.keys() =~= Seq::<Seq<char>>::empty());
        assert(m@ =~= Map::<Seq<char>, V::V>::empty());
        m
    }

    /// The number of entries.
    pub fn len(&self) -> (n: usize)
        requires
            self.wf(),
        ensures
            n == self@.len(),
            n == self.keys().len(),
    {
        proof {
            self.lemma_keys();
        }
        self.entries.len()
    }

    /// The key at a place in the order.
    pub fn key_at(&self, i: usize) -> (key: &String)
        requires
            self.wf(),
            i < self.keys().len(),
        ensures
            key@ == self.keys()[i as int],
            self@.contains_key(key@),
    {
        proof {
            self.lemma_value_at(i as int);
        }
        &self.entries[i].0
    }

    /// The value of the key at a place in the order.
    pub fn value_at(&self, i: usize) -> (value: &V)
        requires
            self.wf(),
            i < self.keys().len(),
        ensures
            value@ == self@[self.keys()[i as int]],
    {
        proof {
            self.lemma_value_at(i as int);
        }
        &self.entries[i].1
    }

    /// The place of a key, or the place where it would have to stand.
    fn place(&self, key: &str) -> (r: (usize, bool))
        requires
            self.wf(),
        ensures
            r.1 == self@.contains_key(key@),
            r.0 <= self.entries@.len(),
            r.1 ==> r.0 < self.entries@.len() && self.entries@[r.0 as int].0@ == key@,
            forall|i: int| 0 <= i < r.0 ==> text_before(#[trigger] self.keys()[i], key@),
            !r.1 ==> forall|i: int|
                r.0 <= i < self.keys().len() ==> text_before(key@, #[trigger] self.keys()[i]),
    {
        let n: usize = self.entries.len();
        let mut i: usize = 0;
        while i < n && stands_before(self.entries[i].0.as_str(), key)
            invariant
                self.wf(),
                n == self.entries@.len(),
                i <= n,
                forall|j: int| 0 <= j < i ==> text_before(#[trigger] self.keys()[j], key@),
            decreases n - i,
        {
            i = i + 1;
        }
        proof {
            self.lemma_keys();
        }
        if i < n && same_text(self.entries[i].0.as_str(), key) {
            proof {
                self.lemma_value_at(i as int);
            }
            return (i, true);
        }
        proof {
            if i < n {
                lemma_text_order_is_total(self.keys()[i as int], key@);
            }
            assert forall|j: int| i <= j < self.keys().len() implies text_before(
                key@,
                #[trigger] self.keys()[j],
            ) by {
                if j > i {
                    lemma_text_order_is_strict(key@, self.keys()[i as int], self.keys()[j]);
                }
            }
            if self.keys().contains(key@) {
                let j = choose|j: int| 0 <= j < self.keys().len() && self.keys()[j] == key@;
                lemma_text_order_is_strict(key@, key@, key@);
                assert(text_before(key@, key@));
            }
        }
        (i, false)
    }

    /// Whether a key has a value.
    pub fn contains_key(&self, key: &str) -> (found: bool)
        requires
            self.wf(),
        ensures
            found == self@.contains_key(key@),
    {
        self.place(key).1
    }

    /// The value of a key.
    pub fn get(&self, key: &str) -> (value: Option<&V>)
        requires
            self.wf(),
        ensures
            value is Some <==> self@.contains_key(key@),
            value matches Some(v) ==> v@ == self@[key@],
    {
        let (i, found) = self.place(key);
        if found {
            proof {
                self.lemma_value_at(i as int);
            }
            Some(&self.entries[i].1)
        } else {
            None
        }
    }

    /// The value of a key, to be changed in place.
    pub fn get_mut(&mut self, key: &str) -> (value: Option<&mut V>)
        requires
            old(self).wf(),
        ensures
            final(self).wf(),
            final(self).keys() == old(self).keys(),
            value is Some <==> old(self)@.contains_key(key@),
            match value {
                Some(v) => v@ == old(self)@[key@] && final(self)@ == old(self)@.insert(
                    key@,
                    final(v)@,
                ),
                None => final(self)@ == old(self)@,
            },
    {
        let (i, found) = self.place(key);
        if found {
            proof {
                self.lemma_value_at(i as int);
            }
            let ghost before = *self;
            proof {
                assert forall|m: Self|
                    #![trigger m.wf()]
                    #![trigger m.keys()]
                    #![trigger m@]
                    m.entries@ == before.entries@.update(
                        i as int,
                        (before.entries@[i as int].0, m.entries@[i as int].1),
                    ) implies m.wf() && m.keys() == before.keys() && m@ == before@.insert(
                    key@,
                    m.entries@[i as int].1@,
                ) by {
                    m.lemma_replaced(before, i as int);
                }
            }
            Some(&mut self.entries[i].1)
        } else {
            None
        }
    }

    /// The value of the key at a place in the order, to be changed in place.
    pub fn value_at_mut(&mut self, i: usize) -> (value: &mut V)
        requires
            old(self).wf(),
            i < old(self).keys().len(),
        ensures
            final(self).wf(),
            final(self).keys() == old(self).keys(),
            value@ == old(self)@[old(self).keys()[i as int]],
            final(self)@ == old(self)@.insert(old(self).keys()[i as int], final(value)@),
    {
        let ghost before = *self;
        proof {
            self.lemma_value_at(i as int);
            assert forall|m: Self|
                #![trigger m.wf()]
                #![trigger m.keys()]
                #![trigger m@]
                m.entries@ == before.entries@.update(
                    i as int,
                    (before.entries@[i as int].0, m.entries@[i as int].1),
                ) implies m.wf() && m.keys() == before.keys() && m@ == before@.insert(
                before.keys()[i as int],
                m.entries@[i as int].1@,
            ) by {
                m.lemma_replaced(before, i as int);
            }
        }
        &mut self.entries[i].1
    }

    /// Gives a key a value, in place of the one it may have had.
    pub fn insert(&mut self, key: String, value: V)
        requires
            old(self).wf(),
        ensures
            final(self).wf(),
            final(self)@ == old(self)@.insert(key@, value@),
    {
        let (i, found) = self.place(key.as_str());
        let ghost before = *self;
        if found {
            self.entries[i].1 = value;
            proof {
                assert(self.entries@ =~= before.entries@.update(
                    i as int,
                    (before.entries@[i as int].0, self.entries@[i as int].1),
                ));
                self.lemma_replaced(before, i as int);
            }
        } else {
            self.entries.insert(i, (key, value));
            proof {
                self.lemma_inserted(before, i as int);
            }
        }
    }

    proof fn lemma_inserted(&self, before: Self, i: int)
        requires
            before.wf(),
            0 <= i <= before.entries@.len(),
            i < self.entries@.len(),
            self.entries@ == before.entries@.insert(i, self.entries@[i]),
            forall|j: int|
                0 <= j < i ==> text_before(#[trigger] before.keys()[j], self.entries@[i].0@),
            forall|j: int|
                i <= j < before.keys().len() ==> text_before(
                    self.entries@[i].0@,
                    #[trigger] before.keys()[j],
                ),
        ensures
            self.wf(),
            self@ == before@.insert(self.entries@[i].0@, self.entries@[i].1@),
    {
        let key = self.entries@[i].0@;
        let n = before.keys();
        assert(self.keys() =~= n.insert(i, key));
        assert forall|a: int, b: int| 0 <= a < b < self.keys().len() implies text_before(
            #[trigger] self.keys()[a],
            #[trigger] self.keys()[b],
        ) by {
            if a < i {
                assert(self.keys()[a] == n[a]);
            } else if a > i {
                assert(self.keys()[a] == n[a - 1]);
            }
            if b < i {
                assert(self.keys()[b] == n[b]);
            } else if b > i {
                assert(self.keys()[b] == n[b - 1]);
            }
        }
        self.lemma_keys();
        before.lemma_keys();
        self.lemma_value_at(i);
        let after = before@.insert(key, self.entries@[i].1@);
        assert forall|k: Seq<char>| self@.contains_key(k) <==> after.contains_key(k) by {
            if self@.contains_key(k) {
                let j = self.keys().index_of(k);
                assert(self.keys()[j] == k);
                if j < i {
                    assert(n[j] == k);
                } else if j > i {
                    assert(n[j - 1] == k);
                }
            }
            if before@.contains_key(k) {
                let j = n.index_of(k);
                assert(n[j] == k);
                if j < i {
                    assert(self.keys()[j] == k);
                } else {
                    assert(self.keys()[j + 1] == k);
                }
            }
        }
        assert forall|k: Seq<char>| self@.contains_key(k) implies self@[k] == after[k] by {
            let j = self.keys().index_of(k);
            assert(self.keys()[j] == k);
            self.lemma_value_at(j);
            if j < i {
                before.lemma_value_at(j);
                lemma_text_order_is_strict(n[j], key, key);
            } else if j > i {
                before.lemma_value_at(j - 1);
                lemma_text_order_is_strict(key, n[j - 1], key);
            }
        }
        assert(self@ =~= after);
    }

    /// Removes the entry at a place in the order.
    pub fn remove_at(&mut self, i: usize)
        requires
            old(self).wf(),
            i < old(self).keys().len(),
        ensures
            final(self).wf(),
            final(self).keys() == old(self).keys().remove(i as int),
            final(self)@ == old(self)@.remove(old(self).keys()[i as int]),
    {
        let ghost before = *self;
        self.entries.remove(i);
        proof {
            let n = before.keys();
            assert(self.keys() =~= n.remove(i as int));
            assert forall|a: int, b: int| 0 <= a < b < self.keys().len() implies text_before(
                #[trigger] self.keys()[a],
                #[trigger] self.keys()[b],
            ) by {
                let x = if a < i {
                    a
                } else {
                    a + 1
                };
                let y = if b < i {
                    b
                } else {
                    b + 1
                };
                assert(self.keys()[a] == n[x] && self.keys()[b] == n[y]);
            }
            self.lemma_keys();
            before.lemma_keys();
            let key = n[i as int];
            let after = before@.remove(key);
            assert forall|k: Seq<char>| self@.contains_key(k) <==> after.contains_key(k) by {
                if self@.contains_key(k) {
                    let j = self.keys().index_of(k);
                    assert(self.keys()[j] == k);
                    let x = if j < i {
                        j
                    } else {
                        j + 1
                    };
                    assert(n[x] == k);
                }
                if after.contains_key(k) {
                    let j = n.index_of(k);
                    assert(n[j] == k);
                    if j < i {
                        assert(self.keys()[j] == k);
                    } else {
                        assert(self.keys()[j - 1] == k);
                    }
                }
            }
            assert forall|k: Seq<char>| self@.contains_key(k) implies self@[k] == after[k] by {
                let j = self.keys().index_of(k);
                assert(self.keys()[j] == k);
                self.lemma_value_at(j);
                let x = if j < i {
                    j
                } else {
                    j + 1
                };
                before.lemma_value_at(x);
            }
            assert(self@ =~= after);
        }
    }

    /// Takes a key and its value out of the map.
    pub fn remove(&mut self, key: &str)
        requires
            old(self).wf(),
        ensures
            final(self).wf(),
            final(self)@ == old(self)@.remove(key@),
    {
        let (i, found) = self.place(key);
        if found {
            proof {
                self.lemma_value_at(i as int);
            }
            self.remove_at(i);
        } else {
            assert(self@ =~= self@.remove(key@));
        }
    }
}

/// A map holds for each text what was put there last: putting, changing and taking out
/// bears on one text alone.
pub proof fn law_maps_hold_what_was_put_there<V: View>(
    map: &TextMap<V>,
    key: &str,
    text: String,
    value: V,
    empty: TextMap<V>,
    n: usize,
    found: bool,
    got: Option<&V>,
    i: usize,
)
    requires
        map.wf(),
        call_ensures(TextMap::<V>::new, (), empty),
        call_ensures(TextMap::<V>::len, (map,), n),
        call_ensures(TextMap::<V>::contains_key, (map, key), found),
        call_ensures(TextMap::<V>::get, (map, key), got),
    ensures
        empty@.len() == 0,
        n == map@.len(),
        found <==> map@.contains_key(key@),
        got is Some <==> map@.contains_key(key@),
        got matches Some(v) ==> v@ == map@[key@],
        forall|m: &mut TextMap<V>| #[trigger]
            call_ensures(TextMap::<V>::insert, (m, text, value), ()) ==> final(m)@ == m@.insert(
                text@,
                value@,
            ),
        forall|m: &mut TextMap<V>| #[trigger]
            call_ensures(TextMap::<V>::remove, (m, key), ()) ==> final(m)@ == m@.remove(key@),
        forall|m: &mut TextMap<V>| #[trigger]
            call_ensures(TextMap::<V>::remove_at, (m, i), ()) ==> final(m)@ == m@.remove(
                m.keys()[i as int],
            ),
{
}

/// What stands at a place in the order of a map is the text there and its value.
pub proof fn law_maps_are_walked_in_order<V: View>(
    map: &TextMap<V>,
    i: usize,
    key: &String,
    value: &V,
)
    requires
        map.wf(),
        i < map.keys().len(),
        call_ensures(TextMap::<V>::key_at, (map, i), key),
        call_ensures(TextMap::<V>::value_at, (map, i), value),
    ensures
        map@.contains_key(key@),
        value@ == map@[key@],
        key@ == map.keys()[i as int],
        forall|j: int| 0 <= j < i ==> text_before(#[trigger] map.keys()[j], key@),
{
    map.lemma_keys();
}

} // verus!
