//! A small table from text to values, in the order in which the entries were made.

use vstd::prelude::*;
use vstd::string::*;

use crate::seqs::{first_is_position, position, position_is_first};
use crate::text::same_text;

verus! {

/// At most one value under each key.
pub struct Table<V> {
    entries: Vec<(String, V)>,
}

/// Whether a value stands under some key.
pub open spec fn stands_in<V>(table: Map<Seq<char>, V>, value: V) -> bool {
    exists|key: Seq<char>| #[trigger] table.contains_key(key) && table[key] == value
}

spec fn under<V>(key: Seq<char>) -> spec_fn((String, V)) -> bool {
    |entry: (String, V)| entry.0@ == key
}

spec fn place<V>(entries: Seq<(String, V)>, key: Seq<char>) -> int {
    position(entries, under(key), 0)
}

impl<V> View for Table<V> {
    type V = Map<Seq<char>, V>;

    /// The value under each key.
    closed spec fn view(&self) -> Map<Seq<char>, V> {
        let list = self.entries@;
        Map::new(
            |key: Seq<char>| 0 <= place(list, key) < list.len(),
            |key: Seq<char>| list[place(list, key)].1,
        )
    }
}

impl<V> Table<V> {
    /// No key stands twice.
    pub closed spec fn wf(self) -> bool {
        forall|i: int, j: int|
            0 <= i < j < self.entries@.len() ==> self.entries@[i].0@ != self.entries@[j].0@
    }

    pub fn new() -> (table: Self)
        ensures
            table.wf(),
            table@ == Map::<Seq<char>, V>::empty(),
    {
        let table = Table { entries: Vec::new() };
        assert(table@ =~= Map::<Seq<char>, V>::empty());
        table
    }

    proof fn lemma_at(self, at: int)
        requires
            self.wf(),
            0 <= at < self.entries@.len(),
        ensures
            place(self.entries@, self.entries@[at].0@) == at,
            self@.contains_key(self.entries@[at].0@),
            self@[self.entries@[at].0@] == self.entries@[at].1,
    {
        first_is_position(self.entries@, under(self.entries@[at].0@), 0, at);
    }

    proof fn lemma_absent(self, key: Seq<char>)
        requires
            forall|i: int| 0 <= i < self.entries@.len() ==> (#[trigger] self.entries@[i]).0@ != key,
        ensures
            !self@.contains_key(key),
    {
        first_is_position(self.entries@, under(key), 0, self.entries@.len() as int);
    }

    proof fn lemma_present(self, key: Seq<char>)
        requires
            self@.contains_key(key),
        ensures
            0 <= place(self.entries@, key) < self.entries@.len(),
            self.entries@[place(self.entries@, key)].0@ == key,
    {
        position_is_first(self.entries@, under(key), 0);
    }

    fn find(&self, key: &str) -> (found: Option<usize>)
        requires
            self.wf(),
        ensures
            match found {
                Some(at) => {
                    &&& at < self.entries@.len()
                    &&& self.entries@[at as int].0@ == key@
                    &&& self@.contains_key(key@)
                    &&& self@[key@] == self.entries@[at as int].1
                },
                None => {
                    &&& !self@.contains_key(key@)
                    &&& forall|i: int|
                        0 <= i < self.entries@.len() ==> (#[trigger] self.entries@[i]).0@ != key@
                },
            },
    {
        let mut at: usize = 0;
        while at < self.entries.len()
            invariant
                self.wf(),
                at <= self.entries@.len(),
                forall|i: int| 0 <= i < at ==> (#[trigger] self.entries@[i]).0@ != key@,
            decreases self.entries@.len() - at,
        {
            if same_text(&self.entries[at].0, key) {
                proof {
                    self.lemma_at(at as int);
                }
                return Some(at);
            }
            at = at + 1;
        }
        proof {
            self.lemma_absent(key@);
        }
        None
    }

    /// Takes the value under a key out of the table.
    pub fn remove(&mut self, key: &str) -> (value: Option<V>)
        requires
            old(self).wf(),
        ensures
            final(self).wf(),
            final(self)@ == old(self)@.remove(key@),
            value == (if old(self)@.contains_key(key@) {
                Some(old(self)@[key@])
            } else {
                None
            }),
    {
        match self.find(key) {
            Some(at) => {
                let ghost before = *self;
                let entry = self.entries.remove(at);
                proof {
                    let now = self.entries@;
                    let was = before.entries@;
                    assert forall|i: int| 0 <= i < now.len() implies #[trigger] now[i] == was[if i
                        < at {
                        i
                    } else {
                        i + 1
                    }] by {}
                    assert(self.wf()) by {
                        assert forall|i: int, j: int| 0 <= i < j < now.len() implies now[i].0@
                            != now[j].0@ by {
                            let i2 = if i < at {
                                i
                            } else {
                                i + 1
                            };
                            let j2 = if j < at {
                                j
                            } else {
                                j + 1
                            };
                            assert(was[i2].0@ != was[j2].0@);
                        }
                    }
                    let expected = before@.remove(key@);
                    assert forall|other: Seq<char>| #[trigger]
                        self@.dom().contains(other) == expected.dom().contains(other) && (
                        self@.dom().contains(other) ==> self@[other] == expected[other]) by {
                        if other == key@ {
                            assert forall|i: int| 0 <= i < now.len() implies (
                            #[trigger] now[i]).0@ != other by {
                                let i2 = if i < at {
                                    i
                                } else {
                                    i + 1
                                };
                                assert(was[i2].0@ != was[at as int].0@);
                            }
                            self.lemma_absent(other);
                        } else if before@.contains_key(other) {
                            before.lemma_present(other);
                            let p = place(was, other);
                            let q = if p < at {
                                p
                            } else {
                                p - 1
                            };
                            assert(now[q] == was[p]);
                            self.lemma_at(q);
                        } else {
                            if self@.contains_key(other) {
                                self.lemma_present(other);
                                let q = place(now, other);
                                let p = if q < at {
                                    q
                                } else {
                                    q + 1
                                };
                                assert(now[q] == was[p]);
                                before.lemma_at(p);
                            }
                        }
                    }
                    assert(self@ =~= expected);
                }
                Some(entry.1)
            },
            None => {
                assert(self@.remove(key@) =~= self@);
                None
            },
        }
    }

    /// Puts a value under a key, in place of what stood there.
    pub fn insert(&mut self, key: &str, value: V)
        requires
            old(self).wf(),
        ensures
            final(self).wf(),
            final(self)@ == old(self)@.insert(key@, value),
    {
        let ghost start = *self;
        let _ = self.remove(key);
        let ghost before = *self;
        let owned = key.to_owned();
        self.entries.push((owned, value));
        proof {
            let now = self.entries@;
            let was = before.entries@;
            assert(!before@.contains_key(key@));
            assert forall|i: int| 0 <= i < was.len() implies (#[trigger] was[i]).0@ != key@ by {
                before.lemma_at(i);
            }
            assert(self.wf());
            let expected = start@.insert(key@, value);
            assert forall|other: Seq<char>| #[trigger]
                self@.dom().contains(other) == expected.dom().contains(other) && (
                self@.dom().contains(other) ==> self@[other] == expected[other]) by {
                if other == key@ {
                    assert(now[now.len() - 1] == (owned, value));
                    self.lemma_at(now.len() - 1);
                } else if before@.contains_key(other) {
                    before.lemma_present(other);
                    let p = place(was, other);
                    assert(now[p] == was[p]);
                    before.lemma_at(p);
                    self.lemma_at(p);
                } else {
                    if self@.contains_key(other) {
                        self.lemma_present(other);
                        let p = place(now, other);
                        assert(now[was.len() as int].0@ == key@);
                        assert(now[p] == was[p]);
                        before.lemma_at(p);
                    }
                    assert(!start@.contains_key(other));
                }
            }
            assert(self@ =~= expected);
        }
    }

    /// Takes everything out of the table.
    pub fn take_all(&mut self) -> (values: Vec<V>)
        requires
            old(self).wf(),
        ensures
            final(self).wf(),
            final(self)@ == Map::<Seq<char>, V>::empty(),
            values@.len() == old(self)@.dom().len(),
            old(self)@.dom().finite(),
            forall|key: Seq<char>| #[trigger]
                old(self)@.contains_key(key) ==> values@.contains(old(self)@[key]),
            forall|i: int|
                0 <= i < values@.len() ==> stands_in(old(self)@, #[trigger] values@[i]),
    {
        let ghost before = *self;
        let mut values: Vec<V> = Vec::new();
        let mut entries: Vec<(String, V)> = Vec::new();
        std::mem::swap(&mut entries, &mut self.entries);
        assert(self@ =~= Map::<Seq<char>, V>::empty());
        while entries.len() > 0
            invariant
                before.wf(),
                entries@.len() + values@.len() == before.entries@.len(),
                forall|i: int|
                    0 <= i < entries@.len() ==> #[trigger] entries@[i] == before.entries@[i],
                forall|i: int|
                    0 <= i < values@.len() ==> #[trigger] values@[i] == before.entries@[
                        before.entries@.len() - 1 - i].1,
            decreases entries@.len(),
        {
            if let Some(entry) = entries.pop() {
                values.push(entry.1);
            }
        }
        proof {
            let was = before.entries@;
            let named = Seq::new(was.len(), |i: int| was[i].0@);
            assert(named.no_duplicates());
            named.unique_seq_to_set();
            assert(named.to_set() =~= before@.dom()) by {
                assert forall|key: Seq<char>| #[trigger]
                    named.to_set().contains(key) == before@.dom().contains(key) by {
                    if named.to_set().contains(key) {
                        let i = choose|i: int| 0 <= i < named.len() && named[i] == key;
                        before.lemma_at(i);
                    }
                    if before@.dom().contains(key) {
                        before.lemma_present(key);
                        assert(named[place(was, key)] == key);
                    }
                }
            }
            assert forall|key: Seq<char>| #[trigger] before@.contains_key(key) implies values@.contains(
                before@[key],
            ) by {
                before.lemma_present(key);
                let p = place(was, key);
                assert(values@[was.len() - 1 - p] == was[p].1);
            }
            assert forall|i: int| 0 <= i < values@.len() implies stands_in(
                before@,
                #[trigger] values@[i],
            ) by {
                let p = was.len() - 1 - i;
                before.lemma_at(p);
                assert(before@.contains_key(was[p].0@) && before@[was[p].0@] == values@[i]);
            }
        }
        values
    }
}

} // verus!
