//! Maps keyed by text, kept in dictionary order.

use vstd::prelude::*;
use crate::text::{
    less, text_eq, text_less, text_less_irreflexive, text_less_total, text_less_transitive,
};

verus! {

/// A map from texts to values, in dictionary order of its keys.
#[derive(Debug)]
pub struct TextMap<V> {
    entries: Vec<(String, V)>,
}

spec fn ascending<V>(entries: Seq<(String, V)>) -> bool {
    forall|i: int, j: int|
        0 <= i < j < entries.len() ==> text_less(
            (#[trigger] entries[i]).0@,
            (#[trigger] entries[j]).0@,
        )
}

spec fn stands_at<V>(entries: Seq<(String, V)>, key: Seq<char>, place: int) -> bool {
    0 <= place < entries.len() && entries[place].0@ == key
}

spec fn contents<V>(entries: Seq<(String, V)>) -> Map<Seq<char>, V> {
    Map::new(
        |key: Seq<char>| exists|place: int| #[trigger] stands_at(entries, key, place),
        |key: Seq<char>| entries[choose|place: int| #[trigger] stands_at(entries, key, place)].1,
    )
}

proof fn one_place<V>(entries: Seq<(String, V)>, first: int, second: int)
    requires
        ascending(entries),
        0 <= first < entries.len(),
        0 <= second < entries.len(),
        entries[first].0@ == entries[second].0@,
    ensures
        first == second,
{
    text_less_irreflexive(entries[first].0@);
}

proof fn found<V>(entries: Seq<(String, V)>, place: int)
    requires
        ascending(entries),
        0 <= place < entries.len(),
    ensures
        contents(entries).dom().contains(entries[place].0@),
        contents(entries)[entries[place].0@] == entries[place].1,
{
    let key = entries[place].0@;
    assert(stands_at(entries, key, place));
    let chosen = choose|other: int| #[trigger] stands_at(entries, key, other);
    one_place(entries, place, chosen);
}

impl<V> View for TextMap<V> {
    type V = Map<Seq<char>, V>;

    closed spec fn view(&self) -> Map<Seq<char>, V> {
        contents(self.entries@)
    }
}

impl<V> TextMap<V> {
    /// Whether the entries are in order, each key once.
    pub closed spec fn wf(&self) -> bool {
        ascending(self.entries@)
    }

    /// A map without entries.
    pub fn new() -> (map: TextMap<V>)
        ensures
            map.wf(),
            map@ == Map::<Seq<char>, V>::empty(),
    {
        let map = TextMap { entries: Vec::new() };
        assert(contents(map.entries@) =~= Map::<Seq<char>, V>::empty());
        map
    }

    /// The first place whose key does not come before the given one.
    fn place_of(&self, key: &str) -> (place: usize)
        requires
            self.wf(),
        ensures
            place <= self.entries@.len(),
            forall|i: int|
                0 <= i < place ==> text_less((#[trigger] self.entries@[i]).0@, key@),
            forall|i: int|
                place <= i < self.entries@.len() ==> !text_less(
                    (#[trigger] self.entries@[i]).0@,
                    key@,
                ),
    {
        let mut place: usize = 0;
        while place < self.entries.len()
            invariant
                self.wf(),
                place <= self.entries@.len(),
                forall|i: int|
                    0 <= i < place ==> text_less((#[trigger] self.entries@[i]).0@, key@),
            decreases self.entries@.len() - place,
        {
            if !less(&self.entries[place].0, key) {
                proof {
                    assert forall|i: int| place <= i < self.entries@.len() implies !text_less(
                        (#[trigger] self.entries@[i]).0@,
                        key@,
                    ) by {
                        if i > place && text_less(self.entries@[i].0@, key@) {
                            text_less_transitive(
                                self.entries@[place as int].0@,
                                self.entries@[i].0@,
                                key@,
                            );
                        }
                    }
                }
                return place;
            }
            place = place + 1;
        }
        place
    }

    /// The value of a key.
    pub fn get(&self, key: &str) -> (value: Option<&V>)
        requires
            self.wf(),
        ensures
            match value {
                Some(value) => self@.dom().contains(key@) && *value == self@[key@],
                None => !self@.dom().contains(key@),
            },
    {
        let place = self.place_of(key);
        if place < self.entries.len() && text_eq(&self.entries[place].0, key) {
            proof {
                found(self.entries@, place as int);
            }
            return Some(&self.entries[place].1);
        }
        proof {
            if self@.dom().contains(key@) {
                let chosen = choose|other: int| #[trigger]
                    stands_at(self.entries@, key@, other);
                if chosen < place {
                    text_less_irreflexive(key@);
                } else if chosen > place {
                    text_less_transitive(
                        self.entries@[place as int].0@,
                        self.entries@[chosen].0@,
                        key@,
                    );
                }
            }
        }
        None
    }

    /// Gives a key a value, in place of the one that it had.
    pub fn insert(&mut self, key: &str, value: V)
        requires
            old(self).wf(),
        ensures
            final(self).wf(),
            final(self)@ == old(self)@.insert(key@, value),
    {
        self.remove(key);
        let ghost before = self.entries@;
        let place = self.place_of(key);
        proof {
            assert forall|i: int| 0 <= i < before.len() implies (#[trigger] before[i]).0@
                != key@ by {
                found(before, i);
            }
        }
        self.entries.insert(place, (key.to_owned(), value));
        proof {
            let after = self.entries@;
            assert(after =~= before.insert(place as int, after[place as int]));
            assert forall|i: int, j: int| 0 <= i < j < after.len() implies text_less(
                (#[trigger] after[i]).0@,
                (#[trigger] after[j]).0@,
            ) by {
                if i == place {
                    assert(after[j] == before[j - 1]);
                    text_less_total(key@, before[j - 1].0@);
                } else if j == place {
                    assert(after[i] == before[i]);
                } else if i < place && j > place {
                    assert(after[i] == before[i] && after[j] == before[j - 1]);
                } else if i > place {
                    assert(after[i] == before[i - 1] && after[j] == before[j - 1]);
                } else {
                    assert(after[i] == before[i] && after[j] == before[j]);
                }
            }
            found(after, place as int);
            assert forall|other: Seq<char>| other != key@ implies (#[trigger] contents(
                after,
            ).dom().contains(other) <==> contents(before).dom().contains(other)) && (contents(
                before,
            ).dom().contains(other) ==> contents(after)[other] == contents(before)[other]) by {
                if contents(before).dom().contains(other) {
                    let at = choose|at: int| #[trigger] stands_at(before, other, at);
                    found(before, at);
                    let moved = if at < place {
                        at
                    } else {
                        at + 1
                    };
                    assert(after[moved] == before[at]);
                    found(after, moved);
                }
                if contents(after).dom().contains(other) {
                    let at = choose|at: int| #[trigger] stands_at(after, other, at);
                    let moved = if at < place {
                        at
                    } else {
                        at - 1
                    };
                    assert(after[at] == before[moved]);
                    found(before, moved);
                }
            }
            assert(contents(after) =~= contents(before).insert(key@, value));
            assert(contents(after) =~= old(self)@.insert(key@, value));
        }
    }

    /// Takes a key out.
    pub fn remove(&mut self, key: &str)
        requires
            old(self).wf(),
        ensures
            final(self).wf(),
            final(self)@ == old(self)@.remove(key@),
    {
        let ghost before = self.entries@;
        let place = self.place_of(key);
        if place < self.entries.len() && text_eq(&self.entries[place].0, key) {
            self.entries.remove(place);
            proof {
                let after = self.entries@;
                assert(after =~= before.remove(place as int));
                assert forall|i: int, j: int| 0 <= i < j < after.len() implies text_less(
                    (#[trigger] after[i]).0@,
                    (#[trigger] after[j]).0@,
                ) by {
                    let from = if i < place {
                        i
                    } else {
                        i + 1
                    };
                    let to = if j < place {
                        j
                    } else {
                        j + 1
                    };
                    assert(after[i] == before[from] && after[j] == before[to]);
                }
                assert forall|other: Seq<char>| #[trigger]
                    contents(after).dom().contains(other) <==> contents(before).dom().contains(
                        other,
                    ) && other != key@ by {
                    if contents(before).dom().contains(other) && other != key@ {
                        let at = choose|at: int| #[trigger] stands_at(before, other, at);
                        let moved = if at < place {
                            at
                        } else {
                            at - 1
                        };
                        assert(after[moved] == before[at]);
                        assert(stands_at(after, other, moved));
                    }
                    if contents(after).dom().contains(other) {
                        let at = choose|at: int| #[trigger] stands_at(after, other, at);
                        let moved = if at < place {
                            at
                        } else {
                            at + 1
                        };
                        assert(after[at] == before[moved]);
                        found(before, moved);
                        if other == key@ {
                            one_place(before, moved, place as int);
                        }
                    }
                }
                assert forall|other: Seq<char>| contents(
                    after,
                ).dom().contains(other) implies #[trigger] contents(after)[other] == contents(
                    before,
                )[other] by {
                    let at = choose|at: int| #[trigger] stands_at(after, other, at);
                    let moved = if at < place {
                        at
                    } else {
                        at + 1
                    };
                    assert(after[at] == before[moved]);
                    found(after, at);
                    found(before, moved);
                }
                assert(contents(after) =~= contents(before).remove(key@));
            }
        } else {
            proof {
                if contents(before).dom().contains(key@) {
                    let chosen = choose|other: int| #[trigger] stands_at(before, key@, other);
                    if chosen < place {
                        text_less_irreflexive(key@);
                    } else if chosen > place {
                        text_less_transitive(
                            before[place as int].0@,
                            before[chosen].0@,
                            key@,
                        );
                    }
                }
                assert(contents(before) =~= contents(before).remove(key@));
            }
        }
    }
}

} // verus!
