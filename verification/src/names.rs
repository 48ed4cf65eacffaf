//! A small map from names to values, kept in the order in which the names first came.
use vstd::prelude::*;

use crate::text;

verus! {

/// The index of the first entry named `name`, or the number of entries when there is none.
pub open spec fn position<V>(entries: Seq<(String, V)>, name: Seq<char>) -> int
    decreases entries.len(),
{
    if entries.len() == 0 || entries[0].0@ == name {
        0
    } else {
        1 + position(entries.drop_first(), name)
    }
}

/// The map that a list of entries stands for: each name with the value of its first entry.
pub open spec fn named<V>(entries: Seq<(String, V)>) -> Map<Seq<char>, V> {
    Map::new(
        |name: Seq<char>| 0 <= position(entries, name) < entries.len(),
        |name: Seq<char>| entries[position(entries, name)].1,
    )
}

/// Values by name.
#[derive(Debug)]
pub struct NameMap<V> {
    entries: Vec<(String, V)>,
}

impl<V> View for NameMap<V> {
    type V = Map<Seq<char>, V>;

    closed spec fn view(&self) -> Map<Seq<char>, V> {
        named(self.entries@)
    }
}

proof fn lemma_position<V>(entries: Seq<(String, V)>, name: Seq<char>, at: int)
    requires
        0 <= at <= entries.len(),
        forall|i: int| 0 <= i < at ==> (#[trigger] entries[i]).0@ != name,
        at < entries.len() ==> entries[at].0@ == name,
    ensures
        position(entries, name) == at,
    decreases at,
{
    if at > 0 {
        let rest = entries.drop_first();
        assert forall|i: int| 0 <= i < at - 1 implies (#[trigger] rest[i]).0@ != name by {
            assert(rest[i] == entries[i + 1]);
        }
        lemma_position(rest, name, at - 1);
    }
}

proof fn lemma_position_bounds<V>(entries: Seq<(String, V)>, name: Seq<char>)
    ensures
        0 <= position(entries, name) <= entries.len(),
        position(entries, name) < entries.len() ==> entries[position(entries, name)].0@ == name,
        forall|i: int|
            0 <= i < position(entries, name) ==> (#[trigger] entries[i]).0@ != name,
    decreases entries.len(),
{
    if entries.len() > 0 && entries[0].0@ != name {
        let rest = entries.drop_first();
        lemma_position_bounds(rest, name);
        assert forall|i: int| 0 <= i < position(entries, name) implies (
        #[trigger] entries[i]).0@ != name by {
            if i > 0 {
                assert(rest[i - 1] == entries[i]);
            }
        }
    }
}

/// Replacing the value of a name's first entry, or adding an entry for a new name, inserts into
/// the map.
proof fn lemma_insert<V>(
    before: Seq<(String, V)>,
    after: Seq<(String, V)>,
    name: Seq<char>,
    value: V,
)
    requires
        position(before, name) < before.len() ==> {
            &&& after.len() == before.len()
            &&& forall|i: int|
                0 <= i < before.len() ==> (#[trigger] after[i]).0@ == before[i].0@
            &&& forall|i: int|
                0 <= i < before.len() && i != position(before, name) ==> #[trigger] after[i]
                    == before[i]
            &&& after[position(before, name)].1 == value
        },
        position(before, name) >= before.len() ==> {
            &&& after.len() == before.len() + 1
            &&& forall|i: int| 0 <= i < before.len() ==> #[trigger] after[i] == before[i]
            &&& after.last().0@ == name
            &&& after.last().1 == value
        },
    ensures
        named(after) == named(before).insert(name, value),
{
    lemma_position_bounds(before, name);
    let inserted = named(before).insert(name, value);
    assert forall|other: Seq<char>|
        #![trigger named(after).dom().contains(other)]
        #![trigger inserted.dom().contains(other)]
        #![trigger named(after)[other]]
        #![trigger inserted[other]]
        named(after).dom().contains(other) == inserted.dom().contains(other) && (
        inserted.dom().contains(other) ==> named(after)[other] == inserted[other]) by {
        lemma_position_bounds(before, other);
        if position(before, name) < before.len() {
            lemma_position(after, other, position(before, other));
        } else if other == name {
            lemma_position(after, other, before.len() as int);
        } else if position(before, other) < before.len() {
            lemma_position(after, other, position(before, other));
        } else {
            lemma_position(after, other, after.len() as int);
        }
    }
    assert(named(after) =~= inserted);
}

impl<V> NameMap<V> {
    /// A map without entries.
    pub fn new() -> (map: NameMap<V>)
        ensures
            map@ == Map::<Seq<char>, V>::empty(),
    {
        let map = NameMap { entries: Vec::new() };
        assert(map@ =~= Map::<Seq<char>, V>::empty());
        map
    }

    /// The map that holds each name with the value of its first entry.
    pub fn from_entries(entries: Vec<(String, V)>) -> (map: NameMap<V>)
        ensures
            map@ == named(entries@),
    {
        NameMap { entries }
    }

    /// The entries, in the order in which their names first came.
    pub fn entries(&self) -> (entries: &Vec<(String, V)>)
        ensures
            named(entries@) == self@,
    {
        &self.entries
    }

    fn find(&self, name: &str) -> (at: usize)
        ensures
            at == position(self.entries@, name@),
            at <= self.entries.len(),
    {
        let mut at: usize = 0;
        while at < self.entries.len()
            invariant
                at <= self.entries.len(),
                forall|i: int| 0 <= i < at ==> (#[trigger] self.entries@[i]).0@ != name@,
            decreases self.entries.len() - at,
        {
            if text::equal(self.entries[at].0.as_str(), name) {
                proof {
                    lemma_position(self.entries@, name@, at as int);
                }
                return at;
            }
            at += 1;
        }
        proof {
            lemma_position(self.entries@, name@, at as int);
        }
        at
    }

    /// The value of `name`, when there is one.
    pub fn get(&self, name: &str) -> (value: Option<&V>)
        ensures
            match value {
                Some(value) => self@.contains_key(name@) && *value == self@[name@],
                None => !self@.contains_key(name@),
            },
    {
        let at = self.find(name);
        if at < self.entries.len() {
            Some(&self.entries[at].1)
        } else {
            None
        }
    }

    /// Gives `name` the value `value`, in place of the one it had, if any.
    pub fn insert(&mut self, name: &str, value: V)
        ensures
            final(self)@ == old(self)@.insert(name@, value),
    {
        let at = self.find(name);
        let entry = (String::from_str(name), value);
        if at < self.entries.len() {
            proof {
                lemma_position_bounds(self.entries@, name@);
            }
            self.entries.set(at, entry);
        } else {
            self.entries.push(entry);
        }
        proof {
            lemma_insert(old(self).entries@, self.entries@, name@, value);
        }
    }
}

impl<V: Clone> Clone for NameMap<V> {
    fn clone(&self) -> (copy: NameMap<V>)
        ensures
            copy@.dom() == self@.dom(),
            forall|name: Seq<char>| #[trigger]
                copy@.contains_key(name) ==> cloned::<V>(self@[name], copy@[name]),
    {
        let mut entries: Vec<(String, V)> = Vec::new();
        let mut at: usize = 0;
        while at < self.entries.len()
            invariant
                at <= self.entries.len(),
                entries.len() == at,
                forall|i: int|
                    0 <= i < at ==> (#[trigger] entries@[i]).0@ == self.entries@[i].0@ && cloned::<V>(
                        self.entries@[i].1,
                        entries@[i].1,
                    ),
            decreases self.entries.len() - at,
        {
            let entry = &self.entries[at];
            entries.push((entry.0.clone(), entry.1.clone()));
            at += 1;
        }
        let copy = NameMap { entries };
        proof {
            assert forall|name: Seq<char>|
                #![trigger copy@.dom().contains(name)]
                copy@.dom().contains(name) == self@.dom().contains(name) && (copy@.dom().contains(
                    name,
                ) ==> cloned::<V>(self@[name], copy@[name])) by {
                lemma_position_bounds(self.entries@, name);
                lemma_position(copy.entries@, name, position(self.entries@, name));
            }
            assert(copy@.dom() =~= self@.dom());
        }
        copy
    }
}

/// The values of each name as texts.
pub open spec fn value_lists(map: Map<Seq<char>, Vec<String>>) -> Map<Seq<char>, Seq<Seq<char>>> {
    map.map_values(|values: Vec<String>| text::texts(values@))
}

/// What `map` gives for `name`, nothing when it has no entry.
pub open spec fn values_of(map: Map<Seq<char>, Seq<Seq<char>>>, name: Seq<char>) -> Seq<Seq<char>> {
    if map.contains_key(name) {
        map[name]
    } else {
        Seq::empty()
    }
}

impl NameMap<Vec<String>> {
    /// Adds `value` behind the values that `name` has.
    pub fn append(&mut self, name: &str, value: &str)
        ensures
            value_lists(final(self)@) == value_lists(old(self)@).insert(
                name@,
                values_of(value_lists(old(self)@), name@).push(value@),
            ),
    {
        let mut values = match self.get(name) {
            Some(values) => text::copy_strings(values),
            None => Vec::new(),
        };
        let ghost before = text::texts(values@);
        assert(before =~= values_of(value_lists(self@), name@));
        values.push(String::from_str(value));
        assert(text::texts(values@) =~= before.push(value@));
        self.insert(name, values);
        assert(value_lists(self@) =~= value_lists(old(self)@).insert(
            name@,
            values_of(value_lists(old(self)@), name@).push(value@),
        ));
    }
}

/// A name that was given a value has it, and every other name keeps its own.
pub proof fn value_is_found_by_its_name<V>(
    map: &mut NameMap<V>,
    name: &str,
    value: V,
    other: Seq<char>,
)
    requires
        call_ensures(NameMap::<V>::insert, (map, name, value), ()),
    ensures
        final(map)@.contains_key(name@) && final(map)@[name@] == value,
        other != name@ ==> final(map)@.contains_key(other) == old(map)@.contains_key(other),
        other != name@ && old(map)@.contains_key(other) ==> final(map)@[other] == old(map)@[other],
{
}

/// In a list with one name twice, the first entry counts. A name that is asked for is found where
/// it is, and a name that is not there is not found.
pub proof fn first_entry_counts<V>(
    entries: Vec<(String, V)>,
    map: NameMap<V>,
    name: &str,
    found: Option<&V>,
    at: int,
)
    requires
        call_ensures(NameMap::<V>::from_entries, (entries,), map),
        call_ensures(NameMap::<V>::get, (&map, name), found),
    ensures
        (forall|i: int| 0 <= i < entries.len() ==> (#[trigger] entries@[i]).0@ != name@) ==> found
            is None,
        0 <= at < entries.len() && entries@[at].0@ == name@ && (forall|i: int|
            0 <= i < at ==> (#[trigger] entries@[i]).0@ != name@) ==> found is Some && *found->Some_0
            == entries@[at].1,
{
    lemma_first_position(entries@, name@, at);
}

proof fn lemma_first_position<V>(entries: Seq<(String, V)>, name: Seq<char>, at: int)
    ensures
        (forall|i: int| 0 <= i < entries.len() ==> (#[trigger] entries[i]).0@ != name) ==> position(
            entries,
            name,
        ) == entries.len(),
        0 <= at < entries.len() && entries[at].0@ == name && (forall|i: int|
            0 <= i < at ==> (#[trigger] entries[i]).0@ != name) ==> position(entries, name) == at,
    decreases entries.len(),
{
    if entries.len() > 0 && entries[0].0@ != name {
        let rest = entries.drop_first();
        lemma_first_position(rest, name, at - 1);
        assert forall|i: int| 0 <= i < rest.len() implies #[trigger] rest[i] == entries[i + 1] by {}
    }
}

} // verus!
