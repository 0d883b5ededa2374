//! A mapping from field names to values, kept as a list of entries in which no
//! name occurs twice.

use crate::field_value::FieldValue;
use vstd::prelude::*;
use vstd::set_lib::lemma_subset_equality;

verus! {

/// The mapping that a list of `(name, value)` entries denotes.
///
/// The entries are applied from first to last, so of two entries with one name
/// the later one counts.
pub open spec fn entries_map<T>(entries: Seq<(Seq<char>, T)>) -> Map<Seq<char>, T>
    decreases entries.len(),
{
    if entries.len() == 0 {
        Map::empty()
    } else {
        entries_map(entries.drop_last()).insert(entries.last().0, entries.last().1)
    }
}

/// No name occurs in two entries.
pub open spec fn distinct_names<T>(entries: Seq<(Seq<char>, T)>) -> bool {
    forall|i: int, j: int|
        0 <= i < j < entries.len() ==> (#[trigger] entries[i]).0 != (#[trigger] entries[j]).0
}

/// The entries of a list, each name and value taken by its view.
pub open spec fn entry_views<V: View>(entries: Seq<(String, V)>) -> Seq<(Seq<char>, V::V)> {
    Seq::new(entries.len(), |i: int| (entries[i].0@, entries[i].1@))
}

/// Where no name occurs twice, none does once the last entry is left out.
proof fn lemma_distinct_names_front<T>(entries: Seq<(Seq<char>, T)>)
    requires
        distinct_names(entries),
        entries.len() > 0,
    ensures
        distinct_names(entries.drop_last()),
{
    let front = entries.drop_last();
    assert forall|a: int, b: int| 0 <= a < b < front.len() implies (#[trigger] front[a]).0 != (
    #[trigger] front[b]).0 by {
        assert(front[a] == entries[a] && front[b] == entries[b]);
    }
}

/// A name is in the mapping exactly when some entry carries it.
pub proof fn lemma_entries_map_names<T>(entries: Seq<(Seq<char>, T)>)
    ensures
        entries_map(entries).dom().finite(),
        forall|name: Seq<char>|
            entries_map(entries).contains_key(name) <==> exists|i: int|
                0 <= i < entries.len() && (#[trigger] entries[i]).0 == name,
    decreases entries.len(),
{
    if entries.len() > 0 {
        let front = entries.drop_last();
        lemma_entries_map_names(front);
        assert forall|name: Seq<char>|
            entries_map(entries).contains_key(name) <==> exists|i: int|
                0 <= i < entries.len() && (#[trigger] entries[i]).0 == name by {
            if entries_map(entries).contains_key(name) {
                if name == entries.last().0 {
                    assert(entries[entries.len() - 1].0 == name);
                } else {
                    let i = choose|i: int| 0 <= i < front.len() && (#[trigger] front[i]).0 == name;
                    assert(entries[i].0 == name);
                }
            }
            if exists|i: int| 0 <= i < entries.len() && (#[trigger] entries[i]).0 == name {
                let i = choose|i: int| 0 <= i < entries.len() && (#[trigger] entries[i]).0 == name;
                if i < entries.len() - 1 {
                    assert(front[i].0 == name);
                }
            }
        }
    }
}

/// Where no name occurs twice, each entry's name is mapped to that entry's
/// value.
pub proof fn lemma_entries_map_at<T>(entries: Seq<(Seq<char>, T)>, i: int)
    requires
        distinct_names(entries),
        0 <= i < entries.len(),
    ensures
        entries_map(entries).contains_key(entries[i].0),
        entries_map(entries)[entries[i].0] == entries[i].1,
    decreases entries.len(),
{
    if i < entries.len() - 1 {
        lemma_distinct_names_front(entries);
        lemma_entries_map_at(entries.drop_last(), i);
    }
}

/// Where no name occurs twice, replacing the value of one entry maps that
/// entry's name to the new value and leaves the other names as they were.
pub proof fn lemma_entries_map_replace<T>(entries: Seq<(Seq<char>, T)>, i: int, value: T)
    requires
        distinct_names(entries),
        0 <= i < entries.len(),
    ensures
        distinct_names(entries.update(i, (entries[i].0, value))),
        entries_map(entries.update(i, (entries[i].0, value))) == entries_map(entries).insert(
            entries[i].0,
            value,
        ),
    decreases entries.len(),
{
    let replaced = entries.update(i, (entries[i].0, value));
    let front = entries.drop_last();
    assert forall|a: int, b: int| 0 <= a < b < replaced.len() implies (#[trigger] replaced[a]).0
        != (#[trigger] replaced[b]).0 by {
        assert(replaced[a].0 == entries[a].0 && replaced[b].0 == entries[b].0);
    }
    if i == entries.len() - 1 {
        assert(replaced.drop_last() == front);
    } else {
        lemma_distinct_names_front(entries);
        lemma_entries_map_replace(front, i, value);
        assert(replaced.drop_last() == front.update(i, (entries[i].0, value)));
    }
}

/// Where no name occurs twice, the mapping has as many names as the list has
/// entries.
pub proof fn lemma_entries_map_len<T>(entries: Seq<(Seq<char>, T)>)
    requires
        distinct_names(entries),
    ensures
        entries_map(entries).dom().finite(),
        entries_map(entries).dom().len() == entries.len(),
    decreases entries.len(),
{
    if entries.len() > 0 {
        let front = entries.drop_last();
        lemma_distinct_names_front(entries);
        lemma_entries_map_len(front);
        lemma_entries_map_names(front);
        assert(!entries_map(front).contains_key(entries.last().0)) by {
            if entries_map(front).contains_key(entries.last().0) {
                let i = choose|i: int|
                    0 <= i < front.len() && (#[trigger] front[i]).0 == entries.last().0;
                assert(entries[i].0 == entries[entries.len() - 1].0);
            }
        }
    }
}

/// Compares two string slices with `str`'s `==` from the standard library,
/// which holds exactly when both hold the same characters.
#[verifier::external_body]
fn same_name(a: &str, b: &str) -> (same: bool)
    ensures
        same == (a@ == b@),
{
    a == b
}

/// A mapping from field names to values.
#[derive(Debug)]
pub struct FieldMap<V: View> {
    entries: Vec<(String, V)>,
}

impl<V: View> View for FieldMap<V> {
    type V = Map<Seq<char>, V::V>;

    closed spec fn view(&self) -> Map<Seq<char>, V::V> {
        entries_map(entry_views(self.entries@))
    }
}

impl<V: View> FieldMap<V> {
    #[verifier::type_invariant]
    spec fn well_formed(&self) -> bool {
        distinct_names(entry_views(self.entries@))
    }

    /// Creates a mapping without entries.
    pub fn new() -> (map: Self)
        ensures
            map@ == Map::<Seq<char>, V::V>::empty(),
    {
        FieldMap { entries: Vec::new() }
    }

    /// The number of names in the mapping.
    pub fn len(&self) -> (count: usize)
        ensures
            count == self@.len(),
    {
        proof {
            use_type_invariant(self);
            lemma_entries_map_len(entry_views(self.entries@));
        }
        self.entries.len()
    }

    /// Whether the mapping holds a value for `name`.
    pub fn contains_key(&self, name: &str) -> (present: bool)
        ensures
            present == self@.contains_key(name@),
    {
        self.get(name).is_some()
    }

    /// The value stored for `name`, if there is one.
    pub fn get(&self, name: &str) -> (value: Option<&V>)
        ensures
            match value {
                Some(v) => self@.contains_key(name@) && v@ == self@[name@],
                None => !self@.contains_key(name@),
            },
    {
        proof {
            use_type_invariant(self);
            lemma_entries_map_names(entry_views(self.entries@));
        }
        match self.position(name) {
            Some(i) => {
                proof {
                    lemma_entries_map_at(entry_views(self.entries@), i as int);
                }
                Some(&self.entries[i].1)
            },
            None => None,
        }
    }

    /// Stores `value` for `name`: in place of the value that the name had, or
    /// as a new entry where it had none.
    pub fn set(&mut self, name: &str, value: V)
        ensures
            final(self)@ == old(self)@.insert(name@, value@),
    {
        proof {
            use_type_invariant(&*self);
        }
        let found = self.position(name);
        let ghost before = entry_views(self.entries@);
        let ghost stored = (name@, value@);
        let mut entries = Vec::new();
        std::mem::swap(&mut entries, &mut self.entries);
        match found {
            Some(i) => {
                entries[i].1 = value;
                proof {
                    lemma_entries_map_replace(before, i as int, stored.1);
                    assert(entry_views(entries@) == before.update(i as int, stored));
                }
            },
            None => {
                entries.push((name.to_owned(), value));
                proof {
                    lemma_entries_map_names(before);
                    let after = entry_views(entries@);
                    assert(after.drop_last() == before);
                    assert forall|a: int, b: int| 0 <= a < b < after.len() implies (
                    #[trigger] after[a]).0 != (#[trigger] after[b]).0 by {
                        assert(after[a] == before[a]);
                        if b < before.len() {
                            assert(after[b] == before[b]);
                        }
                    }
                }
            },
        }
        self.entries = entries;
    }

    /// The index of the entry named `name`, if there is one.
    fn position(&self, name: &str) -> (found: Option<usize>)
        ensures
            match found {
                Some(i) => i < self.entries.len() && self.entries[i as int].0@ == name@,
                None => forall|i: int| 0 <= i < self.entries.len() ==> self.entries[i].0@ != name@,
            },
    {
        let mut i: usize = 0;
        while i < self.entries.len()
            invariant
                i <= self.entries.len(),
                forall|j: int| 0 <= j < i ==> self.entries[j].0@ != name@,
            decreases self.entries.len() - i,
        {
            if same_name(self.entries[i].0.as_str(), name) {
                return Some(i);
            }
            i += 1;
        }
        None
    }
}

impl<V: FieldValue> FieldMap<V> {
    /// Builds the mapping that a list of entries denotes.
    pub fn from_entries(entries: &Vec<(String, V)>) -> (map: Self)
        ensures
            map@ == entries_map(entry_views(entries@)),
    {
        let mut map = FieldMap::new();
        map.absorb(entries);
        map
    }

    /// Lists the entries of the mapping, each name once. The order of the
    /// entries is not part of what the mapping holds, and none is promised.
    pub fn to_entries(&self) -> (entries: Vec<(String, V)>)
        ensures
            distinct_names(entry_views(entries@)),
            entries_map(entry_views(entries@)) == self@,
    {
        proof {
            use_type_invariant(self);
        }
        self.copy_entries()
    }

    /// Takes over every entry of `other`: a name that both mappings hold gets
    /// the value it has in `other`, and no name is lost.
    pub fn merge(&mut self, other: &FieldMap<V>)
        ensures
            final(self)@ == old(self)@.union_prefer_right(other@),
    {
        self.absorb(&other.entries);
    }

    /// Stores the entries of a list one after the other.
    fn absorb(&mut self, entries: &Vec<(String, V)>)
        ensures
            final(self)@ == old(self)@.union_prefer_right(entries_map(entry_views(entries@))),
    {
        let ghost views = entry_views(entries@);
        let mut i: usize = 0;
        while i < entries.len()
            invariant
                i <= entries.len(),
                views == entry_views(entries@),
                self@ == old(self)@.union_prefer_right(entries_map(views.take(i as int))),
            decreases entries.len() - i,
        {
            let value = entries[i].1.duplicate();
            self.set(entries[i].0.as_str(), value);
            proof {
                let next = views.take(i + 1);
                assert(next.drop_last() == views.take(i as int));
            }
            i += 1;
        }
        assert(views.take(entries.len() as int) == views);
    }

    /// Copies the list of entries.
    fn copy_entries(&self) -> (entries: Vec<(String, V)>)
        ensures
            entry_views(entries@) == entry_views(self.entries@),
    {
        let mut entries: Vec<(String, V)> = Vec::new();
        let mut i: usize = 0;
        while i < self.entries.len()
            invariant
                i <= self.entries.len(),
                entries.len() == i,
                forall|j: int|
                    0 <= j < i ==> entries[j].0@ == self.entries[j].0@ && entries[j].1@
                        == self.entries[j].1@,
            decreases self.entries.len() - i,
        {
            entries.push((self.entries[i].0.clone(), self.entries[i].1.duplicate()));
            i += 1;
        }
        entries
    }

    /// Whether two mappings hold the same names with the same values.
    fn matches(&self, other: &Self) -> (same: bool)
        ensures
            same == (self@ == other@),
    {
        let ghost mine = entry_views(self.entries@);
        let ghost theirs = entry_views(other.entries@);
        proof {
            use_type_invariant(self);
            use_type_invariant(other);
            lemma_entries_map_len(mine);
            lemma_entries_map_len(theirs);
            lemma_entries_map_names(mine);
        }
        if self.entries.len() != other.entries.len() {
            return false;
        }
        let mut i: usize = 0;
        while i < self.entries.len()
            invariant
                i <= self.entries.len(),
                mine == entry_views(self.entries@),
                distinct_names(mine),
                forall|j: int|
                    0 <= j < i ==> other@.contains_key((#[trigger] mine[j]).0) && other@[mine[j].0]
                        == mine[j].1,
            decreases self.entries.len() - i,
        {
            proof {
                lemma_entries_map_at(mine, i as int);
            }
            match other.get(self.entries[i].0.as_str()) {
                Some(value) => {
                    if !value.same_as(&self.entries[i].1) {
                        return false;
                    }
                },
                None => {
                    return false;
                },
            }
            i += 1;
        }
        proof {
            assert forall|name: Seq<char>| self@.contains_key(name) implies other@.contains_key(
                name,
            ) && other@[name] == self@[name] by {
                let j = choose|j: int| 0 <= j < mine.len() && (#[trigger] mine[j]).0 == name;
                lemma_entries_map_at(mine, j);
            }
            lemma_subset_equality(self@.dom(), other@.dom());
            assert(self@ =~= other@);
        }
        true
    }
}

impl<V: FieldValue> Clone for FieldMap<V> {
    /// Returns a mapping with the same names and values.
    fn clone(&self) -> (copy: Self)
        ensures
            copy@ == self@,
    {
        proof {
            use_type_invariant(self);
        }
        FieldMap { entries: self.copy_entries() }
    }
}

impl<V: FieldValue> PartialEq for FieldMap<V> {
    /// Two mappings are equal when they hold the same names with the same
    /// values, in whatever order the entries were stored.
    fn eq(&self, other: &Self) -> (same: bool) {
        self.matches(other)
    }
}

impl<V: FieldValue> vstd::std_specs::cmp::PartialEqSpecImpl for FieldMap<V> {
    open spec fn obeys_eq_spec() -> bool {
        true
    }

    open spec fn eq_spec(&self, other: &Self) -> bool {
        self@ == other@
    }
}

impl<V: FieldValue> FieldValue for FieldMap<V> {
    fn duplicate(&self) -> (copy: Self) {
        self.clone()
    }

    fn same_as(&self, other: &Self) -> (same: bool) {
        self.matches(other)
    }
}

} // verus!
