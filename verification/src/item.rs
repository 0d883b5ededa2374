//! The record type: a numeric identity and five mappings from field names to
//! values, one for each kind of value.

use crate::field_map::FieldMap;
use vstd::prelude::*;

verus! {

/// The identity of a record that has not been given one.
pub const UNSET_ID: u64 = u64::MAX;

/// The value that a mapping holds for `name`, or `def` where it holds none.
pub open spec fn value_or<T>(fields: Map<Seq<char>, T>, name: Seq<char>, def: T) -> T {
    if fields.contains_key(name) {
        fields[name]
    } else {
        def
    }
}

/// What a record holds, as mathematical mappings from names to values.
pub struct ItemView {
    pub id: u64,
    pub strs: Map<Seq<char>, Seq<char>>,
    pub strstrs: Map<Seq<char>, Map<Seq<char>, Seq<char>>>,
    pub bools: Map<Seq<char>, bool>,
    pub u64s: Map<Seq<char>, u64>,
    pub ids: Map<Seq<char>, u64>,
}

impl ItemView {
    /// The record without any field and without an identity.
    pub open spec fn new() -> ItemView {
        ItemView {
            id: UNSET_ID,
            strs: Map::empty(),
            strstrs: Map::empty(),
            bools: Map::empty(),
            u64s: Map::empty(),
            ids: Map::empty(),
        }
    }

    /// The string stored under `name`, or `def`.
    pub open spec fn safe_str(self, name: Seq<char>, def: Seq<char>) -> Seq<char> {
        value_or(self.strs, name, def)
    }

    /// The record with the string `val` stored under `name`.
    pub open spec fn set_str(self, name: Seq<char>, val: Seq<char>) -> ItemView {
        ItemView { strs: self.strs.insert(name, val), ..self }
    }

    /// The string mapping stored under `name`, or `def`.
    pub open spec fn safe_strstr(
        self,
        name: Seq<char>,
        def: Map<Seq<char>, Seq<char>>,
    ) -> Map<Seq<char>, Seq<char>> {
        value_or(self.strstrs, name, def)
    }

    /// The record with the string mapping `val` stored under `name`.
    pub open spec fn set_strstr(self, name: Seq<char>, val: Map<Seq<char>, Seq<char>>) -> ItemView {
        ItemView { strstrs: self.strstrs.insert(name, val), ..self }
    }

    /// The boolean stored under `name`, or `def`.
    pub open spec fn safe_bool(self, name: Seq<char>, def: bool) -> bool {
        value_or(self.bools, name, def)
    }

    /// The record with the boolean `val` stored under `name`.
    pub open spec fn set_bool(self, name: Seq<char>, val: bool) -> ItemView {
        ItemView { bools: self.bools.insert(name, val), ..self }
    }

    /// The identifier stored under `name`, or `def`: the answer comes from
    /// `ids`, as that of `safe_id` does, and not from `u64s`.
    pub open spec fn safe_u64(self, name: Seq<char>, def: u64) -> u64 {
        value_or(self.ids, name, def)
    }

    /// The record with the number `val` stored under `name` in `u64s`.
    pub open spec fn set_u64(self, name: Seq<char>, val: u64) -> ItemView {
        ItemView { u64s: self.u64s.insert(name, val), ..self }
    }

    /// The identifier stored under `name`, or `def`.
    pub open spec fn safe_id(self, name: Seq<char>, def: u64) -> u64 {
        value_or(self.ids, name, def)
    }

    /// The record with the identifier `val` stored under `name`.
    pub open spec fn set_id(self, name: Seq<char>, val: u64) -> ItemView {
        ItemView { ids: self.ids.insert(name, val), ..self }
    }

    /// The record that holds every field of `self` and of `other`, with the
    /// value of `other` where both hold a name, and the identity of `self`.
    pub open spec fn merge(self, other: ItemView) -> ItemView {
        ItemView {
            id: self.id,
            strs: self.strs.union_prefer_right(other.strs),
            strstrs: self.strstrs.union_prefer_right(other.strstrs),
            bools: self.bools.union_prefer_right(other.bools),
            u64s: self.u64s.union_prefer_right(other.u64s),
            ids: self.ids.union_prefer_right(other.ids),
        }
    }
}

/// A record of named fields.
///
/// Each kind of value has a mapping of its own, so one name can stand for a
/// string, a string mapping, a boolean, a number and an identifier at once.
#[derive(Debug)]
pub struct Item {
    pub id: u64,
    pub strs: FieldMap<String>,
    pub strstrs: FieldMap<FieldMap<String>>,
    pub bools: FieldMap<bool>,
    pub u64s: FieldMap<u64>,
    pub ids: FieldMap<u64>,
}

impl View for Item {
    type V = ItemView;

    open spec fn view(&self) -> ItemView {
        ItemView {
            id: self.id,
            strs: self.strs@,
            strstrs: self.strstrs@,
            bools: self.bools@,
            u64s: self.u64s@,
            ids: self.ids@,
        }
    }
}

impl Item {
    /// Creates a record without fields, whose identity is unset.
    pub fn new() -> (item: Item)
        ensures
            item@ == ItemView::new(),
    {
        Item {
            id: UNSET_ID,
            strs: FieldMap::new(),
            strstrs: FieldMap::new(),
            bools: FieldMap::new(),
            u64s: FieldMap::new(),
            ids: FieldMap::new(),
        }
    }

    /// The identity of the record.
    pub fn id(&self) -> (id: u64)
        ensures
            id == self@.id,
    {
        self.id
    }

    /// The string stored under `name`, or `def` where there is none.
    pub fn safe_str(&self, name: &str, def: &str) -> (value: String)
        ensures
            value@ == self@.safe_str(name@, def@),
    {
        match self.strs.get(name) {
            Some(stored) => stored.clone(),
            None => def.to_owned(),
        }
    }

    /// Stores the string `val` under `name`, in place of the string held
    /// there before, if any.
    pub fn set_str(&mut self, name: &str, val: &str)
        ensures
            final(self)@ == old(self)@.set_str(name@, val@),
    {
        self.strs.set(name, val.to_owned());
    }

    /// The string mapping stored under `name`, or `def` where there is none.
    pub fn safe_strstr(&self, name: &str, def: &FieldMap<String>) -> (value: FieldMap<String>)
        ensures
            value@ == self@.safe_strstr(name@, def@),
    {
        match self.strstrs.get(name) {
            Some(stored) => stored.clone(),
            None => def.clone(),
        }
    }

    /// Stores a copy of the string mapping `val` under `name`, in place of
    /// the one held there before, if any.
    pub fn set_strstr(&mut self, name: &str, val: &FieldMap<String>)
        ensures
            final(self)@ == old(self)@.set_strstr(name@, val@),
    {
        self.strstrs.set(name, val.clone());
    }

    /// The boolean stored under `name`, or `def` where there is none.
    pub fn safe_bool(&self, name: &str, def: bool) -> (value: bool)
        ensures
            value == self@.safe_bool(name@, def),
    {
        match self.bools.get(name) {
            Some(stored) => *stored,
            None => def,
        }
    }

    /// Stores the boolean `val` under `name`, in place of the one held there
    /// before, if any.
    pub fn set_bool(&mut self, name: &str, val: bool)
        ensures
            final(self)@ == old(self)@.set_bool(name@, val),
    {
        self.bools.set(name, val);
    }

    /// The identifier stored under `name`, or `def` where there is none.
    ///
    /// This accessor answers from `ids`, exactly as `safe_id` does. A number
    /// written by `set_u64` goes to `u64s` and is not seen here.
    pub fn safe_u64(&self, name: &str, def: u64) -> (value: u64)
        ensures
            value == self@.safe_u64(name@, def),
    {
        match self.ids.get(name) {
            Some(stored) => *stored,
            None => def,
        }
    }

    /// Stores the number `val` under `name` in `u64s`, in place of the one
    /// held there before, if any.
    pub fn set_u64(&mut self, name: &str, val: u64)
        ensures
            final(self)@ == old(self)@.set_u64(name@, val),
    {
        self.u64s.set(name, val);
    }

    /// The identifier stored under `name`, or `def` where there is none.
    pub fn safe_id(&self, name: &str, def: u64) -> (value: u64)
        ensures
            value == self@.safe_id(name@, def),
    {
        match self.ids.get(name) {
            Some(stored) => *stored,
            None => def,
        }
    }

    /// Stores the identifier `val` under `name`, in place of the one held
    /// there before, if any.
    pub fn set_id(&mut self, name: &str, val: u64)
        ensures
            final(self)@ == old(self)@.set_id(name@, val),
    {
        self.ids.set(name, val);
    }

    /// Takes over every field of `itm`, in each of the five mappings.
    ///
    /// Where both records hold a name, the value of `itm` replaces the one
    /// held before. No field is removed, and the identity stays as it was.
    pub fn merge(&mut self, itm: &Item)
        ensures
            final(self)@ == old(self)@.merge(itm@),
    {
        self.strs.merge(&itm.strs);
        self.strstrs.merge(&itm.strstrs);
        self.bools.merge(&itm.bools);
        self.u64s.merge(&itm.u64s);
        self.ids.merge(&itm.ids);
    }
}

impl Clone for Item {
    /// Returns a record with the same identity and the same fields.
    fn clone(&self) -> (copy: Item)
        ensures
            copy@ == self@,
    {
        Item {
            id: self.id,
            strs: self.strs.clone(),
            strstrs: self.strstrs.clone(),
            bools: self.bools.clone(),
            u64s: self.u64s.clone(),
            ids: self.ids.clone(),
        }
    }
}

impl PartialEq for Item {
    /// Two records are equal when their identities are equal and each of the
    /// five mappings holds the same names with the same values.
    fn eq(&self, other: &Item) -> (same: bool) {
        self.id == other.id && self.strs == other.strs && self.strstrs == other.strstrs
            && self.bools == other.bools && self.u64s == other.u64s && self.ids == other.ids
    }
}

impl vstd::std_specs::cmp::PartialEqSpecImpl for Item {
    open spec fn obeys_eq_spec() -> bool {
        true
    }

    open spec fn eq_spec(&self, other: &Item) -> bool {
        self@ == other@
    }
}

} // verus!
