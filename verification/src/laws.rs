//! What holds of records whatever they contain.

use crate::document::ItemDocumentView;
use crate::item::{ItemView, UNSET_ID};
use vstd::prelude::*;

verus! {

/// A string that was stored under a name is what the accessor returns for
/// that name, whatever default it is given.
pub proof fn lemma_set_str_then_safe_str(
    item: ItemView,
    name: Seq<char>,
    val: Seq<char>,
    def: Seq<char>,
)
    ensures
        item.set_str(name, val).safe_str(name, def) == val,
{
}

/// What was stored under a name as a string mapping, a boolean or an
/// identifier is what the accessor of that kind returns for the name,
/// whatever default it is given.
pub proof fn lemma_set_then_safe(
    item: ItemView,
    name: Seq<char>,
    strstr: Map<Seq<char>, Seq<char>>,
    flag: bool,
    id: u64,
    def_strstr: Map<Seq<char>, Seq<char>>,
    def_flag: bool,
    def_id: u64,
)
    ensures
        item.set_strstr(name, strstr).safe_strstr(name, def_strstr) == strstr,
        item.set_bool(name, flag).safe_bool(name, def_flag) == flag,
        item.set_id(name, id).safe_id(name, def_id) == id,
{
}

/// Storing a string touches one name of one mapping: the strings hold that
/// name besides the names they held, every other name returns what it
/// returned before, and the identity and the other four mappings stay as
/// they were.
pub proof fn lemma_set_str_touches_one_name(
    item: ItemView,
    name: Seq<char>,
    val: Seq<char>,
    other: Seq<char>,
    def: Seq<char>,
)
    ensures
        item.set_str(name, val).strs.dom() == item.strs.dom().insert(name),
        other != name ==> item.set_str(name, val).safe_str(other, def) == item.safe_str(
            other,
            def,
        ),
        item.set_str(name, val).id == item.id,
        item.set_str(name, val).strstrs == item.strstrs,
        item.set_str(name, val).bools == item.bools,
        item.set_str(name, val).u64s == item.u64s,
        item.set_str(name, val).ids == item.ids,
{
}

/// On a new record every accessor returns the default it is given.
pub proof fn lemma_new_returns_defaults(
    name: Seq<char>,
    def_str: Seq<char>,
    def_strstr: Map<Seq<char>, Seq<char>>,
    def_flag: bool,
    def_number: u64,
)
    ensures
        ItemView::new().id == UNSET_ID,
        ItemView::new().safe_str(name, def_str) == def_str,
        ItemView::new().safe_strstr(name, def_strstr) == def_strstr,
        ItemView::new().safe_bool(name, def_flag) == def_flag,
        ItemView::new().safe_u64(name, def_number) == def_number,
        ItemView::new().safe_id(name, def_number) == def_number,
{
}

/// Merging prefers the record that is merged in: for a name that it holds,
/// the merged record returns its string.
pub proof fn lemma_merge_prefers_right(
    item: ItemView,
    other: ItemView,
    name: Seq<char>,
    def: Seq<char>,
)
    requires
        other.strs.contains_key(name),
    ensures
        item.merge(other).safe_str(name, def) == other.strs[name],
{
}

/// Merging removes nothing: a name that only the receiving record holds
/// keeps its string, and every name that either record holds is held
/// afterwards.
pub proof fn lemma_merge_keeps_left(
    item: ItemView,
    other: ItemView,
    name: Seq<char>,
    def: Seq<char>,
)
    ensures
        item.strs.contains_key(name) && !other.strs.contains_key(name) ==> item.merge(
            other,
        ).safe_str(name, def) == item.strs[name],
        item.merge(other).strs.contains_key(name) <==> item.strs.contains_key(name)
            || other.strs.contains_key(name),
{
}

/// In each of the five mappings, an accessor of the merged record returns
/// what the accessor of the record merged in returns, with the answer of the
/// receiving record as its default. The identity is that of the receiving
/// record.
pub proof fn lemma_merge_accessors(
    item: ItemView,
    other: ItemView,
    name: Seq<char>,
    def_str: Seq<char>,
    def_strstr: Map<Seq<char>, Seq<char>>,
    def_flag: bool,
    def_number: u64,
)
    ensures
        item.merge(other).id == item.id,
        item.merge(other).safe_str(name, def_str) == other.safe_str(
            name,
            item.safe_str(name, def_str),
        ),
        item.merge(other).safe_strstr(name, def_strstr) == other.safe_strstr(
            name,
            item.safe_strstr(name, def_strstr),
        ),
        item.merge(other).safe_bool(name, def_flag) == other.safe_bool(
            name,
            item.safe_bool(name, def_flag),
        ),
        item.merge(other).safe_u64(name, def_number) == other.safe_u64(
            name,
            item.safe_u64(name, def_number),
        ),
        item.merge(other).safe_id(name, def_number) == other.safe_id(
            name,
            item.safe_id(name, def_number),
        ),
{
}

/// Writing a record as a document and building a record from that document
/// gives the record back.
pub proof fn lemma_document_round_trip(item: ItemView)
    ensures
        ItemDocumentView::of(item).item() == item,
{
}

/// A document that lacks an attribute describes a record in which that
/// attribute is as in a new record: the identity unset, the mapping empty.
/// The attributes that the document gives are taken as they are.
pub proof fn lemma_missing_attribute_is_default(doc: ItemDocumentView)
    ensures
        doc.id is None ==> doc.item().id == UNSET_ID,
        doc.strs is None ==> doc.item().strs == Map::<Seq<char>, Seq<char>>::empty(),
        doc.strstrs is None ==> doc.item().strstrs == Map::<
            Seq<char>,
            Map<Seq<char>, Seq<char>>,
        >::empty(),
        doc.bools is None ==> doc.item().bools == Map::<Seq<char>, bool>::empty(),
        doc.u64s is None ==> doc.item().u64s == Map::<Seq<char>, u64>::empty(),
        doc.ids is None ==> doc.item().ids == Map::<Seq<char>, u64>::empty(),
        doc.id matches Some(id) ==> doc.item().id == id,
        doc.strs matches Some(fields) ==> doc.item().strs == fields,
        doc.strstrs matches Some(fields) ==> doc.item().strstrs == fields,
        doc.bools matches Some(fields) ==> doc.item().bools == fields,
        doc.u64s matches Some(fields) ==> doc.item().u64s == fields,
        doc.ids matches Some(fields) ==> doc.item().ids == fields,
{
}

/// A number stored with `set_u64` is not what `safe_u64` reads: the accessor
/// answers from the identifiers, so it returns after the call what it
/// returned before, for every name. The number is found in `u64s`.
pub proof fn lemma_set_u64_unseen_by_safe_u64(
    item: ItemView,
    name: Seq<char>,
    val: u64,
    probe: Seq<char>,
    def: u64,
)
    ensures
        item.set_u64(name, val).safe_u64(probe, def) == item.safe_u64(probe, def),
        item.set_u64(name, val).u64s[name] == val,
        item.set_id(name, val).safe_u64(name, def) == val,
{
}

} // verus!
