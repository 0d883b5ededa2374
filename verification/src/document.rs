//! Records as they stand in an external document, where any attribute may be
//! missing.

use crate::field_map::FieldMap;
use crate::item::{Item, ItemView, UNSET_ID};
use vstd::prelude::*;

verus! {

/// The attributes of a record as a document gives them.
///
/// A document written by an older or a partial producer may lack any of the
/// six attributes; `None` stands for an attribute that the document lacks.
#[derive(Debug)]
pub struct ItemDocument {
    pub id: Option<u64>,
    pub strs: Option<FieldMap<String>>,
    pub strstrs: Option<FieldMap<FieldMap<String>>>,
    pub bools: Option<FieldMap<bool>>,
    pub u64s: Option<FieldMap<u64>>,
    pub ids: Option<FieldMap<u64>>,
}

/// What a document holds, as mathematical mappings.
pub struct ItemDocumentView {
    pub id: Option<u64>,
    pub strs: Option<Map<Seq<char>, Seq<char>>>,
    pub strstrs: Option<Map<Seq<char>, Map<Seq<char>, Seq<char>>>>,
    pub bools: Option<Map<Seq<char>, bool>>,
    pub u64s: Option<Map<Seq<char>, u64>>,
    pub ids: Option<Map<Seq<char>, u64>>,
}

/// The mapping that an attribute of a document gives, which is empty where
/// the document lacks the attribute.
pub open spec fn fields_or_empty<T>(fields: Option<Map<Seq<char>, T>>) -> Map<Seq<char>, T> {
    match fields {
        Some(present) => present,
        None => Map::empty(),
    }
}

impl ItemDocumentView {
    /// The document that gives every attribute of `item`.
    pub open spec fn of(item: ItemView) -> ItemDocumentView {
        ItemDocumentView {
            id: Some(item.id),
            strs: Some(item.strs),
            strstrs: Some(item.strstrs),
            bools: Some(item.bools),
            u64s: Some(item.u64s),
            ids: Some(item.ids),
        }
    }

    /// The record that the document describes: an attribute that it lacks is
    /// as in a new record.
    pub open spec fn item(self) -> ItemView {
        ItemView {
            id: match self.id {
                Some(id) => id,
                None => UNSET_ID,
            },
            strs: fields_or_empty(self.strs),
            strstrs: fields_or_empty(self.strstrs),
            bools: fields_or_empty(self.bools),
            u64s: fields_or_empty(self.u64s),
            ids: fields_or_empty(self.ids),
        }
    }
}

/// The view of an attribute that may be missing.
pub open spec fn attribute_view<V: View>(fields: Option<FieldMap<V>>) -> Option<
    Map<Seq<char>, V::V>,
> {
    match fields {
        Some(present) => Some(present@),
        None => None,
    }
}

impl View for ItemDocument {
    type V = ItemDocumentView;

    open spec fn view(&self) -> ItemDocumentView {
        ItemDocumentView {
            id: self.id,
            strs: attribute_view(self.strs),
            strstrs: attribute_view(self.strstrs),
            bools: attribute_view(self.bools),
            u64s: attribute_view(self.u64s),
            ids: attribute_view(self.ids),
        }
    }
}

/// The mapping of an attribute, empty where the attribute is missing.
fn unwrap_fields<V: View>(fields: Option<FieldMap<V>>) -> (present: FieldMap<V>)
    ensures
        present@ == fields_or_empty(attribute_view(fields)),
{
    match fields {
        Some(present) => present,
        None => FieldMap::new(),
    }
}

impl Item {
    /// Builds the record that a document describes.
    ///
    /// No document is rejected: an attribute that is missing gets the value
    /// it has in a new record.
    pub fn from_document(doc: ItemDocument) -> (item: Item)
        ensures
            item@ == doc@.item(),
    {
        Item {
            id: match doc.id {
                Some(id) => id,
                None => UNSET_ID,
            },
            strs: unwrap_fields(doc.strs),
            strstrs: unwrap_fields(doc.strstrs),
            bools: unwrap_fields(doc.bools),
            u64s: unwrap_fields(doc.u64s),
            ids: unwrap_fields(doc.ids),
        }
    }

    /// Writes the record as a document that gives all six attributes.
    pub fn to_document(&self) -> (doc: ItemDocument)
        ensures
            doc@ == ItemDocumentView::of(self@),
    {
        ItemDocument {
            id: Some(self.id),
            strs: Some(self.strs.clone()),
            strstrs: Some(self.strstrs.clone()),
            bools: Some(self.bools.clone()),
            u64s: Some(self.u64s.clone()),
            ids: Some(self.ids.clone()),
        }
    }
}

} // verus!
