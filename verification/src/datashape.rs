//! The data shape: the ordered, named field declarations of a table.
//!
//! The declarations live in an `indexmap::IndexMap`, keyed by field name. The
//! verifier sees the map through `shape_fields`, the sequence of its fields in
//! insertion order.

use vstd::prelude::*;
use indexmap::IndexMap;
use crate::base_type::PyBaseType;

verus! {

/// Makes `indexmap::IndexMap` known as a type whose inside is not looked
/// into.
#[verifier::external_type_specification]
#[verifier::external_body]
#[verifier::reject_recursive_types(K)]
#[verifier::reject_recursive_types(V)]
#[verifier::reject_recursive_types(S)]
pub struct ExIndexMap<K, V, S>(IndexMap<K, V, S>);

/// What a data shape records of one field besides its name.
#[derive(Clone, Debug, PartialEq, Eq)]
pub struct DataShapeEntry {
    pub description: String,
    pub entry_type: PyBaseType,
}

/// One declared field, as contracts speak of it.
pub ghost struct FieldView {
    pub name: Seq<char>,
    pub description: Seq<char>,
    pub entry_type: PyBaseType,
}

/// The fields that a map holds, in the map's order: the key of each pair as
/// the field's name, with the description and type of the pair's value.
pub uninterp spec fn shape_fields(entries: IndexMap<String, DataShapeEntry>) -> Seq<FieldView>;

/// The place of the first field called `name`, if there is one.
pub open spec fn field_position(fields: Seq<FieldView>, name: Seq<char>) -> Option<int>
    decreases fields.len(),
{
    if fields.len() == 0 {
        None
    } else if fields.last().name == name && field_position(fields.drop_last(), name) is None {
        Some(fields.len() - 1)
    } else {
        field_position(fields.drop_last(), name)
    }
}

/// The fields after `field` has been declared: a field of that name keeps
/// its place and takes the new description and type; a new name comes last.
pub open spec fn fields_after_insert(fields: Seq<FieldView>, field: FieldView) -> Seq<FieldView> {
    match field_position(fields, field.name) {
        Some(i) => fields.update(i, field),
        None => fields.push(field),
    }
}

/// No two fields share a name.
pub open spec fn names_distinct(fields: Seq<FieldView>) -> bool {
    forall|i: int, j: int|
        0 <= i < j < fields.len() ==> (#[trigger] fields[i]).name != (#[trigger] fields[j]).name
}

/// Calls `IndexMap::new`: a map without pairs.
#[verifier::external_body]
pub(crate) fn entries_new() -> (entries: IndexMap<String, DataShapeEntry>)
    ensures
        shape_fields(entries) == Seq::<FieldView>::empty(),
{
    IndexMap::new()
}

/// Calls `IndexMap::len`: the number of pairs.
#[verifier::external_body]
pub(crate) fn entries_len(entries: &IndexMap<String, DataShapeEntry>) -> (n: usize)
    ensures
        n == shape_fields(*entries).len(),
{
    entries.len()
}

/// Calls `IndexMap::insert` and drops the value that it hands back. Where
/// the key is already in the map, the pair keeps its place and takes the new
/// value; else the pair is added last.
#[verifier::external_body]
pub(crate) fn entries_insert(
    entries: &mut IndexMap<String, DataShapeEntry>,
    key: String,
    value: DataShapeEntry,
)
    ensures
        shape_fields(*final(entries)) == fields_after_insert(
            shape_fields(*old(entries)),
            FieldView {
                name: key@,
                description: value.description@,
                entry_type: value.entry_type,
            },
        ),
{
    entries.insert(key, value);
}

/// Calls `IndexMap::get_index`: the pair at place `index`, or `None` where
/// the map has no such place.
#[verifier::external_body]
pub(crate) fn entries_get_index(
    entries: &IndexMap<String, DataShapeEntry>,
    index: usize,
) -> (r: Option<(&String, &DataShapeEntry)>)
    ensures
        match r {
            Some((key, value)) => index < shape_fields(*entries).len()
                && key@ == shape_fields(*entries)[index as int].name
                && value.description@ == shape_fields(*entries)[index as int].description
                && value.entry_type == shape_fields(*entries)[index as int].entry_type,
            None => index >= shape_fields(*entries).len(),
        },
{
    entries.get_index(index)
}

/// Calls `IndexMap::clone`: a map with clones of the same pairs in the same
/// order.
#[verifier::external_body]
pub(crate) fn entries_clone(entries: &IndexMap<String, DataShapeEntry>) -> (copy: IndexMap<
    String,
    DataShapeEntry,
>)
    ensures
        shape_fields(copy) == shape_fields(*entries),
{
    entries.clone()
}

/// The ordered field declarations of a table, with the shape's optional name.
#[derive(Debug, PartialEq, Eq)]
pub struct DataShape {
    pub name: Option<String>,
    pub entries: IndexMap<String, DataShapeEntry>,
}

/// The name of a shape or table as contracts speak of it.
pub open spec fn name_view(name: Option<String>) -> Option<Seq<char>> {
    match name {
        Some(s) => Some(s@),
        None => None,
    }
}

impl Clone for DataShape {
    fn clone(&self) -> (copy: Self)
        ensures
            name_view(copy.name) == name_view(self.name),
            copy.fields() == self.fields(),
    {
        let name = match &self.name {
            Some(s) => Some(s.clone()),
            None => None,
        };
        DataShape { name, entries: entries_clone(&self.entries) }
    }
}

impl DataShape {
    /// The declared fields in insertion order.
    pub open spec fn fields(&self) -> Seq<FieldView> {
        shape_fields(self.entries)
    }

    /// A shape without fields.
    pub fn new(name: Option<String>) -> (shape: Self)
        ensures
            shape.name == name,
            shape.fields() == Seq::<FieldView>::empty(),
            names_distinct(shape.fields()),
    {
        DataShape { name, entries: entries_new() }
    }

    pub fn field_count(&self) -> (n: usize)
        ensures
            n == self.fields().len(),
    {
        entries_len(&self.entries)
    }

    /// Declares a field. A name that is already declared keeps its place and
    /// takes the new description and type.
    pub fn define(&mut self, name: String, entry_type: PyBaseType, description: String)
        ensures
            final(self).name == old(self).name,
            final(self).fields() == fields_after_insert(
                old(self).fields(),
                FieldView { name: name@, description: description@, entry_type },
            ),
            names_distinct(old(self).fields()) ==> names_distinct(final(self).fields()),
    {
        proof {
            if names_distinct(self.fields()) {
                lemma_insert_keeps_names_distinct(
                    self.fields(),
                    FieldView { name: name@, description: description@, entry_type },
                );
            }
        }
        entries_insert(&mut self.entries, name, DataShapeEntry { description, entry_type });
    }

    /// The name and declaration of the field at place `index`.
    pub fn field_at(&self, index: usize) -> (r: Option<(&String, &DataShapeEntry)>)
        ensures
            match r {
                Some((key, value)) => index < self.fields().len()
                    && key@ == self.fields()[index as int].name
                    && value.description@ == self.fields()[index as int].description
                    && value.entry_type == self.fields()[index as int].entry_type,
                None => index >= self.fields().len(),
            },
    {
        entries_get_index(&self.entries, index)
    }
}

/// A position that `field_position` gives is the first one with that name.
pub proof fn lemma_field_position(fields: Seq<FieldView>, name: Seq<char>)
    ensures
        match field_position(fields, name) {
            Some(i) => 0 <= i < fields.len() && fields[i].name == name
                && forall|k: int| 0 <= k < i ==> (#[trigger] fields[k]).name != name,
            None => forall|k: int| 0 <= k < fields.len() ==> (#[trigger] fields[k]).name != name,
        },
    decreases fields.len(),
{
    if fields.len() > 0 {
        lemma_field_position(fields.drop_last(), name);
        let front = fields.drop_last();
        assert(forall|k: int| 0 <= k < front.len() ==> front[k] == fields[k]);
        match field_position(front, name) {
            Some(i) => {
                assert(fields[i] == front[i]);
                assert forall|k: int| 0 <= k < i implies (#[trigger] fields[k]).name != name by {
                    assert(front[k].name != name);
                }
            },
            None => {
                assert forall|k: int| 0 <= k < front.len() implies (#[trigger] fields[k]).name
                    != name by {
                    assert(front[k].name != name);
                }
            },
        }
    }
}

/// Declaring a field keeps the names distinct, keeps every other field and
/// its place, and never makes the shape shorter.
pub proof fn lemma_insert_keeps_names_distinct(fields: Seq<FieldView>, field: FieldView)
    requires
        names_distinct(fields),
    ensures
        names_distinct(fields_after_insert(fields, field)),
        fields_after_insert(fields, field).len() >= fields.len(),
        field_position(fields_after_insert(fields, field), field.name) is Some,
{
    lemma_field_position(fields, field.name);
    let after = fields_after_insert(fields, field);
    lemma_field_position(after, field.name);
    match field_position(fields, field.name) {
        Some(i) => {
            assert(after[i].name == field.name);
            assert forall|a: int, b: int| 0 <= a < b < after.len() implies (#[trigger] after[a]).name
                != (#[trigger] after[b]).name by {
                assert(fields[a].name != fields[b].name);
            }
        },
        None => {
            assert(after[fields.len() as int].name == field.name);
            assert forall|a: int, b: int| 0 <= a < b < after.len() implies (#[trigger] after[a]).name
                != (#[trigger] after[b]).name by {
                if b < fields.len() {
                    assert(fields[a].name != fields[b].name);
                } else {
                    assert(fields[a].name != field.name);
                }
            }
        },
    }
}

} // verus!
