//! The info table: a data shape and the rows that were built against it.

use vstd::prelude::*;
use vstd::string::StringExecFns;
use crate::base_type::{uppercase_of, PyBaseType};
use crate::datashape::{fields_after_insert, name_view, names_distinct, DataShape, FieldView};
use crate::error::{ErrorKind, PyAlwaysOnError};
use crate::native::{Record, RecordView};
use crate::primitive::{cells_view, lemma_cells_view, prim_view, PrimView, PyTwPrim};
use crate::row::{
    build_cell, built_row, cell_from_record, failing_field, lemma_built_row_conforms,
    lemma_failing_field, row_conforms, row_error_text,
};
use crate::text::{decimal_digits, decimal_text};

verus! {

/// A table: its shape and its rows, each row a sequence of cells.
#[derive(Debug, PartialEq)]
pub struct PyInfoTable {
    pub datashape: DataShape,
    pub rows: Vec<Vec<PyTwPrim>>,
}

/// A table as contracts speak of it.
pub ghost struct TableView {
    pub name: Option<Seq<char>>,
    pub fields: Seq<FieldView>,
    pub rows: Seq<Seq<PrimView>>,
}

/// The views of a table's rows, in order.
pub open spec fn rows_view(rows: Seq<Vec<PyTwPrim>>) -> Seq<Seq<PrimView>>
    decreases rows,
{
    Seq::new(
        rows.len(),
        |i: int|
            if 0 <= i < rows.len() {
                cells_view(rows[i]@)
            } else {
                Seq::empty()
            },
    )
}

pub open spec fn table_view(t: PyInfoTable) -> TableView
    decreases t,
{
    TableView {
        name: name_view(t.datashape.name),
        fields: t.datashape.fields(),
        rows: rows_view(t.rows@),
    }
}

impl View for PyInfoTable {
    type V = TableView;

    open spec fn view(&self) -> TableView {
        table_view(*self)
    }
}

/// What `rows_view` holds at each place.
pub proof fn lemma_rows_view(rows: Seq<Vec<PyTwPrim>>)
    ensures
        rows_view(rows).len() == rows.len(),
        forall|i: int| 0 <= i < rows.len() ==> #[trigger] rows_view(rows)[i] == cells_view(rows[i]@),
{
}

/// What `{:?}` writes for an optional text: `None`, or `Some` around the
/// text in double quotes, with the escapes of Rust's string literals.
pub uninterp spec fn debug_text_of(name: Option<Seq<char>>) -> Seq<char>;

/// Formats an optional text with `{:?}`, that is with the `Debug` impls of
/// `Option` and `String`. The result is a function of the text alone; the
/// contract gives it its name and claims nothing else.
#[verifier::external_body]
fn debug_text(name: &Option<String>) -> (s: String)
    ensures
        s@ == debug_text_of(name_view(*name)),
{
    format!("{:?}", name)
}

impl TableView {
    /// Every row conforms to the shape.
    pub open spec fn conforms(self) -> bool {
        forall|i: int| 0 <= i < self.rows.len() ==> row_conforms(#[trigger] self.rows[i], self.fields)
    }

    /// The longer text that stands for a table: its counts and the text
    /// that stands for the name of its shape.
    pub open spec fn repr_text(self, name_text: Seq<char>) -> Seq<char> {
        "InfoTable(rows="@ + decimal_digits(self.rows.len()) + ", fields="@ + decimal_digits(
            self.fields.len(),
        ) + ", name="@ + name_text + ")"@
    }

    /// The short text that stands for a table: its row and field counts.
    pub open spec fn summary_text(self) -> Seq<char> {
        "InfoTable(rows="@ + decimal_digits(self.rows.len()) + ", fields="@ + decimal_digits(
            self.fields.len(),
        ) + ")"@
    }
}

/// Adding a built row to a table whose rows conform leaves a table whose
/// rows conform.
pub proof fn lemma_add_row_keeps_conformance(table: TableView, record: RecordView)
    requires
        table.conforms(),
        failing_field(record, table.fields) is None,
    ensures
        (TableView {
            name: table.name,
            fields: table.fields,
            rows: table.rows.push(built_row(record, table.fields)),
        }).conforms(),
{
    lemma_built_row_conforms(record, table.fields);
    let after = TableView {
        name: table.name,
        fields: table.fields,
        rows: table.rows.push(built_row(record, table.fields)),
    };
    assert forall|i: int| 0 <= i < after.rows.len() implies row_conforms(
        #[trigger] after.rows[i],
        after.fields,
    ) by {
        if i < table.rows.len() {
            assert(after.rows[i] == table.rows[i]);
        }
    }
}

impl PyInfoTable {
    /// A table without fields and rows.
    pub fn new(name: Option<String>) -> (table: Self)
        ensures
            table@ == (TableView {
                name: name_view(name),
                fields: Seq::<FieldView>::empty(),
                rows: Seq::<Seq<PrimView>>::empty(),
            }),
    {
        let table = PyInfoTable { datashape: DataShape::new(name), rows: Vec::new() };
        assert(table@.rows =~= Seq::<Seq<PrimView>>::empty());
        table
    }

    pub fn get_row_count(&self) -> (n: usize)
        ensures
            n == self@.rows.len(),
    {
        self.rows.len()
    }

    pub fn get_field_count(&self) -> (n: usize)
        ensures
            n == self@.fields.len(),
    {
        self.datashape.field_count()
    }

    pub fn get_datashape_name(&self) -> (name: Option<String>)
        ensures
            name_view(name) == self@.name,
    {
        match &self.datashape.name {
            Some(s) => Some(s.clone()),
            None => None,
        }
    }

    /// Declares a field. The type is named in any letter case; a name that
    /// stands for no base type is an `InvalidBaseType` failure and leaves the
    /// table as it was. A field name that is already declared keeps its
    /// place and takes the new description and type. Rows that the table
    /// already holds stay as they are.
    pub fn add_field_definition(&mut self, name: String, base_type: String, description: String)
        -> (r: Result<(), PyAlwaysOnError>)
        ensures
            match PyBaseType::parse_upper(uppercase_of(base_type@)) {
                Some(kind) => r is Ok && final(self)@ == (TableView {
                    name: old(self)@.name,
                    fields: fields_after_insert(
                        old(self)@.fields,
                        FieldView { name: name@, description: description@, entry_type: kind },
                    ),
                    rows: old(self)@.rows,
                }),
                None => r is Err && r->Err_0.kind == ErrorKind::InvalidBaseType
                    && r->Err_0.message@ == PyBaseType::invalid_name_text(base_type@)
                    && final(self)@ == old(self)@,
            },
            names_distinct(old(self)@.fields) ==> names_distinct(final(self)@.fields),
    {
        match PyBaseType::new(base_type.as_str()) {
            Ok(kind) => {
                self.datashape.define(name, kind, description);
                Ok(())
            },
            Err(e) => Err(e),
        }
    }

    /// Builds a row from a record and appends it. The fields are taken in
    /// the order of the shape, whatever the order of the record. The first
    /// field for which the record gives no cell stops the work: its failure
    /// is returned and the table stays as it was.
    pub fn add_row(&mut self, record: &Record) -> (r: Result<(), PyAlwaysOnError>)
        ensures
            match failing_field(record@, old(self)@.fields) {
                None => r is Ok && final(self)@ == (TableView {
                    name: old(self)@.name,
                    fields: old(self)@.fields,
                    rows: old(self)@.rows.push(built_row(record@, old(self)@.fields)),
                }),
                Some(k) => {
                    let field = old(self)@.fields[k];
                    let kind = build_cell(record@, field.name, field.entry_type)->Err_0;
                    &&& r is Err
                    &&& r->Err_0.kind == kind
                    &&& r->Err_0.message@ == row_error_text(field.name, field.entry_type, kind)
                    &&& final(self)@ == old(self)@
                },
            },
            r is Ok ==> row_conforms(final(self)@.rows.last(), final(self)@.fields),
            old(self)@.conforms() ==> final(self)@.conforms(),
    {
        let ghost fields = self@.fields;
        let count = self.datashape.field_count();
        let mut cells: Vec<PyTwPrim> = Vec::new();
        let mut i: usize = 0;
        loop
            invariant
                *self == *old(self),
                fields == self@.fields,
                count == fields.len(),
                i <= count,
                cells.len() == i,
                forall|k: int|
                    0 <= k < i ==> build_cell(
                        record@,
                        (#[trigger] fields[k]).name,
                        fields[k].entry_type,
                    ) == Ok::<PrimView, ErrorKind>(prim_view(cells[k])),
            ensures
                i == count,
            decreases count - i,
        {
            match self.datashape.field_at(i) {
                None => {
                    break ;
                },
                Some((name, entry)) => {
                    match cell_from_record(record, name.as_str(), entry.entry_type) {
                        Ok(cell) => {
                            cells.push(cell);
                            i += 1;
                        },
                        Err(e) => {
                            proof {
                                lemma_failing_field(record@, fields);
                                let f = fields[i as int];
                                assert(build_cell(record@, f.name, f.entry_type) is Err);
                                match failing_field(record@, fields) {
                                    Some(k) => {
                                        if k < i {
                                            assert(build_cell(
                                                record@,
                                                fields[k].name,
                                                fields[k].entry_type,
                                            ) is Ok);
                                        }
                                        if i < k {
                                            assert(build_cell(
                                                record@,
                                                fields[i as int].name,
                                                fields[i as int].entry_type,
                                            ) is Ok);
                                        }
                                    },
                                    None => {},
                                }
                            }
                            return Err(e);
                        },
                    }
                },
            }
        }
        proof {
            lemma_failing_field(record@, fields);
            match failing_field(record@, fields) {
                Some(k) => {
                    assert(build_cell(record@, fields[k].name, fields[k].entry_type) is Ok);
                },
                None => {},
            }
            lemma_cells_view(cells@);
            assert(cells_view(cells@) =~= built_row(record@, fields));
        }
        self.rows.push(cells);
        proof {
            lemma_rows_view(self.rows@);
            lemma_rows_view(old(self).rows@);
            assert(rows_view(self.rows@) =~= rows_view(old(self).rows@).push(
                built_row(record@, fields),
            ));
            lemma_built_row_conforms(record@, fields);
            if old(self)@.conforms() {
                lemma_add_row_keeps_conformance(old(self)@, record@);
            }
        }
        Ok(())
    }

    /// Whether a row has one cell per field of the shape as it is now, each
    /// with the tag that the field declares.
    pub fn row_conforms(&self, row: &Vec<PyTwPrim>) -> (r: bool)
        ensures
            r == row_conforms(cells_view(row@), self@.fields),
    {
        let ghost fields = self@.fields;
        let ghost cells = cells_view(row@);
        proof {
            lemma_cells_view(row@);
        }
        let count = self.datashape.field_count();
        if row.len() != count {
            return false;
        }
        let mut j: usize = 0;
        loop
            invariant
                fields == self.datashape.fields(),
                cells == cells_view(row@),
                cells.len() == row.len(),
                forall|k: int| 0 <= k < row.len() ==> #[trigger] cells[k] == prim_view(row[k]),
                count == fields.len(),
                row.len() == count,
                j <= count,
                forall|k: int| 0 <= k < j ==> (#[trigger] cells[k]).tag() == fields[k].entry_type,
            ensures
                j == count,
            decreases count - j,
        {
            match self.datashape.field_at(j) {
                None => {
                    break ;
                },
                Some((_, entry)) => {
                    if row[j].base_type() != entry.entry_type {
                        assert(cells[j as int].tag() != fields[j as int].entry_type);
                        return false;
                    }
                    j += 1;
                },
            }
        }
        true
    }

    /// Whether every row conforms to the shape as it is now. Declaring a
    /// field does not look at the rows that are already there, so this is
    /// the way to find out after the shape has changed.
    pub fn rows_conform(&self) -> (r: bool)
        ensures
            r == self@.conforms(),
    {
        proof {
            lemma_rows_view(self.rows@);
        }
        let mut i: usize = 0;
        while i < self.rows.len()
            invariant
                i <= self.rows.len(),
                self@.rows.len() == self.rows.len(),
                forall|k: int|
                    0 <= k < self.rows.len() ==> #[trigger] self@.rows[k] == cells_view(
                        self.rows[k]@,
                    ),
                forall|k: int| 0 <= k < i ==> row_conforms(#[trigger] self@.rows[k], self@.fields),
            decreases self.rows.len() - i,
        {
            if !self.row_conforms(&self.rows[i]) {
                assert(!row_conforms(self@.rows[i as int], self@.fields));
                return false;
            }
            i += 1;
        }
        true
    }

    pub fn __str__(&self) -> (s: String)
        ensures
            s@ == self@.summary_text(),
    {
        String::from_str("InfoTable(rows=").concat(
            decimal_text(self.rows.len() as u64).as_str(),
        ).concat(", fields=").concat(
            decimal_text(self.datashape.field_count() as u64).as_str(),
        ).concat(")")
    }

    /// What `__repr__` gives, from the text that stands for the shape's name.
    pub fn repr_with_name(&self, name_text: &str) -> (s: String)
        ensures
            s@ == self@.repr_text(name_text@),
    {
        String::from_str("InfoTable(rows=").concat(
            decimal_text(self.rows.len() as u64).as_str(),
        ).concat(", fields=").concat(
            decimal_text(self.datashape.field_count() as u64).as_str(),
        ).concat(", name=").concat(name_text).concat(")")
    }

    pub fn __repr__(&self) -> (s: String)
        ensures
            s@ == self@.repr_text(debug_text_of(self@.name)),
    {
        let name_text = debug_text(&self.datashape.name);
        self.repr_with_name(name_text.as_str())
    }

    /// A copy of the whole table, nested values included.
    pub fn duplicate(&self) -> (copy: Self)
        ensures
            copy@ == self@,
        decreases self,
    {
        let datashape = self.datashape.clone();
        let mut rows: Vec<Vec<PyTwPrim>> = Vec::new();
        let mut i: usize = 0;
        while i < self.rows.len()
            invariant
                i <= self.rows.len(),
                rows.len() == i,
                forall|k: int| 0 <= k < i ==> cells_view(#[trigger] rows[k]@) == cells_view(self.rows[k]@),
            decreases self.rows.len() - i,
        {
            let source = &self.rows[i];
            let mut cells: Vec<PyTwPrim> = Vec::new();
            let mut j: usize = 0;
            while j < source.len()
                invariant
                    i < self.rows.len(),
                    source == &self.rows[i as int],
                    j <= source.len(),
                    cells.len() == j,
                    forall|k: int| 0 <= k < j ==> prim_view(#[trigger] cells[k]) == prim_view(source[k]),
                decreases source.len() - j,
            {
                let cell = source[j].duplicate();
                cells.push(cell);
                j += 1;
            }
            proof {
                lemma_cells_view(cells@);
                lemma_cells_view(source@);
                assert(cells_view(cells@) =~= cells_view(source@));
            }
            rows.push(cells);
            i += 1;
        }
        let copy = PyInfoTable { datashape, rows };
        proof {
            lemma_rows_view(copy.rows@);
            lemma_rows_view(self.rows@);
            assert(rows_view(copy.rows@) =~= rows_view(self.rows@));
        }
        copy
    }
}

impl Clone for PyInfoTable {
    fn clone(&self) -> (copy: Self)
        ensures
            copy@ == self@,
    {
        self.duplicate()
    }
}

} // verus!
