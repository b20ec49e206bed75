//! Rows from records: how an untyped record gives the cells of a row, field
//! by field, in the order of the data shape.

use vstd::prelude::*;
use vstd::string::StringExecFns;
use crate::base_type::PyBaseType;
use crate::datashape::FieldView;
use crate::error::{ErrorKind, PyAlwaysOnError};
use crate::native::{record_lookup, NativeValue, NativeView, Record, RecordView};
use crate::primitive::{PrimView, PyTwPrim};

verus! {

/// The typed value that a host value gives for a field of type `target`.
/// Rows can be built for STRING, NUMBER, INTEGER, LONG, DATETIME and BOOLEAN
/// fields, each from the one kind of host value that is its own; an INTEGER
/// must fit 32 bits.
pub open spec fn coerce(value: NativeView, target: PyBaseType) -> Result<PrimView, ErrorKind> {
    match target {
        PyBaseType::String => match value {
            NativeView::Text(s) => Ok(PrimView::String(s)),
            _ => Err(ErrorKind::TypeMismatch),
        },
        PyBaseType::Number => match value {
            NativeView::Float(bits) => Ok(PrimView::Number(bits)),
            _ => Err(ErrorKind::TypeMismatch),
        },
        PyBaseType::Integer => match value {
            NativeView::Integer(i) => if i32::MIN <= i <= i32::MAX {
                Ok(PrimView::Integer(i as i32))
            } else {
                Err(ErrorKind::ValueOutOfRange)
            },
            _ => Err(ErrorKind::TypeMismatch),
        },
        PyBaseType::Long => match value {
            NativeView::Integer(i) => Ok(PrimView::Long(i)),
            _ => Err(ErrorKind::TypeMismatch),
        },
        PyBaseType::Datetime => match value {
            NativeView::Integer(i) => Ok(PrimView::Datetime(i)),
            _ => Err(ErrorKind::TypeMismatch),
        },
        PyBaseType::Boolean => match value {
            NativeView::Boolean(b) => Ok(PrimView::Boolean(b)),
            _ => Err(ErrorKind::TypeMismatch),
        },
        _ => Err(ErrorKind::UnsupportedFieldType),
    }
}

/// The cell that a record gives for a field: the record must hold the
/// field's name, and the value under it must coerce to the field's type.
pub open spec fn build_cell(record: RecordView, name: Seq<char>, entry_type: PyBaseType) -> Result<
    PrimView,
    ErrorKind,
> {
    match record_lookup(record, name) {
        None => Err(ErrorKind::MissingField),
        Some(value) => coerce(value, entry_type),
    }
}

/// The place of the first field for which the record gives no cell.
pub open spec fn failing_field(record: RecordView, fields: Seq<FieldView>) -> Option<int>
    decreases fields.len(),
{
    if fields.len() == 0 {
        None
    } else {
        match failing_field(record, fields.drop_last()) {
            Some(k) => Some(k),
            None => if build_cell(record, fields.last().name, fields.last().entry_type) is Err {
                Some(fields.len() - 1)
            } else {
                None
            },
        }
    }
}

/// The row that a record gives: one cell per field, in the order of the
/// fields.
pub open spec fn built_row(record: RecordView, fields: Seq<FieldView>) -> Seq<PrimView> {
    Seq::new(fields.len(), |k: int| build_cell(record, fields[k].name, fields[k].entry_type)->Ok_0)
}

/// The message of the failure of kind `kind` at a field.
pub open spec fn row_error_text(name: Seq<char>, entry_type: PyBaseType, kind: ErrorKind) -> Seq<
    char,
> {
    match kind {
        ErrorKind::MissingField => "Missing field: "@ + name,
        ErrorKind::UnsupportedFieldType => "Unsupported field type for field "@ + name + ": "@
            + entry_type.name_text(),
        ErrorKind::ValueOutOfRange => "Value out of range for field "@ + name + ": expected "@
            + entry_type.name_text(),
        _ => "Type mismatch for field "@ + name + ": expected "@ + entry_type.name_text(),
    }
}

/// A row has one cell per field, each with the tag that the field declares.
pub open spec fn row_conforms(row: Seq<PrimView>, fields: Seq<FieldView>) -> bool {
    &&& row.len() == fields.len()
    &&& forall|k: int| 0 <= k < row.len() ==> (#[trigger] row[k]).tag() == fields[k].entry_type
}

/// The first failing field is a failing field, and no field before it fails.
pub proof fn lemma_failing_field(record: RecordView, fields: Seq<FieldView>)
    ensures
        match failing_field(record, fields) {
            Some(k) => 0 <= k < fields.len() && build_cell(
                record,
                fields[k].name,
                fields[k].entry_type,
            ) is Err && forall|j: int|
                0 <= j < k ==> build_cell(
                    record,
                    (#[trigger] fields[j]).name,
                    fields[j].entry_type,
                ) is Ok,
            None => forall|j: int|
                0 <= j < fields.len() ==> build_cell(
                    record,
                    (#[trigger] fields[j]).name,
                    fields[j].entry_type,
                ) is Ok,
        },
    decreases fields.len(),
{
    if fields.len() > 0 {
        let front = fields.drop_last();
        lemma_failing_field(record, front);
        assert(forall|j: int| 0 <= j < front.len() ==> front[j] == fields[j]);
        match failing_field(record, front) {
            Some(k) => {
                assert(front[k] == fields[k]);
                assert forall|j: int| 0 <= j < k implies build_cell(
                    record,
                    (#[trigger] fields[j]).name,
                    fields[j].entry_type,
                ) is Ok by {
                    assert(front[j] == fields[j]);
                }
            },
            None => {
                assert forall|j: int| 0 <= j < front.len() implies build_cell(
                    record,
                    (#[trigger] fields[j]).name,
                    fields[j].entry_type,
                ) is Ok by {
                    assert(front[j] == fields[j]);
                }
            },
        }
    }
}

/// A value that coerces to a type has that type's tag.
pub proof fn lemma_coerce_tag(value: NativeView, target: PyBaseType)
    requires
        coerce(value, target) is Ok,
    ensures
        coerce(value, target)->Ok_0.tag() == target,
{
}

/// A row that was built from a record conforms to the fields it was built
/// for.
pub proof fn lemma_built_row_conforms(record: RecordView, fields: Seq<FieldView>)
    requires
        failing_field(record, fields) is None,
    ensures
        row_conforms(built_row(record, fields), fields),
{
    lemma_failing_field(record, fields);
    let row = built_row(record, fields);
    assert forall|k: int| 0 <= k < row.len() implies (#[trigger] row[k]).tag()
        == fields[k].entry_type by {
        let f = fields[k];
        assert(build_cell(record, f.name, f.entry_type) is Ok);
        lemma_coerce_tag(record_lookup(record, f.name)->Some_0, f.entry_type);
    }
}

/// Coerces a host value to a field's type.
pub fn coerce_value(value: &NativeValue, target: PyBaseType) -> (r: Result<PyTwPrim, ErrorKind>)
    ensures
        match coerce(value@, target) {
            Ok(cell) => r is Ok && r->Ok_0@ == cell,
            Err(kind) => r == Err::<PyTwPrim, ErrorKind>(kind),
        },
{
    match target {
        PyBaseType::String => match value {
            NativeValue::Text(s) => Ok(PyTwPrim::String(s.clone())),
            _ => Err(ErrorKind::TypeMismatch),
        },
        PyBaseType::Number => match value {
            NativeValue::Float(bits) => Ok(PyTwPrim::Number(*bits)),
            _ => Err(ErrorKind::TypeMismatch),
        },
        PyBaseType::Integer => match value {
            NativeValue::Integer(i) => {
                if -0x8000_0000i64 <= *i && *i <= 0x7fff_ffffi64 {
                    Ok(PyTwPrim::Integer(*i as i32))
                } else {
                    Err(ErrorKind::ValueOutOfRange)
                }
            },
            _ => Err(ErrorKind::TypeMismatch),
        },
        PyBaseType::Long => match value {
            NativeValue::Integer(i) => Ok(PyTwPrim::Long(*i)),
            _ => Err(ErrorKind::TypeMismatch),
        },
        PyBaseType::Datetime => match value {
            NativeValue::Integer(i) => Ok(PyTwPrim::Datetime(*i)),
            _ => Err(ErrorKind::TypeMismatch),
        },
        PyBaseType::Boolean => match value {
            NativeValue::Boolean(b) => Ok(PyTwPrim::Boolean(*b)),
            _ => Err(ErrorKind::TypeMismatch),
        },
        _ => Err(ErrorKind::UnsupportedFieldType),
    }
}

/// The failure of kind `kind` at a field, with its message.
pub fn row_error(name: &str, entry_type: PyBaseType, kind: ErrorKind) -> (e: PyAlwaysOnError)
    ensures
        e.kind == kind,
        e.message@ == row_error_text(name@, entry_type, kind),
{
    let message = match kind {
        ErrorKind::MissingField => String::from_str("Missing field: ").concat(name),
        ErrorKind::UnsupportedFieldType => String::from_str(
            "Unsupported field type for field ",
        ).concat(name).concat(": ").concat(entry_type.name()),
        ErrorKind::ValueOutOfRange => String::from_str("Value out of range for field ").concat(
            name,
        ).concat(": expected ").concat(entry_type.name()),
        _ => String::from_str("Type mismatch for field ").concat(name).concat(
            ": expected ",
        ).concat(entry_type.name()),
    };
    PyAlwaysOnError::new(kind, message)
}

/// Builds the cell of one field from a record.
pub fn cell_from_record(record: &Record, name: &str, entry_type: PyBaseType) -> (r: Result<
    PyTwPrim,
    PyAlwaysOnError,
>)
    ensures
        match build_cell(record@, name@, entry_type) {
            Ok(cell) => r is Ok && r->Ok_0@ == cell,
            Err(kind) => r is Err && r->Err_0.kind == kind && r->Err_0.message@ == row_error_text(
                name@,
                entry_type,
                kind,
            ),
        },
{
    match record.get(name) {
        None => Err(row_error(name, entry_type, ErrorKind::MissingField)),
        Some(value) => match coerce_value(value, entry_type) {
            Ok(cell) => Ok(cell),
            Err(kind) => Err(row_error(name, entry_type, kind)),
        },
    }
}

} // verus!
