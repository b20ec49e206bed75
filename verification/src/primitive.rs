//! The primitive value: a tagged union with one variant per base type.

use vstd::prelude::*;
use vstd::string::StringExecFns;
use bytes::Bytes;
use crate::base_type::PyBaseType;
use crate::blob::{blob_bytes, blob_from_vec, blob_to_vec};
use crate::datashape::FieldView;
use crate::error::{ErrorKind, PyAlwaysOnError};
use crate::infotable::{table_view, PyInfoTable, TableView};
use crate::native::{NativeValue, NativeView};

verus! {

/// The payload of a LOCATION: three NUMBERs, each kept as the bit pattern of
/// its IEEE 754 double.
#[derive(Clone, Copy, Debug, PartialEq, Eq, Structural)]
pub struct Location {
    pub latitude: u64,
    pub longitude: u64,
    pub elevation: u64,
}

/// A primitive value. The variant is the value's tag, so tag and payload
/// cannot disagree. A NUMBER is kept as the bit pattern of its IEEE 754
/// double.
#[derive(Debug, PartialEq)]
pub enum PyTwPrim {
    Boolean(bool),
    Integer(i32),
    Long(i64),
    Number(u64),
    String(String),
    Datetime(i64),
    Blob(Bytes),
    Location(Location),
    Infotable(Box<PyInfoTable>),
    Variant(Box<PyTwPrim>),
    Nothing,
}

/// A primitive value as contracts speak of it: texts and byte buffers by
/// their contents, tables by their view.
pub ghost enum PrimView {
    Boolean(bool),
    Integer(i32),
    Long(i64),
    Number(u64),
    String(Seq<char>),
    Datetime(i64),
    Blob(Seq<u8>),
    Location(Location),
    Infotable(TableView),
    Variant(Box<PrimView>),
    Nothing,
}

pub open spec fn prim_view(p: PyTwPrim) -> PrimView
    decreases p,
{
    match p {
        PyTwPrim::Boolean(b) => PrimView::Boolean(b),
        PyTwPrim::Integer(i) => PrimView::Integer(i),
        PyTwPrim::Long(l) => PrimView::Long(l),
        PyTwPrim::Number(bits) => PrimView::Number(bits),
        PyTwPrim::String(s) => PrimView::String(s@),
        PyTwPrim::Datetime(d) => PrimView::Datetime(d),
        PyTwPrim::Blob(b) => PrimView::Blob(blob_bytes(b)),
        PyTwPrim::Location(l) => PrimView::Location(l),
        PyTwPrim::Infotable(t) => PrimView::Infotable(table_view(*t)),
        PyTwPrim::Variant(inner) => PrimView::Variant(Box::new(prim_view(*inner))),
        PyTwPrim::Nothing => PrimView::Nothing,
    }
}

/// The views of a row's cells, in order.
pub open spec fn cells_view(cells: Seq<PyTwPrim>) -> Seq<PrimView>
    decreases cells,
{
    Seq::new(
        cells.len(),
        |j: int|
            if 0 <= j < cells.len() {
                prim_view(cells[j])
            } else {
                PrimView::Nothing
            },
    )
}

impl View for PyTwPrim {
    type V = PrimView;

    open spec fn view(&self) -> PrimView {
        prim_view(*self)
    }
}

impl PrimView {
    /// The tag of the value.
    pub open spec fn tag(self) -> PyBaseType {
        match self {
            PrimView::Boolean(_) => PyBaseType::Boolean,
            PrimView::Integer(_) => PyBaseType::Integer,
            PrimView::Long(_) => PyBaseType::Long,
            PrimView::Number(_) => PyBaseType::Number,
            PrimView::String(_) => PyBaseType::String,
            PrimView::Datetime(_) => PyBaseType::Datetime,
            PrimView::Blob(_) => PyBaseType::Blob,
            PrimView::Location(_) => PyBaseType::Location,
            PrimView::Infotable(_) => PyBaseType::Infotable,
            PrimView::Variant(_) => PyBaseType::Variant,
            PrimView::Nothing => PyBaseType::Nothing,
        }
    }

    /// The tag one VARIANT layer down: the tag of what a VARIANT wraps, and
    /// the value's own tag where it is no VARIANT.
    pub open spec fn inner_tag(self) -> PyBaseType {
        match self {
            PrimView::Variant(inner) => inner.tag(),
            _ => self.tag(),
        }
    }

    /// The number of VARIANT layers around the value.
    pub open spec fn variant_depth(self) -> nat
        decreases self,
    {
        match self {
            PrimView::Variant(inner) => 1 + inner.variant_depth(),
            _ => 0,
        }
    }

    /// The value under all its VARIANT layers.
    pub open spec fn innermost(self) -> PrimView
        decreases self,
    {
        match self {
            PrimView::Variant(inner) => inner.innermost(),
            _ => self,
        }
    }

    /// The path of tags from the outermost VARIANT layer down to the first
    /// tag that is not VARIANT, joined by `::`.
    pub open spec fn full_type_text(self) -> Seq<char>
        decreases self,
    {
        match self {
            PrimView::Variant(inner) => "VARIANT::"@ + inner.full_type_text(),
            _ => self.tag().name_text(),
        }
    }

    /// The value as the host sees it. A VARIANT gives what its wrapped value
    /// gives; a table gives its summary text; a LOCATION gives nothing.
    pub open spec fn native(self) -> Result<NativeView, ErrorKind>
        decreases self,
    {
        match self {
            PrimView::Boolean(b) => Ok(NativeView::Boolean(b)),
            PrimView::Integer(i) => Ok(NativeView::Integer(i as i64)),
            PrimView::Long(l) => Ok(NativeView::Integer(l)),
            PrimView::Number(bits) => Ok(NativeView::Float(bits)),
            PrimView::String(s) => Ok(NativeView::Text(s)),
            PrimView::Datetime(d) => Ok(NativeView::Integer(d)),
            PrimView::Blob(b) => Ok(NativeView::Bytes(b)),
            PrimView::Infotable(t) => Ok(NativeView::Text(t.summary_text())),
            PrimView::Nothing => Ok(NativeView::Absent),
            PrimView::Variant(inner) => inner.native(),
            PrimView::Location(_) => Err(ErrorKind::UnsupportedType),
        }
    }
}

/// The full type path is one `VARIANT::` for each VARIANT layer, and then
/// the name of the tag of the innermost value, which is no VARIANT.
pub proof fn lemma_full_type_text(v: PrimView)
    ensures
        !(v.innermost() is Variant),
        v.variant_depth() == 0 ==> v.full_type_text() == v.innermost().tag().name_text(),
        v.variant_depth() > 0 ==> v.full_type_text() == "VARIANT::"@
            + v->Variant_0.full_type_text(),
        v.full_type_text().len() == 9 * v.variant_depth()
            + v.innermost().tag().name_text().len(),
    decreases v,
{
    reveal_strlit("VARIANT::");
    match v {
        PrimView::Variant(inner) => {
            lemma_full_type_text(*inner);
        },
        _ => {},
    }
}

/// A value gives the host what the value under its VARIANT layers gives, and
/// gives nothing exactly where that value is a LOCATION.
pub proof fn lemma_native_failures(v: PrimView)
    ensures
        v.native() == v.innermost().native(),
        v.native() is Err <==> v.innermost() is Location,
    decreases v,
{
    match v {
        PrimView::Variant(inner) => {
            lemma_native_failures(*inner);
        },
        _ => {},
    }
}

/// What `cells_view` holds at each place.
pub proof fn lemma_cells_view(cells: Seq<PyTwPrim>)
    ensures
        cells_view(cells).len() == cells.len(),
        forall|j: int| 0 <= j < cells.len() ==> #[trigger] cells_view(cells)[j] == prim_view(cells[j]),
{
}

impl PyTwPrim {
    pub fn boolean(value: bool) -> (r: Result<Self, PyAlwaysOnError>)
        ensures
            r is Ok && r->Ok_0@ == PrimView::Boolean(value),
    {
        Ok(PyTwPrim::Boolean(value))
    }

    /// An INTEGER. The value must fit 32 bits; one that does not is a
    /// `ValueOutOfRange` failure.
    pub fn integer(value: i64) -> (r: Result<Self, PyAlwaysOnError>)
        ensures
            i32::MIN <= value <= i32::MAX ==> r is Ok && r->Ok_0@ == PrimView::Integer(value as i32),
            !(i32::MIN <= value <= i32::MAX) ==> r is Err && r->Err_0.kind
                == ErrorKind::ValueOutOfRange && r->Err_0.message@
                == "INTEGER value does not fit 32 bits"@,
    {
        if -0x8000_0000i64 <= value && value <= 0x7fff_ffffi64 {
            Ok(PyTwPrim::Integer(value as i32))
        } else {
            Err(
                PyAlwaysOnError::new(
                    ErrorKind::ValueOutOfRange,
                    String::from_str("INTEGER value does not fit 32 bits"),
                ),
            )
        }
    }

    pub fn long(value: i64) -> (r: Result<Self, PyAlwaysOnError>)
        ensures
            r is Ok && r->Ok_0@ == PrimView::Long(value),
    {
        Ok(PyTwPrim::Long(value))
    }

    /// A NUMBER, from the bit pattern of its IEEE 754 double.
    pub fn number(bits: u64) -> (r: Result<Self, PyAlwaysOnError>)
        ensures
            r is Ok && r->Ok_0@ == PrimView::Number(bits),
    {
        Ok(PyTwPrim::Number(bits))
    }

    pub fn string(value: String) -> (r: Result<Self, PyAlwaysOnError>)
        ensures
            r is Ok && r->Ok_0@ == PrimView::String(value@),
    {
        Ok(PyTwPrim::String(value))
    }

    pub fn datetime(value: i64) -> (r: Result<Self, PyAlwaysOnError>)
        ensures
            r is Ok && r->Ok_0@ == PrimView::Datetime(value),
    {
        Ok(PyTwPrim::Datetime(value))
    }

    pub fn blob(value: Vec<u8>) -> (r: Result<Self, PyAlwaysOnError>)
        ensures
            r is Ok && r->Ok_0@ == PrimView::Blob(value@),
    {
        Ok(PyTwPrim::Blob(blob_from_vec(value)))
    }

    pub fn location(value: Location) -> (r: Result<Self, PyAlwaysOnError>)
        ensures
            r is Ok && r->Ok_0@ == PrimView::Location(value),
    {
        Ok(PyTwPrim::Location(value))
    }

    /// An INFOTABLE that owns `table`.
    pub fn infotable(table: PyInfoTable) -> (r: Result<Self, PyAlwaysOnError>)
        ensures
            r is Ok && r->Ok_0@ == PrimView::Infotable(table@),
    {
        Ok(PyTwPrim::Infotable(Box::new(table)))
    }

    /// An INFOTABLE whose table has no fields and no rows and whose shape is
    /// called `EmptyDataShape`.
    pub fn infotable_empty() -> (r: Result<Self, PyAlwaysOnError>)
        ensures
            r is Ok && r->Ok_0@ == PrimView::Infotable(
                TableView {
                    name: Some("EmptyDataShape"@),
                    fields: Seq::<FieldView>::empty(),
                    rows: Seq::<Seq<PrimView>>::empty(),
                },
            ),
    {
        let table = PyInfoTable::new(Some(String::from_str("EmptyDataShape")));
        Ok(PyTwPrim::Infotable(Box::new(table)))
    }

    /// A VARIANT around `inner`: one layer of wrapping.
    pub fn variant(inner: PyTwPrim) -> (r: Result<Self, PyAlwaysOnError>)
        ensures
            r is Ok && r->Ok_0@ == PrimView::Variant(Box::new(inner@)),
    {
        Ok(PyTwPrim::Variant(Box::new(inner)))
    }

    pub fn nothing() -> (r: Result<Self, PyAlwaysOnError>)
        ensures
            r is Ok && r->Ok_0@ == PrimView::Nothing,
    {
        Ok(PyTwPrim::Nothing)
    }

    /// The value's own tag: VARIANT for a VARIANT, whatever it wraps.
    pub fn base_type(&self) -> (tag: PyBaseType)
        ensures
            tag == self@.tag(),
    {
        match self {
            PyTwPrim::Boolean(_) => PyBaseType::Boolean,
            PyTwPrim::Integer(_) => PyBaseType::Integer,
            PyTwPrim::Long(_) => PyBaseType::Long,
            PyTwPrim::Number(_) => PyBaseType::Number,
            PyTwPrim::String(_) => PyBaseType::String,
            PyTwPrim::Datetime(_) => PyBaseType::Datetime,
            PyTwPrim::Blob(_) => PyBaseType::Blob,
            PyTwPrim::Location(_) => PyBaseType::Location,
            PyTwPrim::Infotable(_) => PyBaseType::Infotable,
            PyTwPrim::Variant(_) => PyBaseType::Variant,
            PyTwPrim::Nothing => PyBaseType::Nothing,
        }
    }

    /// The name of the value's own tag.
    pub fn get_type(&self) -> (s: String)
        ensures
            s@ == self@.tag().name_text(),
    {
        String::from_str(self.base_type().name())
    }

    pub fn is_variant(&self) -> (r: bool)
        ensures
            r == (self@ is Variant),
    {
        match self {
            PyTwPrim::Variant(_) => true,
            _ => false,
        }
    }

    /// A copy of what a VARIANT wraps. Any other value is a `TypeMismatch`
    /// failure.
    pub fn unwrap_variant(&self) -> (r: Result<PyTwPrim, PyAlwaysOnError>)
        ensures
            match self@ {
                PrimView::Variant(inner) => r is Ok && r->Ok_0@ == *inner,
                _ => r is Err && r->Err_0.kind == ErrorKind::TypeMismatch && r->Err_0.message@
                    == "TwPrim is not a VARIANT type"@,
            },
    {
        match self {
            PyTwPrim::Variant(inner) => Ok(inner.duplicate()),
            _ => Err(
                PyAlwaysOnError::new(
                    ErrorKind::TypeMismatch,
                    String::from_str("TwPrim is not a VARIANT type"),
                ),
            ),
        }
    }

    /// The name of the tag one VARIANT layer down.
    pub fn get_inner_type(&self) -> (s: String)
        ensures
            s@ == self@.inner_tag().name_text(),
    {
        match self {
            PyTwPrim::Variant(inner) => inner.get_type(),
            _ => self.get_type(),
        }
    }

    /// The path of tags through all VARIANT layers, such as
    /// `VARIANT::VARIANT::INTEGER`.
    pub fn get_full_type(&self) -> (s: String)
        ensures
            s@ == self@.full_type_text(),
        decreases self,
    {
        match self {
            PyTwPrim::Variant(inner) => {
                let rest = inner.get_full_type();
                String::from_str("VARIANT::").concat(rest.as_str())
            },
            _ => self.get_type(),
        }
    }

    /// The payload as a host value. A LOCATION is an `UnsupportedType`
    /// failure.
    pub fn get_value(&self) -> (r: Result<NativeValue, PyAlwaysOnError>)
        ensures
            match self@.native() {
                Ok(value) => r is Ok && r->Ok_0@ == value,
                Err(kind) => r is Err && r->Err_0.kind == kind && r->Err_0.message@
                    == "Unsupported type for get_value"@,
            },
        decreases self,
    {
        match self {
            PyTwPrim::Boolean(b) => Ok(NativeValue::Boolean(*b)),
            PyTwPrim::Integer(i) => Ok(NativeValue::Integer(*i as i64)),
            PyTwPrim::Long(l) => Ok(NativeValue::Integer(*l)),
            PyTwPrim::Number(bits) => Ok(NativeValue::Float(*bits)),
            PyTwPrim::String(s) => Ok(NativeValue::Text(s.clone())),
            PyTwPrim::Datetime(d) => Ok(NativeValue::Integer(*d)),
            PyTwPrim::Blob(b) => Ok(NativeValue::Bytes(blob_to_vec(b))),
            PyTwPrim::Infotable(t) => Ok(NativeValue::Text(t.__str__())),
            PyTwPrim::Nothing => Ok(NativeValue::Absent),
            PyTwPrim::Variant(inner) => inner.get_value(),
            PyTwPrim::Location(_) => Err(
                PyAlwaysOnError::new(
                    ErrorKind::UnsupportedType,
                    String::from_str("Unsupported type for get_value"),
                ),
            ),
        }
    }

    /// A copy of the whole value, nested values included.
    pub fn duplicate(&self) -> (copy: Self)
        ensures
            copy@ == self@,
        decreases self,
    {
        match self {
            PyTwPrim::Boolean(b) => PyTwPrim::Boolean(*b),
            PyTwPrim::Integer(i) => PyTwPrim::Integer(*i),
            PyTwPrim::Long(l) => PyTwPrim::Long(*l),
            PyTwPrim::Number(bits) => PyTwPrim::Number(*bits),
            PyTwPrim::String(s) => PyTwPrim::String(s.clone()),
            PyTwPrim::Datetime(d) => PyTwPrim::Datetime(*d),
            PyTwPrim::Blob(b) => PyTwPrim::Blob(blob_from_vec(blob_to_vec(b))),
            PyTwPrim::Location(l) => PyTwPrim::Location(*l),
            PyTwPrim::Infotable(t) => PyTwPrim::Infotable(Box::new(t.duplicate())),
            PyTwPrim::Variant(inner) => PyTwPrim::Variant(Box::new(inner.duplicate())),
            PyTwPrim::Nothing => PyTwPrim::Nothing,
        }
    }
}

impl Clone for PyTwPrim {
    fn clone(&self) -> (copy: Self)
        ensures
            copy@ == self@,
    {
        self.duplicate()
    }
}

} // verus!
