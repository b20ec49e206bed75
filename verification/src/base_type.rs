//! The closed set of primitive kinds.

use vstd::prelude::*;
use vstd::string::StringExecFns;
use crate::error::{ErrorKind, PyAlwaysOnError};
use crate::text::str_equal;

verus! {

/// The kind of a primitive value.
#[derive(Clone, Copy, Debug, PartialEq, Eq, Hash, Structural)]
pub enum PyBaseType {
    Boolean,
    Integer,
    Long,
    Number,
    String,
    Datetime,
    Blob,
    Location,
    Infotable,
    Variant,
    Nothing,
}

/// What `str::to_uppercase` makes of a text: the text with every character
/// replaced by its Unicode upper-case mapping.
pub uninterp spec fn uppercase_of(s: Seq<char>) -> Seq<char>;

/// Calls `str::to_uppercase`. The result is a function of the characters
/// alone; the contract gives it its name and claims nothing else.
#[verifier::external_body]
fn uppercase(s: &str) -> (r: String)
    ensures
        r@ == uppercase_of(s@),
{
    s.to_uppercase()
}

impl PyBaseType {
    /// The protocol's name of the kind, in upper case.
    pub open spec fn name_text(self) -> Seq<char> {
        match self {
            PyBaseType::Boolean => "BOOLEAN"@,
            PyBaseType::Integer => "INTEGER"@,
            PyBaseType::Long => "LONG"@,
            PyBaseType::Number => "NUMBER"@,
            PyBaseType::String => "STRING"@,
            PyBaseType::Datetime => "DATETIME"@,
            PyBaseType::Blob => "BLOB"@,
            PyBaseType::Location => "LOCATION"@,
            PyBaseType::Infotable => "INFOTABLE"@,
            PyBaseType::Variant => "VARIANT"@,
            PyBaseType::Nothing => "NOTHING"@,
        }
    }

    /// The kind that an upper-case name stands for. NOTHING marks an absent
    /// value and cannot be asked for by name.
    pub open spec fn parse_upper(upper: Seq<char>) -> Option<PyBaseType> {
        if upper == "BOOLEAN"@ {
            Some(PyBaseType::Boolean)
        } else if upper == "INTEGER"@ {
            Some(PyBaseType::Integer)
        } else if upper == "LONG"@ {
            Some(PyBaseType::Long)
        } else if upper == "NUMBER"@ {
            Some(PyBaseType::Number)
        } else if upper == "STRING"@ {
            Some(PyBaseType::String)
        } else if upper == "DATETIME"@ {
            Some(PyBaseType::Datetime)
        } else if upper == "BLOB"@ {
            Some(PyBaseType::Blob)
        } else if upper == "LOCATION"@ {
            Some(PyBaseType::Location)
        } else if upper == "INFOTABLE"@ {
            Some(PyBaseType::Infotable)
        } else if upper == "VARIANT"@ {
            Some(PyBaseType::Variant)
        } else {
            None
        }
    }

    /// The message of the failure that an unknown type name gives.
    pub open spec fn invalid_name_text(kind_name: Seq<char>) -> Seq<char> {
        "Invalid base type: "@ + kind_name
    }

    pub fn name(&self) -> (r: &'static str)
        ensures
            r@ == self.name_text(),
    {
        match self {
            PyBaseType::Boolean => "BOOLEAN",
            PyBaseType::Integer => "INTEGER",
            PyBaseType::Long => "LONG",
            PyBaseType::Number => "NUMBER",
            PyBaseType::String => "STRING",
            PyBaseType::Datetime => "DATETIME",
            PyBaseType::Blob => "BLOB",
            PyBaseType::Location => "LOCATION",
            PyBaseType::Infotable => "INFOTABLE",
            PyBaseType::Variant => "VARIANT",
            PyBaseType::Nothing => "NOTHING",
        }
    }

    /// Reads a name that is already in upper case.
    pub fn from_upper_name(upper: &str) -> (r: Option<PyBaseType>)
        ensures
            r == Self::parse_upper(upper@),
    {
        if str_equal(upper, "BOOLEAN") {
            Some(PyBaseType::Boolean)
        } else if str_equal(upper, "INTEGER") {
            Some(PyBaseType::Integer)
        } else if str_equal(upper, "LONG") {
            Some(PyBaseType::Long)
        } else if str_equal(upper, "NUMBER") {
            Some(PyBaseType::Number)
        } else if str_equal(upper, "STRING") {
            Some(PyBaseType::String)
        } else if str_equal(upper, "DATETIME") {
            Some(PyBaseType::Datetime)
        } else if str_equal(upper, "BLOB") {
            Some(PyBaseType::Blob)
        } else if str_equal(upper, "LOCATION") {
            Some(PyBaseType::Location)
        } else if str_equal(upper, "INFOTABLE") {
            Some(PyBaseType::Infotable)
        } else if str_equal(upper, "VARIANT") {
            Some(PyBaseType::Variant)
        } else {
            None
        }
    }

    /// Reads a type name in any letter case. The name is put in upper case
    /// and then read; a name that stands for no kind is an `InvalidBaseType`
    /// failure whose message quotes the name as it was given.
    pub fn new(kind_name: &str) -> (r: Result<PyBaseType, PyAlwaysOnError>)
        ensures
            match Self::parse_upper(uppercase_of(kind_name@)) {
                Some(kind) => r == Ok::<PyBaseType, PyAlwaysOnError>(kind),
                None => r is Err && r->Err_0.kind == ErrorKind::InvalidBaseType
                    && r->Err_0.message@ == Self::invalid_name_text(kind_name@),
            },
    {
        let upper = uppercase(kind_name);
        match Self::from_upper_name(upper.as_str()) {
            Some(kind) => Ok(kind),
            None => Err(
                PyAlwaysOnError::with_detail(
                    ErrorKind::InvalidBaseType,
                    "Invalid base type: ",
                    kind_name,
                ),
            ),
        }
    }

    pub fn __str__(&self) -> (s: String)
        ensures
            s@ == self.name_text(),
    {
        String::from_str(self.name())
    }

    pub fn __repr__(&self) -> (s: String)
        ensures
            s@ == "BaseType."@ + self.name_text(),
    {
        String::from_str("BaseType.").concat(self.name())
    }
}

/// Every kind but NOTHING is read back from its own name.
pub proof fn lemma_name_reads_back(kind: PyBaseType)
    requires
        kind != PyBaseType::Nothing,
    ensures
        PyBaseType::parse_upper(kind.name_text()) == Some(kind),
{
    reveal_strlit("BOOLEAN");
    reveal_strlit("INTEGER");
    reveal_strlit("LONG");
    reveal_strlit("NUMBER");
    reveal_strlit("STRING");
    reveal_strlit("DATETIME");
    reveal_strlit("BLOB");
    reveal_strlit("LOCATION");
    reveal_strlit("INFOTABLE");
    reveal_strlit("VARIANT");
    let n = kind.name_text();
    assert("BOOLEAN"@[0] == 'B' && "BOOLEAN"@[1] == 'O' && "BOOLEAN"@.len() == 7);
    assert("INTEGER"@[0] == 'I' && "INTEGER"@[2] == 'T' && "INTEGER"@.len() == 7);
    assert("LONG"@[0] == 'L' && "LONG"@.len() == 4);
    assert("NUMBER"@[0] == 'N' && "NUMBER"@.len() == 6);
    assert("STRING"@[0] == 'S' && "STRING"@.len() == 6);
    assert("DATETIME"@[0] == 'D' && "DATETIME"@.len() == 8);
    assert("BLOB"@[0] == 'B' && "BLOB"@.len() == 4);
    assert("LOCATION"@[0] == 'L' && "LOCATION"@.len() == 8);
    assert("INFOTABLE"@[0] == 'I' && "INFOTABLE"@.len() == 9);
    assert("VARIANT"@[0] == 'V' && "VARIANT"@.len() == 7);
}

} // verus!
