//! The failures that the model reports.

use vstd::prelude::*;
use vstd::string::StringExecFns;

verus! {

/// The class of a failure.
#[derive(Clone, Copy, Debug, PartialEq, Eq, Structural)]
pub enum ErrorKind {
    /// A type name that names no base type.
    InvalidBaseType,
    /// A native value that does not fit the width of the target payload.
    ValueOutOfRange,
    /// An operation met a value of another tag than the one it expects.
    TypeMismatch,
    /// A tag for which the requested operation has no conversion.
    UnsupportedType,
    /// A record that lacks a field that the data shape declares.
    MissingField,
    /// A declared field type that rows cannot be built for.
    UnsupportedFieldType,
    /// A NUMBER that holds NaN or an infinity.
    NonFiniteNumber,
    /// A failure handed on from the wire codec.
    DecodeError,
}

/// A failure: its class and a message for people.
#[derive(Clone, Debug, PartialEq, Eq)]
pub struct PyAlwaysOnError {
    pub kind: ErrorKind,
    pub message: String,
}

impl PyAlwaysOnError {
    /// The text that `__repr__` gives for a message.
    pub open spec fn repr_text(message: Seq<char>) -> Seq<char> {
        "AlwaysOnError('"@ + message + "')"@
    }

    pub fn new(kind: ErrorKind, message: String) -> (e: Self)
        ensures
            e.kind == kind,
            e.message == message,
    {
        PyAlwaysOnError { kind, message }
    }

    /// A failure whose message is `prefix` followed by `detail`.
    pub fn with_detail(kind: ErrorKind, prefix: &str, detail: &str) -> (e: Self)
        ensures
            e.kind == kind,
            e.message@ == prefix@ + detail@,
    {
        let message = String::from_str(prefix).concat(detail);
        PyAlwaysOnError { kind, message }
    }

    /// A failure of the wire codec: the message names what was being done
    /// and carries the codec's own words after it.
    pub fn decode_error(context: &str, cause: &str) -> (e: Self)
        ensures
            e.kind == ErrorKind::DecodeError,
            e.message@ == context@ + ": "@ + cause@,
    {
        let message = String::from_str(context).concat(": ").concat(cause);
        PyAlwaysOnError { kind: ErrorKind::DecodeError, message }
    }

    pub fn kind(&self) -> (k: ErrorKind)
        ensures
            k == self.kind,
    {
        self.kind
    }

    pub fn __str__(&self) -> (s: String)
        ensures
            s@ == self.message@,
    {
        self.message.clone()
    }

    pub fn __repr__(&self) -> (s: String)
        ensures
            s@ == Self::repr_text(self.message@),
    {
        String::from_str("AlwaysOnError('").concat(self.message.as_str()).concat("')")
    }
}

} // verus!
