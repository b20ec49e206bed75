//! The named entities of a thing: events, services and properties.
//!
//! An entity arrives as JSON text in UTF-8. This module checks the bytes and
//! holds what the model reads of an entity once the text has been parsed.

use vstd::prelude::*;
use vstd::string::StringExecFns;
use vstd::utf8::{encode_utf8, valid_utf8};
use crate::base_type::PyBaseType;
use crate::error::{ErrorKind, PyAlwaysOnError};

verus! {

/// Calls `std::str::from_utf8` and copies the text it gives. There is a text
/// exactly where the bytes are valid UTF-8, and the bytes are its encoding.
#[verifier::external_body]
fn utf8_text(data: &[u8]) -> (r: Option<String>)
    ensures
        r is Some <==> valid_utf8(data@),
        r is Some ==> encode_utf8(r->Some_0@) == data@,
{
    match std::str::from_utf8(data) {
        Ok(text) => Some(text.to_string()),
        Err(_) => None,
    }
}

/// The message of the failure that bytes which are no UTF-8 give.
pub open spec fn not_utf8_text(label: Seq<char>) -> Seq<char> {
    label + " data is not valid UTF-8 JSON"@
}

/// The JSON text that the bytes of an entity hold. Bytes that are not valid
/// UTF-8 are a `DecodeError` failure that names the kind of entity.
pub fn entity_text(data: &[u8], label: &str) -> (r: Result<String, PyAlwaysOnError>)
    ensures
        valid_utf8(data@) ==> r is Ok && encode_utf8(r->Ok_0@) == data@,
        !valid_utf8(data@) ==> r is Err && r->Err_0.kind == ErrorKind::DecodeError
            && r->Err_0.message@ == not_utf8_text(label@),
{
    match utf8_text(data) {
        Some(text) => Ok(text),
        None => Err(
            PyAlwaysOnError::with_detail(
                ErrorKind::DecodeError,
                label,
                " data is not valid UTF-8 JSON",
            ),
        ),
    }
}

/// The text that describes an event or a service.
pub open spec fn named_text(label: Seq<char>, name: Seq<char>, description: Seq<char>) -> Seq<
    char,
> {
    label + "(name='"@ + name + "', description='"@ + description + "')"@
}

fn named_description(label: &str, name: &str, description: &str) -> (s: String)
    ensures
        s@ == named_text(label@, name@, description@),
{
    String::from_str(label).concat("(name='").concat(name).concat("', description='").concat(
        description,
    ).concat("')")
}

/// An event that a thing can fire.
#[derive(Clone, Debug, PartialEq, Eq)]
pub struct PyTwxEvent {
    pub name: String,
    pub description: String,
}

impl PyTwxEvent {
    pub fn new(name: String, description: String) -> (event: Self)
        ensures
            event.name == name,
            event.description == description,
    {
        PyTwxEvent { name, description }
    }

    /// The JSON text of an event that arrived as bytes.
    pub fn text_from_bytes(data: &[u8]) -> (r: Result<String, PyAlwaysOnError>)
        ensures
            valid_utf8(data@) ==> r is Ok && encode_utf8(r->Ok_0@) == data@,
            !valid_utf8(data@) ==> r is Err && r->Err_0.kind == ErrorKind::DecodeError
                && r->Err_0.message@ == not_utf8_text("Event"@),
    {
        entity_text(data, "Event")
    }

    pub fn get_name(&self) -> (s: String)
        ensures
            s@ == self.name@,
    {
        self.name.clone()
    }

    pub fn get_description(&self) -> (s: String)
        ensures
            s@ == self.description@,
    {
        self.description.clone()
    }

    pub fn __str__(&self) -> (s: String)
        ensures
            s@ == named_text("TwxEvent"@, self.name@, self.description@),
    {
        named_description("TwxEvent", self.name.as_str(), self.description.as_str())
    }

    pub fn __repr__(&self) -> (s: String)
        ensures
            s@ == named_text("TwxEvent"@, self.name@, self.description@),
    {
        self.__str__()
    }
}

/// A service that a thing offers.
#[derive(Clone, Debug, PartialEq, Eq)]
pub struct PyTwxService {
    pub name: String,
    pub description: String,
}

impl PyTwxService {
    pub fn new(name: String, description: String) -> (service: Self)
        ensures
            service.name == name,
            service.description == description,
    {
        PyTwxService { name, description }
    }

    /// The JSON text of a service that arrived as bytes.
    pub fn text_from_bytes(data: &[u8]) -> (r: Result<String, PyAlwaysOnError>)
        ensures
            valid_utf8(data@) ==> r is Ok && encode_utf8(r->Ok_0@) == data@,
            !valid_utf8(data@) ==> r is Err && r->Err_0.kind == ErrorKind::DecodeError
                && r->Err_0.message@ == not_utf8_text("Service"@),
    {
        entity_text(data, "Service")
    }

    pub fn get_name(&self) -> (s: String)
        ensures
            s@ == self.name@,
    {
        self.name.clone()
    }

    pub fn get_description(&self) -> (s: String)
        ensures
            s@ == self.description@,
    {
        self.description.clone()
    }

    pub fn __str__(&self) -> (s: String)
        ensures
            s@ == named_text("TwxService"@, self.name@, self.description@),
    {
        named_description("TwxService", self.name.as_str(), self.description.as_str())
    }

    pub fn __repr__(&self) -> (s: String)
        ensures
            s@ == named_text("TwxService"@, self.name@, self.description@),
    {
        self.__str__()
    }
}

/// A property of a thing. The push threshold is a NUMBER, kept as the bit
/// pattern of its IEEE 754 double.
#[derive(Clone, Debug, PartialEq, Eq)]
pub struct PyTwxProperty {
    pub name: String,
    pub basetype: PyBaseType,
    pub push_threshold: u64,
}

impl PyTwxProperty {
    pub fn new(name: String, basetype: PyBaseType, push_threshold: u64) -> (property: Self)
        ensures
            property.name == name,
            property.basetype == basetype,
            property.push_threshold == push_threshold,
    {
        PyTwxProperty { name, basetype, push_threshold }
    }

    /// The JSON text of a property that arrived as bytes.
    pub fn text_from_bytes(data: &[u8]) -> (r: Result<String, PyAlwaysOnError>)
        ensures
            valid_utf8(data@) ==> r is Ok && encode_utf8(r->Ok_0@) == data@,
            !valid_utf8(data@) ==> r is Err && r->Err_0.kind == ErrorKind::DecodeError
                && r->Err_0.message@ == not_utf8_text("Property"@),
    {
        entity_text(data, "Property")
    }

    pub fn get_name(&self) -> (s: String)
        ensures
            s@ == self.name@,
    {
        self.name.clone()
    }

    pub fn get_base_type(&self) -> (s: String)
        ensures
            s@ == self.basetype.name_text(),
    {
        self.basetype.__str__()
    }

    /// The bit pattern of the push threshold.
    pub fn get_push_threshold(&self) -> (bits: u64)
        ensures
            bits == self.push_threshold,
    {
        self.push_threshold
    }
}

} // verus!
