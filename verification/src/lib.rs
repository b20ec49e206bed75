//! Value and message model of the ThingWorx AlwaysOn protocol.
//!
//! The crate holds the in-process data model: the closed set of base types,
//! the tagged primitive value, the ordered data shape, the info table that is
//! built row by row from untyped records, the depth-bounded projection of
//! nested values into a JSON tree, and the message envelope.
//!
//! Floating-point payloads are carried as the bit patterns of their IEEE 754
//! doubles. Encoding values to bytes and writing a JSON tree as text are
//! left to the caller.

pub mod base_type;
pub mod blob;
pub mod datashape;
pub mod entities;
pub mod error;
pub mod infotable;
pub mod json;
pub mod message;
pub mod native;
pub mod primitive;
pub mod projection;
pub mod row;
pub mod text;

pub use base_type::PyBaseType;
pub use entities::{PyTwxEvent, PyTwxProperty, PyTwxService};
pub use error::{ErrorKind, PyAlwaysOnError};
pub use infotable::PyInfoTable;
pub use json::JsonNode;
pub use message::{MessageHeader, MessageKind, PyTwxMessage};
pub use native::{NativeValue, Record};
pub use primitive::PyTwPrim;
