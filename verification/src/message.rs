//! The message envelope: the classification of a protocol frame and the
//! header fields that every frame carries.

use vstd::prelude::*;
use vstd::string::StringExecFns;
use crate::error::PyAlwaysOnError;
use crate::text::{decimal_digits, decimal_text};

verus! {

/// The four kinds of frame.
#[derive(Clone, Copy, Debug, PartialEq, Eq, Hash, Structural)]
pub enum MessageKind {
    Request,
    Response,
    Auth,
    Bind,
}

/// The routing fields that every frame carries.
#[derive(Clone, Copy, Debug, PartialEq, Eq, Hash, Structural)]
pub struct MessageHeader {
    pub request_id: u32,
    pub session_id: u32,
    pub endpoint: u32,
}

/// A frame: its header and what it carries. A request, a response and a bind
/// carry their body as bytes that this model does not look into; an
/// authentication carries the application key.
#[derive(Clone, Debug, PartialEq, Eq)]
pub enum PyTwxMessage {
    Request(MessageHeader, Vec<u8>),
    Response(MessageHeader, Vec<u8>),
    Auth(MessageHeader, String),
    Bind(MessageHeader, Vec<u8>),
}

impl MessageKind {
    /// The name of the kind.
    pub open spec fn name_text(self) -> Seq<char> {
        match self {
            MessageKind::Request => "Request"@,
            MessageKind::Response => "Response"@,
            MessageKind::Auth => "Auth"@,
            MessageKind::Bind => "Bind"@,
        }
    }

    pub fn name(&self) -> (s: &'static str)
        ensures
            s@ == self.name_text(),
    {
        match self {
            MessageKind::Request => "Request",
            MessageKind::Response => "Response",
            MessageKind::Auth => "Auth",
            MessageKind::Bind => "Bind",
        }
    }
}

impl PyTwxMessage {
    /// The kind of the frame.
    pub open spec fn kind(&self) -> MessageKind {
        match self {
            PyTwxMessage::Request(_, _) => MessageKind::Request,
            PyTwxMessage::Response(_, _) => MessageKind::Response,
            PyTwxMessage::Auth(_, _) => MessageKind::Auth,
            PyTwxMessage::Bind(_, _) => MessageKind::Bind,
        }
    }

    /// The header of the frame.
    pub open spec fn header(&self) -> MessageHeader {
        match self {
            PyTwxMessage::Request(h, _) => *h,
            PyTwxMessage::Response(h, _) => *h,
            PyTwxMessage::Auth(h, _) => *h,
            PyTwxMessage::Bind(h, _) => *h,
        }
    }

    /// The one-line summary of a frame: the name of its kind and its header
    /// fields.
    pub open spec fn description_text(kind: MessageKind, header: MessageHeader) -> Seq<char> {
        kind.name_text() + "(request_id="@ + decimal_digits(header.request_id as nat)
            + ", session_id="@ + decimal_digits(header.session_id as nat) + ", endpoint="@
            + decimal_digits(header.endpoint as nat) + ")"@
    }

    pub fn classify(&self) -> (kind: MessageKind)
        ensures
            kind == self.kind(),
    {
        match self {
            PyTwxMessage::Request(_, _) => MessageKind::Request,
            PyTwxMessage::Response(_, _) => MessageKind::Response,
            PyTwxMessage::Auth(_, _) => MessageKind::Auth,
            PyTwxMessage::Bind(_, _) => MessageKind::Bind,
        }
    }

    /// The header fields of the frame.
    pub fn get_header(&self) -> (header: MessageHeader)
        ensures
            header == self.header(),
    {
        match self {
            PyTwxMessage::Request(h, _) => *h,
            PyTwxMessage::Response(h, _) => *h,
            PyTwxMessage::Auth(h, _) => *h,
            PyTwxMessage::Bind(h, _) => *h,
        }
    }

    pub fn get_message_type(&self) -> (s: String)
        ensures
            s@ == self.kind().name_text(),
    {
        String::from_str(self.classify().name())
    }

    pub fn get_request_id(&self) -> (id: u32)
        ensures
            id == self.header().request_id,
    {
        self.get_header().request_id
    }

    pub fn get_session_id(&self) -> (id: u32)
        ensures
            id == self.header().session_id,
    {
        self.get_header().session_id
    }

    pub fn get_endpoint(&self) -> (id: u32)
        ensures
            id == self.header().endpoint,
    {
        self.get_header().endpoint
    }

    pub fn is_request(&self) -> (r: bool)
        ensures
            r == (self.kind() == MessageKind::Request),
    {
        match self {
            PyTwxMessage::Request(_, _) => true,
            _ => false,
        }
    }

    pub fn is_response(&self) -> (r: bool)
        ensures
            r == (self.kind() == MessageKind::Response),
    {
        match self {
            PyTwxMessage::Response(_, _) => true,
            _ => false,
        }
    }

    pub fn is_auth(&self) -> (r: bool)
        ensures
            r == (self.kind() == MessageKind::Auth),
    {
        match self {
            PyTwxMessage::Auth(_, _) => true,
            _ => false,
        }
    }

    pub fn is_bind(&self) -> (r: bool)
        ensures
            r == (self.kind() == MessageKind::Bind),
    {
        match self {
            PyTwxMessage::Bind(_, _) => true,
            _ => false,
        }
    }

    pub fn short_description(&self) -> (s: String)
        ensures
            s@ == Self::description_text(self.kind(), self.header()),
    {
        let header = self.get_header();
        String::from_str(self.classify().name()).concat("(request_id=").concat(
            decimal_text(header.request_id as u64).as_str(),
        ).concat(", session_id=").concat(decimal_text(header.session_id as u64).as_str()).concat(
            ", endpoint=",
        ).concat(decimal_text(header.endpoint as u64).as_str()).concat(")")
    }

    /// The frame that opens the handshake: an authentication with the given
    /// request id and application key. No session has been set up yet and no
    /// endpoint is addressed: both header fields are 0.
    pub fn build_auth(request_id: u32, app_key: String) -> (r: Result<Self, PyAlwaysOnError>)
        ensures
            r == Ok::<Self, PyAlwaysOnError>(
                PyTwxMessage::Auth(MessageHeader { request_id, session_id: 0, endpoint: 0 }, app_key),
            ),
    {
        Ok(PyTwxMessage::Auth(MessageHeader { request_id, session_id: 0, endpoint: 0 }, app_key))
    }

    pub fn __str__(&self) -> (s: String)
        ensures
            s@ == Self::description_text(self.kind(), self.header()),
    {
        self.short_description()
    }

    pub fn __repr__(&self) -> (s: String)
        ensures
            s@ == "TwxMessage("@ + self.kind().name_text() + ")"@,
    {
        String::from_str("TwxMessage(").concat(self.classify().name()).concat(")")
    }
}

} // verus!
