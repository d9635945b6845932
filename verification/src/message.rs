//! The values that travel between the network and the serial line: decoded
//! messages, requests, and the responses made for them.

use vstd::prelude::*;

verus! {

/// The four kinds of message of the protocol.
#[derive(Clone, Copy, Debug, PartialEq, Eq, Structural)]
pub enum MessageKind {
    /// A message that asks to be acknowledged.
    Confirmable,
    /// A message that does not.
    NonConfirmable,
    /// The acknowledgement of a confirmable message.
    Acknowledgement,
    /// The refusal of a message.
    Reset,
}

/// What the bridge reads of a decoded datagram.
#[derive(Clone, Debug, PartialEq, Eq)]
pub struct Message {
    pub kind: MessageKind,
    /// The code byte: the class in the upper three bits, the detail below.
    pub code: u8,
    pub message_id: u16,
    pub token: Vec<u8>,
    /// The segments of the path, in the order of the datagram.
    pub uri_path: Vec<Vec<u8>>,
    pub payload: Vec<u8>,
}

impl Message {
    /// The token fits a header.
    pub open spec fn wf(&self) -> bool {
        self.token@.len() <= MAX_TOKEN_LENGTH
    }
}

/// The methods that the bridge tells apart.
#[derive(Clone, Copy, Debug, PartialEq, Eq, Structural)]
pub enum Method {
    Get,
    Post,
    /// Any other code, whether it names a method or not.
    Other,
}

impl Method {
    /// The method that a code byte stands for: 0.01 is GET, 0.02 is POST.
    pub open spec fn of_code(code: u8) -> Method {
        if code == 1 {
            Method::Get
        } else if code == 2 {
            Method::Post
        } else {
            Method::Other
        }
    }

    /// The method that a code byte stands for.
    pub fn from_code(code: u8) -> (method: Method)
        ensures
            method == Method::of_code(code),
    {
        if code == 1 {
            Method::Get
        } else if code == 2 {
            Method::Post
        } else {
            Method::Other
        }
    }
}

/// The statuses that the bridge answers with.
#[derive(Clone, Copy, Debug, PartialEq, Eq, Structural)]
pub enum Status {
    /// 2.05: the request was carried out.
    Content,
    /// 4.00: the request cannot be carried out as it stands.
    BadRequest,
    /// 4.04: there is no such path.
    NotFound,
    /// 4.05: the path does not take this method.
    MethodNotAllowed,
    /// 5.00: the serial port failed.
    InternalServerError,
}

impl Status {
    /// The class of the status: 2 for success, 4 for a fault of the client,
    /// 5 for a fault of the bridge.
    pub open spec fn class_of(self) -> u8 {
        match self {
            Status::Content => 2,
            Status::BadRequest | Status::NotFound | Status::MethodNotAllowed => 4,
            Status::InternalServerError => 5,
        }
    }

    /// The detail of the status within its class.
    pub open spec fn detail_of(self) -> u8 {
        match self {
            Status::Content => 5,
            Status::BadRequest => 0,
            Status::NotFound => 4,
            Status::MethodNotAllowed => 5,
            Status::InternalServerError => 0,
        }
    }

    /// The code byte of the status: the class times 32, plus the detail.
    pub open spec fn code_of(self) -> u8 {
        (self.class_of() * 32 + self.detail_of()) as u8
    }

    /// The class of the status.
    pub fn class(&self) -> (class: u8)
        ensures
            class == self.class_of(),
    {
        match self {
            Status::Content => 2,
            Status::BadRequest => 4,
            Status::NotFound => 4,
            Status::MethodNotAllowed => 4,
            Status::InternalServerError => 5,
        }
    }

    /// The code byte of the status.
    pub fn code(&self) -> (code: u8)
        ensures
            code == self.code_of(),
    {
        match self {
            Status::Content => 0x45,
            Status::BadRequest => 0x80,
            Status::NotFound => 0x84,
            Status::MethodNotAllowed => 0x85,
            Status::InternalServerError => 0xA0,
        }
    }
}

/// A network address.
#[derive(Clone, Copy, Debug, PartialEq, Eq)]
pub enum Address {
    V4([u8; 4]),
    V6([u8; 16]),
}

/// Where a datagram came from, and where the answer to it goes.
#[derive(Clone, Copy, Debug, PartialEq, Eq)]
pub struct Endpoint {
    pub address: Address,
    pub port: u16,
}

/// The answer to a request.
#[derive(Clone, Debug, PartialEq, Eq)]
pub struct Response {
    pub kind: MessageKind,
    pub message_id: u16,
    pub token: Vec<u8>,
    pub status: Status,
    pub payload: Vec<u8>,
}

/// A response as a mathematical value.
pub struct ResponseView {
    pub kind: MessageKind,
    pub message_id: u16,
    pub token: Seq<u8>,
    pub status: Status,
    pub payload: Seq<u8>,
}

impl View for Response {
    type V = ResponseView;

    open spec fn view(&self) -> ResponseView {
        ResponseView {
            kind: self.kind,
            message_id: self.message_id,
            token: self.token@,
            status: self.status,
            payload: self.payload@,
        }
    }
}

impl ResponseView {
    /// The same response with another status and another payload.
    pub open spec fn filled(self, status: Status, payload: Seq<u8>) -> ResponseView {
        ResponseView { status, payload, ..self }
    }
}

/// The most bytes that a token may have.
pub const MAX_TOKEN_LENGTH: usize = 8;

/// The kind of the answer to a message of kind `kind`: a confirmable message
/// is acknowledged, a non-confirmable one is answered in kind, and the other
/// two are not answered.
pub open spec fn reply_kind(kind: MessageKind) -> Option<MessageKind> {
    match kind {
        MessageKind::Confirmable => Some(MessageKind::Acknowledgement),
        MessageKind::NonConfirmable => Some(MessageKind::NonConfirmable),
        _ => None,
    }
}

/// The response that a message with these header fields starts out with:
/// of the answering kind, with the identifier and the token of the message,
/// the status of success and no payload.
pub open spec fn fresh_response(kind: MessageKind, message_id: u16, token: Seq<u8>) -> Option<
    ResponseView,
> {
    match reply_kind(kind) {
        Some(answering) => Some(
            ResponseView {
                kind: answering,
                message_id,
                token,
                status: Status::Content,
                payload: Seq::empty(),
            },
        ),
        None => None,
    }
}

impl Response {
    /// The token fits a header.
    pub open spec fn wf(&self) -> bool {
        self.token@.len() <= MAX_TOKEN_LENGTH
    }

    /// The response that a message with these header fields starts out with,
    /// if messages of its kind are answered at all.
    pub fn reply_to(kind: MessageKind, message_id: u16, token: Vec<u8>) -> (response: Option<
        Response,
    >)
        ensures
            response.is_some() == fresh_response(kind, message_id, token@).is_some(),
            response matches Some(r) ==> Some(r@) == fresh_response(kind, message_id, token@),
    {
        let answering = match kind {
            MessageKind::Confirmable => MessageKind::Acknowledgement,
            MessageKind::NonConfirmable => MessageKind::NonConfirmable,
            _ => { return None; },
        };
        Some(
            Response {
                kind: answering,
                message_id,
                token,
                status: Status::Content,
                payload: Vec::new(),
            },
        )
    }

    /// Gives the response its status and its payload.
    pub fn fill(self, status: Status, payload: Vec<u8>) -> (response: Response)
        ensures
            response@ == self@.filled(status, payload@),
    {
        Response { kind: self.kind, message_id: self.message_id, token: self.token, status, payload }
    }
}

/// A request, as the router takes it.
#[derive(Clone, Debug, PartialEq, Eq)]
pub struct Request {
    pub method: Method,
    pub path: String,
    pub payload: Vec<u8>,
    pub source: Endpoint,
    /// The response to fill in, or nothing if the request is not to be
    /// answered.
    pub response: Option<Response>,
}

/// The view of a response that may be missing.
pub open spec fn response_view(response: Option<Response>) -> Option<ResponseView> {
    match response {
        Some(r) => Some(r@),
        None => None,
    }
}

} // verus!
