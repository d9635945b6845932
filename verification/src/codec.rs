//! The boundary to the CoAP codec. Datagrams are decoded and encoded by the
//! `coap_lite` crate; what Verus is told of it stands here, and nowhere else.

use coap_lite::{CoapOption, CoapRequest, MessageType, Packet};
use vstd::prelude::*;

use crate::message::{
    fresh_response, response_view, Endpoint, Message, MessageKind, Method, Request, Response,
    ResponseView, MAX_TOKEN_LENGTH,
};

verus! {

/// The path that `coap_lite::CoapRequest::get_path` makes of the segments of
/// a request's path option. Nothing is said of it here but that it depends on
/// the segments alone.
pub uninterp spec fn uri_path(segments: Seq<Seq<u8>>) -> Seq<char>;

/// The datagram that `coap_lite::Packet::to_bytes` makes of a packet without
/// options that has this kind, code byte, identifier, token and payload, or
/// `None` where it refuses to encode the packet. Nothing is said of it here
/// but that it depends on these five alone.
pub uninterp spec fn coap_encoding(
    kind: MessageKind,
    code: u8,
    message_id: u16,
    token: Seq<u8>,
    payload: Seq<u8>,
) -> Option<Seq<u8>>;

/// The length of the token that the first byte of a datagram announces: its
/// lower four bits.
pub open spec fn token_length(datagram: Seq<u8>) -> int {
    datagram[0] as int % 16
}

/// The kind of message that the first byte of a datagram announces: its bits
/// four and five.
pub open spec fn kind_of(first: u8) -> MessageKind {
    let number = (first as int / 16) % 4;
    if number == 0 {
        MessageKind::Confirmable
    } else if number == 1 {
        MessageKind::NonConfirmable
    } else if number == 2 {
        MessageKind::Acknowledgement
    } else {
        MessageKind::Reset
    }
}

/// The datagram holds the four bytes of a header and, behind them, the token
/// that the header announces, of at most eight bytes.
pub open spec fn framed(datagram: Seq<u8>) -> bool {
    &&& datagram.len() >= 4
    &&& token_length(datagram) <= MAX_TOKEN_LENGTH
    &&& 4 + token_length(datagram) <= datagram.len()
}

/// The datagram is framed and holds no options: its token is followed by
/// nothing, or by the marker of the payload.
pub open spec fn bare(datagram: Seq<u8>) -> bool {
    &&& framed(datagram)
    &&& (datagram.len() == 4 + token_length(datagram) || datagram[4 + token_length(datagram)]
        == 0xFF)
}

/// What every message decoded from `datagram` has in common: the datagram is
/// framed, and the message has the kind, the code, the identifier and the
/// token of its header. The identifier is the third and fourth byte, the
/// higher one first.
pub open spec fn decodes_to(datagram: Seq<u8>, message: Message) -> bool {
    &&& framed(datagram)
    &&& message.kind == kind_of(datagram[0])
    &&& message.code == datagram[1]
    &&& message.message_id == datagram[2] * 256 + datagram[3]
    &&& message.token@ == datagram.subrange(4, 4 + token_length(datagram))
    &&& message.wf()
}

/// What a message decoded from a bare datagram holds besides its header: no
/// path, and as its payload what follows the marker.
pub open spec fn decodes_bare(datagram: Seq<u8>, message: Message) -> bool {
    &&& message.uri_path@.len() == 0
    &&& message.payload@ == if datagram.len() > 4 + token_length(datagram) {
        datagram.subrange(4 + token_length(datagram) + 1, datagram.len() as int)
    } else {
        Seq::empty()
    }
}

/// What is known of whatever the codec makes of a datagram. One that is not
/// framed is refused. A message carries what the header of its datagram
/// holds. A bare datagram always decodes, to a message without a path. Of a
/// framed datagram with options nothing more is known: whether it decodes,
/// and to which path and payload, is the codec's to say.
pub open spec fn decoding_of(datagram: Seq<u8>, decoded: Option<Message>) -> bool {
    &&& !framed(datagram) ==> decoded is None
    &&& decoded matches Some(message) ==> decodes_to(datagram, message)
    &&& bare(datagram) ==> (decoded matches Some(message) && decodes_bare(datagram, message))
}

/// Calls `coap_lite::Packet::from_bytes` and copies out of the packet what
/// the bridge reads. Trusted, as `decoding_of` says it: the call fails on a
/// datagram of fewer than four bytes, on a header that announces a token of
/// more than eight bytes, and on a datagram that ends before its token does;
/// a packet that it returns has the type, the code, the identifier and the
/// token of the header; and where the token is followed by nothing or by the
/// payload marker, the call succeeds with no options and with what follows
/// the marker as the payload. How options are read is left open: the codec
/// reads the two-byte extensions of option headers in the byte order of the
/// machine, so the same datagram need not decode alike everywhere.
#[verifier::external_body]
fn decode_packet(datagram: &[u8]) -> (decoded: Option<Message>)
    ensures
        decoding_of(datagram@, decoded),
{
    let packet = Packet::from_bytes(datagram).ok()?;
    let kind = match packet.header.get_type() {
        MessageType::Confirmable => MessageKind::Confirmable,
        MessageType::NonConfirmable => MessageKind::NonConfirmable,
        MessageType::Acknowledgement => MessageKind::Acknowledgement,
        MessageType::Reset => MessageKind::Reset,
    };
    let code = packet.header.code.into();
    let token = packet.get_token().to_vec();
    let segments = packet.get_option(CoapOption::UriPath);
    let uri_path = segments.into_iter().flatten().cloned().collect();
    Some(Message { kind, code, message_id: packet.header.message_id, token, uri_path, payload: packet.payload })
}

/// Calls `coap_lite::CoapRequest::get_path` on a request whose path option
/// holds `segments`, in their order. Trusted: the result is the path that the
/// codec makes of these segments.
#[verifier::external_body]
fn joined_path(segments: &Vec<Vec<u8>>) -> (path: String)
    ensures
        path@ == uri_path(segments.deep_view()),
{
    let mut packet = Packet::new();
    for segment in segments.iter() {
        packet.add_option(CoapOption::UriPath, segment.clone());
    }
    CoapRequest::from_packet(packet, ()).get_path()
}

/// Calls `coap_lite::Packet::to_bytes` on a packet without options that has
/// this kind, code byte, identifier, token and payload. Trusted: the result is
/// the encoding that the codec makes of them. A token of more than eight
/// bytes is kept out: the codec panics on one of sixteen.
#[verifier::external_body]
fn encode_packet(
    kind: MessageKind,
    code: u8,
    message_id: u16,
    token: &[u8],
    payload: &[u8],
) -> (datagram: Option<Vec<u8>>)
    requires
        token@.len() <= MAX_TOKEN_LENGTH,
    ensures
        datagram is Some == coap_encoding(kind, code, message_id, token@, payload@) is Some,
        datagram matches Some(bytes) ==> Some(bytes@) == coap_encoding(
            kind,
            code,
            message_id,
            token@,
            payload@,
        ),
{
    let mut packet = Packet::new();
    packet.header.set_type(match kind {
        MessageKind::Confirmable => MessageType::Confirmable,
        MessageKind::NonConfirmable => MessageType::NonConfirmable,
        MessageKind::Acknowledgement => MessageType::Acknowledgement,
        MessageKind::Reset => MessageType::Reset,
    });
    packet.header.code = code.into();
    packet.header.message_id = message_id;
    packet.set_token(token.to_vec());
    packet.payload = payload.to_vec();
    packet.to_bytes().ok()
}

/// Decodes a datagram. `None` is a datagram that the codec refuses: one that
/// is not framed always is, and a bare one never.
pub fn decode(datagram: &[u8]) -> (decoded: Option<Message>)
    ensures
        decoding_of(datagram@, decoded),
{
    decode_packet(datagram)
}

/// The request that a message stands for, as a mathematical value: its
/// method by the code, its path as the codec joins the segments, its payload,
/// and the response that it starts out with.
pub open spec fn request_of(message: Message, source: Endpoint, request: Request) -> bool {
    &&& request.method == Method::of_code(message.code)
    &&& request.path@ == uri_path(message.uri_path.deep_view())
    &&& request.payload@ == message.payload@
    &&& request.source == source
    &&& response_view(request.response) == fresh_response(
        message.kind,
        message.message_id,
        message.token@,
    )
}

/// Makes the request that a decoded message stands for.
pub fn request_from(message: Message, source: Endpoint) -> (request: Request)
    ensures
        request_of(message, source, request),
{
    let method = Method::from_code(message.code);
    let path = joined_path(&message.uri_path);
    let response = Response::reply_to(message.kind, message.message_id, message.token);
    Request { method, path, payload: message.payload, source, response }
}

/// The datagram that the codec makes of a response, or `None` where it
/// refuses to encode it.
pub open spec fn encoded(response: ResponseView) -> Option<Seq<u8>> {
    coap_encoding(
        response.kind,
        response.status.code_of(),
        response.message_id,
        response.token,
        response.payload,
    )
}

/// Encodes a response.
pub fn encode(response: &Response) -> (datagram: Option<Vec<u8>>)
    requires
        response.wf(),
    ensures
        datagram is Some == encoded(response@) is Some,
        datagram matches Some(bytes) ==> Some(bytes@) == encoded(response@),
{
    encode_packet(
        response.kind,
        response.status.code(),
        response.message_id,
        response.token.as_slice(),
        response.payload.as_slice(),
    )
}

} // verus!
