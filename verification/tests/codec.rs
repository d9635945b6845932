use coap_lite::{CoapOption, MessageClass, MessageType, Packet, RequestType, ResponseType};
use uart_bridge::codec::{decode, encode, request_from};
use uart_bridge::message::{
    Address, Endpoint, Message, MessageKind, Method, Response, Status, MAX_TOKEN_LENGTH,
};

fn origin() -> Endpoint {
    Endpoint { address: Address::V4([10, 0, 0, 2]), port: 5683 }
}

fn datagram(kind: MessageType, code: MessageClass, segments: &[&[u8]], payload: &[u8]) -> Vec<u8> {
    let mut packet = Packet::new();
    packet.header.set_type(kind);
    packet.header.code = code;
    packet.header.message_id = 0x0102;
    packet.set_token(vec![0x11, 0x22, 0x33]);
    for segment in segments {
        packet.add_option(CoapOption::UriPath, segment.to_vec());
    }
    packet.payload = payload.to_vec();
    packet.to_bytes().unwrap()
}

#[test]
fn decode_reads_header_path_and_payload() {
    let bytes = datagram(
        MessageType::NonConfirmable,
        MessageClass::Request(RequestType::Post),
        &[b"uart"],
        &[1, 2, 3],
    );
    let message = decode(&bytes).unwrap();
    assert_eq!(
        message,
        Message {
            kind: MessageKind::NonConfirmable,
            code: 2,
            message_id: 0x0102,
            token: vec![0x11, 0x22, 0x33],
            uri_path: vec![b"uart".to_vec()],
            payload: vec![1, 2, 3],
        }
    );
    assert_eq!(message.code, bytes[1]);
}

#[test]
fn decode_of_handwritten_get_uart() {
    let bytes = [0x40, 0x01, 0x12, 0x34, 0xB4, b'u', b'a', b'r', b't'];
    let message = decode(&bytes).unwrap();
    assert_eq!(message.kind, MessageKind::Confirmable);
    assert_eq!(message.code, 1);
    assert_eq!(message.message_id, 0x1234);
    assert_eq!(message.token, Vec::<u8>::new());
    assert_eq!(message.uri_path, vec![b"uart".to_vec()]);
    assert_eq!(message.payload, Vec::<u8>::new());
}

#[test]
fn decode_keeps_segments_in_order() {
    let bytes = datagram(
        MessageType::Confirmable,
        MessageClass::Request(RequestType::Get),
        &[b"a", b"bc", b""],
        &[],
    );
    let message = decode(&bytes).unwrap();
    assert_eq!(message.uri_path, vec![b"a".to_vec(), b"bc".to_vec(), b"".to_vec()]);
}

#[test]
fn decode_refuses_short_datagrams() {
    assert_eq!(decode(&[]), None);
    assert_eq!(decode(&[0x40]), None);
    assert_eq!(decode(&[0x40, 0x01, 0x00]), None);
    assert_eq!(decode(&[0xde, 0xad, 0xbe]), None);
}

#[test]
fn decode_refuses_overlong_token() {
    let mut bytes = vec![0x49, 0x01, 0x00, 0x01];
    bytes.extend_from_slice(&[0u8; 9]);
    assert_eq!(decode(&bytes), None);
}

#[test]
fn decode_refuses_truncated_option() {
    assert_eq!(decode(&[0x40, 0x01, 0x00, 0x01, 0xB4, b'u', b'a']), None);
}

#[test]
fn decoded_token_is_at_most_eight_bytes() {
    let mut bytes = vec![0x48, 0x01, 0x00, 0x01];
    bytes.extend_from_slice(&[7u8; 8]);
    let message = decode(&bytes).unwrap();
    assert_eq!(message.token.len(), MAX_TOKEN_LENGTH);
}

#[test]
fn request_from_joins_the_path() {
    let bytes = datagram(
        MessageType::Confirmable,
        MessageClass::Request(RequestType::Get),
        &[b"uart", b"version"],
        &[],
    );
    let request = request_from(decode(&bytes).unwrap(), origin());
    assert_eq!(request.method, Method::Get);
    assert_eq!(request.path, "uart/version");
    assert_eq!(request.source, origin());
}

#[test]
fn request_from_skips_segments_that_are_not_text() {
    let bytes = datagram(
        MessageType::Confirmable,
        MessageClass::Request(RequestType::Get),
        &[&[0xff, 0xfe], b"uart"],
        &[],
    );
    let request = request_from(decode(&bytes).unwrap(), origin());
    assert_eq!(request.path, "uart");
}

#[test]
fn request_from_without_path_has_empty_path() {
    let bytes =
        datagram(MessageType::Confirmable, MessageClass::Request(RequestType::Get), &[], &[]);
    let request = request_from(decode(&bytes).unwrap(), origin());
    assert_eq!(request.path, "");
}

#[test]
fn request_from_maps_codes_to_methods() {
    for (code, method) in [
        (MessageClass::Request(RequestType::Get), Method::Get),
        (MessageClass::Request(RequestType::Post), Method::Post),
        (MessageClass::Request(RequestType::Put), Method::Other),
        (MessageClass::Request(RequestType::Delete), Method::Other),
        (MessageClass::Empty, Method::Other),
        (MessageClass::Response(ResponseType::Content), Method::Other),
    ] {
        let bytes = datagram(MessageType::Confirmable, code, &[b"uart"], &[]);
        let request = request_from(decode(&bytes).unwrap(), origin());
        assert_eq!(request.method, method);
    }
}

#[test]
fn request_from_prepares_the_response_as_the_codec_does() {
    for kind in [
        MessageType::Confirmable,
        MessageType::NonConfirmable,
        MessageType::Acknowledgement,
        MessageType::Reset,
    ] {
        let bytes = datagram(kind, MessageClass::Request(RequestType::Get), &[b"uart"], &[9]);
        let packet = Packet::from_bytes(&bytes).unwrap();
        let theirs = coap_lite::CoapRequest::from_packet(packet, ()).response;
        let ours = request_from(decode(&bytes).unwrap(), origin()).response;
        assert_eq!(ours.is_some(), theirs.is_some());
        if let (Some(ours), Some(theirs)) = (ours, theirs) {
            assert_eq!(encode(&ours).unwrap(), theirs.message.to_bytes().unwrap());
            assert_eq!(ours.status, Status::Content);
            assert_eq!(ours.payload, Vec::<u8>::new());
            assert_eq!(ours.message_id, 0x0102);
            assert_eq!(ours.token, vec![0x11, 0x22, 0x33]);
        }
    }
}

#[test]
fn reply_kinds_follow_the_request() {
    assert_eq!(
        Response::reply_to(MessageKind::Confirmable, 1, vec![]).unwrap().kind,
        MessageKind::Acknowledgement
    );
    assert_eq!(
        Response::reply_to(MessageKind::NonConfirmable, 1, vec![]).unwrap().kind,
        MessageKind::NonConfirmable
    );
    assert_eq!(Response::reply_to(MessageKind::Acknowledgement, 1, vec![]), None);
    assert_eq!(Response::reply_to(MessageKind::Reset, 1, vec![]), None);
}

#[test]
fn encode_gives_the_exact_bytes() {
    let response = Response {
        kind: MessageKind::Acknowledgement,
        message_id: 0x1234,
        token: vec![],
        status: Status::Content,
        payload: vec![1, 2, 3, 4, 5],
    };
    assert_eq!(encode(&response), Some(vec![0x60, 0x45, 0x12, 0x34, 0xFF, 1, 2, 3, 4, 5]));
    let response = Response {
        kind: MessageKind::NonConfirmable,
        message_id: 0x00FF,
        token: vec![0xAA, 0xBB],
        status: Status::NotFound,
        payload: vec![],
    };
    assert_eq!(encode(&response), Some(vec![0x52, 0x84, 0x00, 0xFF, 0xAA, 0xBB]));
}

#[test]
fn encode_refuses_what_does_not_fit() {
    let response = Response {
        kind: MessageKind::Acknowledgement,
        message_id: 1,
        token: vec![],
        status: Status::Content,
        payload: vec![0; 1280],
    };
    assert_eq!(encode(&response), None);
}

#[test]
fn status_codes_match_the_codec() {
    for (status, theirs) in [
        (Status::Content, ResponseType::Content),
        (Status::BadRequest, ResponseType::BadRequest),
        (Status::NotFound, ResponseType::NotFound),
        (Status::MethodNotAllowed, ResponseType::MethodNotAllowed),
        (Status::InternalServerError, ResponseType::InternalServerError),
    ] {
        assert_eq!(status.code(), u8::from(MessageClass::Response(theirs)));
        assert_eq!(status.code() >> 5, status.class());
    }
    assert_eq!(Status::Content.code(), 0x45);
    assert_eq!(Status::BadRequest.code(), 0x80);
    assert_eq!(Status::NotFound.code(), 0x84);
    assert_eq!(Status::MethodNotAllowed.code(), 0x85);
    assert_eq!(Status::InternalServerError.code(), 0xA0);
    assert_eq!(Status::Content.class(), 2);
    assert_eq!(Status::NotFound.class(), 4);
    assert_eq!(Status::InternalServerError.class(), 5);
}

#[test]
fn method_of_every_code() {
    for code in 0..=255u8 {
        let expected = match code {
            1 => Method::Get,
            2 => Method::Post,
            _ => Method::Other,
        };
        assert_eq!(Method::from_code(code), expected);
    }
}

#[test]
fn encoded_response_decodes_to_the_same_status_and_payload() {
    for status in [
        Status::Content,
        Status::BadRequest,
        Status::NotFound,
        Status::MethodNotAllowed,
        Status::InternalServerError,
    ] {
        for payload in [vec![], vec![0xFF], vec![1, 2, 3, 4, 5], vec![0x55; 128]] {
            let response = Response {
                kind: MessageKind::Acknowledgement,
                message_id: 0xBEEF,
                token: vec![1, 2, 3, 4],
                status,
                payload: payload.clone(),
            };
            let bytes = encode(&response).unwrap();
            let ours = decode(&bytes).unwrap();
            assert_eq!(ours.code, status.code());
            assert_eq!(ours.payload, payload);
            assert_eq!(ours.kind, MessageKind::Acknowledgement);
            assert_eq!(ours.message_id, 0xBEEF);
            assert_eq!(ours.token, vec![1, 2, 3, 4]);
            let theirs = Packet::from_bytes(&bytes).unwrap();
            assert_eq!(u8::from(theirs.header.code), status.code());
            assert_eq!(theirs.payload, payload);
        }
    }
}

#[test]
fn fill_sets_status_and_payload_only() {
    let response = Response::reply_to(MessageKind::Confirmable, 7, vec![1]).unwrap();
    let filled = response.fill(Status::BadRequest, vec![4, 5]);
    assert_eq!(
        filled,
        Response {
            kind: MessageKind::Acknowledgement,
            message_id: 7,
            token: vec![1],
            status: Status::BadRequest,
            payload: vec![4, 5],
        }
    );
}

#[test]
fn decoded_code_is_the_second_byte() {
    for code in 0..=255u8 {
        let message = decode(&[0x40, code, 0xAB, 0xCD]).unwrap();
        assert_eq!(message.code, code);
        assert_eq!(message.message_id, 0xABCD);
        assert_eq!(message.kind, MessageKind::Confirmable);
    }
}

fn announced_token_length(datagram: &[u8]) -> usize {
    (datagram[0] % 16) as usize
}

fn is_framed(datagram: &[u8]) -> bool {
    datagram.len() >= 4
        && announced_token_length(datagram) <= 8
        && 4 + announced_token_length(datagram) <= datagram.len()
}

fn is_bare(datagram: &[u8]) -> bool {
    is_framed(datagram)
        && (datagram.len() == 4 + announced_token_length(datagram)
            || datagram[4 + announced_token_length(datagram)] == 0xFF)
}

fn tails() -> Vec<Vec<u8>> {
    vec![
        vec![],
        vec![0xFF],
        vec![0xFF, 1, 2, 3],
        vec![1, 2, 3, 4, 5, 6, 7, 8],
        vec![1, 2, 3, 4, 5, 6, 7, 8, 0xFF],
        vec![1, 2, 3, 4, 5, 6, 7, 8, 0xFF, 9, 9],
        vec![0xFF; 12],
        vec![0xAA, 0xBB, 0xFF, 7],
        vec![0xB4, b'u', b'a', b'r', b't'],
        vec![0xB4, b'u', b'a', b'r', b't', 0xFF, 1],
        vec![0xB4, b'u'],
        vec![0xD1, 0x02, b'x'],
        vec![0xE0, 0x00],
        vec![0xF0],
        vec![0x0F],
        vec![0; 20],
    ]
}

#[test]
fn decode_refuses_what_is_not_framed() {
    for length in 0..4 {
        assert_eq!(decode(&vec![0x40; length]), None);
    }
    for first in 0..=255u8 {
        for tail in tails() {
            let mut datagram = vec![first, 0x02, 0xAB, 0xCD];
            datagram.extend_from_slice(&tail);
            if !is_framed(&datagram) {
                assert_eq!(decode(&datagram), None, "{datagram:?}");
            }
        }
    }
}

#[test]
fn decoded_message_carries_its_header() {
    let kinds = [
        MessageKind::Confirmable,
        MessageKind::NonConfirmable,
        MessageKind::Acknowledgement,
        MessageKind::Reset,
    ];
    let mut decoded = 0;
    for first in 0..=255u8 {
        for tail in tails() {
            let mut datagram = vec![first, 0x45, 0x12, 0x34];
            datagram.extend_from_slice(&tail);
            if let Some(message) = decode(&datagram) {
                decoded += 1;
                assert!(is_framed(&datagram));
                assert_eq!(message.kind, kinds[((first / 16) % 4) as usize]);
                assert_eq!(message.code, 0x45);
                assert_eq!(message.message_id, 0x12 * 256 + 0x34);
                assert_eq!(message.token, &datagram[4..4 + announced_token_length(&datagram)]);
                assert!(message.token.len() <= MAX_TOKEN_LENGTH);
            }
        }
    }
    assert!(decoded > 0);
}

#[test]
fn bare_datagram_always_decodes() {
    let mut bare = 0;
    for first in 0..=255u8 {
        for tail in tails() {
            let mut datagram = vec![first, 0x01, 0x00, 0x07];
            datagram.extend_from_slice(&tail);
            if is_bare(&datagram) {
                bare += 1;
                let message = decode(&datagram).unwrap();
                let start = 4 + announced_token_length(&datagram);
                assert_eq!(message.uri_path, Vec::<Vec<u8>>::new());
                if datagram.len() > start {
                    assert_eq!(message.payload, &datagram[start + 1..]);
                } else {
                    assert_eq!(message.payload, Vec::<u8>::new());
                }
            }
        }
    }
    assert!(bare > 0);
}

#[test]
fn bare_ping_decodes_to_an_empty_message() {
    assert_eq!(
        decode(&[0x40, 0x00, 0x00, 0x01]),
        Some(Message {
            kind: MessageKind::Confirmable,
            code: 0,
            message_id: 1,
            token: vec![],
            uri_path: vec![],
            payload: vec![],
        })
    );
    assert_eq!(
        decode(&[0x52, 0x01, 0x12, 0x34, 0xAA, 0xBB, 0xFF, 7]),
        Some(Message {
            kind: MessageKind::NonConfirmable,
            code: 1,
            message_id: 0x1234,
            token: vec![0xAA, 0xBB],
            uri_path: vec![],
            payload: vec![7],
        })
    );
}
