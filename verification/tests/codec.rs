//! Frame codec round trips and partial-frame behaviour.

use castru::codec::CastCodec;
use castru::proto::{message_from_bytes, message_to_bytes, CastMessage};

#[test]
fn test_encode_decode() {
    let mut msg = CastMessage::default();
    msg.protocol_version = 0; // CASTV2_1_0
    msg.source_id = "sender-0".to_string();
    msg.destination_id = "receiver-0".to_string();
    msg.namespace = "urn:x-cast:com.google.cast.tp.heartbeat".to_string();
    msg.payload_type = 0; // STRING
    msg.payload_utf8 = Some("PING".to_string());

    let mut buf: Vec<u8> = Vec::new();
    CastCodec::encode(&msg, &mut buf).unwrap();

    // Check length
    assert!(buf.len() > 4);
    let len = u32::from_be_bytes(buf[..4].try_into().unwrap());
    assert_eq!(len as usize, buf.len() - 4);

    // Decode
    let decoded = CastCodec::decode(&mut buf).unwrap().unwrap();
    assert_eq!(decoded.source_id, "sender-0");
    assert_eq!(decoded.payload_utf8, Some("PING".to_string()));
}

#[test]
fn test_decode_partial() {
    let mut buf: Vec<u8> = Vec::new();
    // Add length 10
    buf.extend_from_slice(&10u32.to_be_bytes());
    // Add 5 bytes of data
    buf.extend_from_slice(&[0u8; 5]);

    let res = CastCodec::decode(&mut buf).unwrap();
    assert!(res.is_none());
    assert_eq!(buf.len(), 9); // 4 + 5 (not consumed)
}

#[test]
fn frame_round_trip_with_binary_payload() {
    let msg = CastMessage {
        protocol_version: 0,
        source_id: "sender-0".to_string(),
        destination_id: "transport-7".to_string(),
        namespace: "urn:x-cast:com.google.cast.media".to_string(),
        payload_type: 1,
        payload_utf8: None,
        payload_binary: Some(vec![0, 1, 2, 250, 255]),
    };
    let mut buf: Vec<u8> = Vec::new();
    CastCodec::encode(&msg, &mut buf).unwrap();
    let decoded = CastCodec::decode(&mut buf).unwrap().unwrap();
    assert_eq!(decoded.destination_id, "transport-7");
    assert_eq!(decoded.payload_binary, Some(vec![0, 1, 2, 250, 255]));
    assert_eq!(decoded.payload_utf8, None);
    assert!(buf.is_empty());
}

#[test]
fn incremental_halves_decode_none_then_message() {
    let msg = CastMessage {
        protocol_version: 0,
        source_id: "sender-0".to_string(),
        destination_id: "receiver-0".to_string(),
        namespace: "urn:x-cast:com.google.cast.receiver".to_string(),
        payload_type: 0,
        payload_utf8: Some("{\"type\":\"GET_STATUS\",\"requestId\":1}".to_string()),
        payload_binary: None,
    };
    let mut frame: Vec<u8> = Vec::new();
    CastCodec::encode(&msg, &mut frame).unwrap();
    // deliver the first half: decode must return None and consume nothing
    let half = frame.len() / 2;
    let mut buf: Vec<u8> = frame[..half].to_vec();
    assert!(CastCodec::decode(&mut buf).unwrap().is_none());
    assert_eq!(buf.len(), half);
    // deliver the rest: decode returns the message, advancing once
    buf.extend_from_slice(&frame[half..]);
    let decoded = CastCodec::decode(&mut buf).unwrap().unwrap();
    assert_eq!(decoded.namespace, msg.namespace);
    assert_eq!(decoded.payload_utf8, msg.payload_utf8);
    assert!(buf.is_empty());
}

#[test]
fn two_frames_back_to_back_decode_in_order() {
    let mut a = CastMessage::default();
    a.source_id = "sender-0".to_string();
    a.payload_utf8 = Some("one".to_string());
    let mut b = CastMessage::default();
    b.source_id = "sender-0".to_string();
    b.payload_utf8 = Some("two".to_string());
    let mut buf: Vec<u8> = Vec::new();
    CastCodec::encode(&a, &mut buf).unwrap();
    CastCodec::encode(&b, &mut buf).unwrap();
    let first = CastCodec::decode(&mut buf).unwrap().unwrap();
    let second = CastCodec::decode(&mut buf).unwrap().unwrap();
    assert_eq!(first.payload_utf8, Some("one".to_string()));
    assert_eq!(second.payload_utf8, Some("two".to_string()));
    assert!(CastCodec::decode(&mut buf).unwrap().is_none());
}

#[test]
fn message_bytes_parse_back() {
    let msg = CastMessage {
        protocol_version: 0,
        source_id: "s".to_string(),
        destination_id: "d".to_string(),
        namespace: "n".to_string(),
        payload_type: 0,
        payload_utf8: Some("pay".to_string()),
        payload_binary: None,
    };
    let bytes = message_to_bytes(&msg);
    let back = message_from_bytes(&bytes).unwrap();
    assert_eq!(back.source_id, "s");
    assert_eq!(back.destination_id, "d");
    assert_eq!(back.namespace, "n");
    assert_eq!(back.payload_utf8, Some("pay".to_string()));
}

#[test]
fn malformed_frame_payload_is_an_error() {
    // a full frame whose payload is not a message
    let mut buf: Vec<u8> = Vec::new();
    buf.extend_from_slice(&3u32.to_be_bytes());
    buf.extend_from_slice(&[0xff, 0xff, 0xff]);
    assert!(CastCodec::decode(&mut buf).is_err());
    // the frame was consumed
    assert!(buf.is_empty());
}
