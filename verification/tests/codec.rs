use abci::codec::{ABCICodec, RequestDecode, ResponseDecode, MAX_BODY_LEN};
use abci::message::{RawRequest, Request, RequestKind, Response, ResponseType};
use abci::varint::write_varint;

#[test]
fn request_roundtrip_exact_bytes() {
    let codec = ABCICodec::new();
    let mut wire: Vec<u8> = Vec::new();
    let m = Request::new(RequestKind::DeliverTx, vec![1, 2, 3]);
    codec.encode_request(&m, &mut wire);
    // Body is the DeliverTx tag then the payload; the prefix counts 4 bytes.
    assert_eq!(wire, vec![4u8, 7, 1, 2, 3]);
    let r = codec.decode_request(&mut wire);
    assert_eq!(
        r,
        RequestDecode::Message(RawRequest::Known(Request::new(
            RequestKind::DeliverTx,
            vec![1, 2, 3]
        )))
    );
    assert!(wire.is_empty());
}

#[test]
fn response_roundtrip_exact_bytes() {
    let codec = ABCICodec::new();
    let mut wire: Vec<u8> = Vec::new();
    let m = Response::new(ResponseType::Echo, b"ping".to_vec());
    codec.encode_response(&m, &mut wire);
    // Body is the Echo tag then the four payload bytes.
    assert_eq!(wire, vec![5u8, 11, 112, 105, 110, 103]);
    let r = codec.decode_response(&mut wire);
    assert_eq!(r, ResponseDecode::Message(Response::new(ResponseType::Echo, b"ping".to_vec())));
    assert!(wire.is_empty());
}

#[test]
fn every_request_kind_roundtrips() {
    let kinds = [
        RequestKind::Info,
        RequestKind::SetOption,
        RequestKind::Query,
        RequestKind::CheckTx,
        RequestKind::InitChain,
        RequestKind::BeginBlock,
        RequestKind::DeliverTx,
        RequestKind::EndBlock,
        RequestKind::Commit,
        RequestKind::Flush,
        RequestKind::Echo,
    ];
    let codec = ABCICodec::new();
    for (i, &kind) in kinds.iter().enumerate() {
        let payload = vec![i as u8; i];
        let mut wire: Vec<u8> = Vec::new();
        codec.encode_request(&Request::new(kind, payload.clone()), &mut wire);
        let r = codec.decode_request(&mut wire);
        assert_eq!(r, RequestDecode::Message(RawRequest::Known(Request::new(kind, payload))));
        assert!(wire.is_empty());
    }
}

#[test]
fn partial_frame_consumes_nothing_then_resumes() {
    let codec = ABCICodec::new();
    let mut full: Vec<u8> = Vec::new();
    codec.encode_request(&Request::new(RequestKind::Echo, b"ping".to_vec()), &mut full);
    // Split the frame at every byte boundary.
    for i in 0..full.len() {
        let mut buf = full[..i].to_vec();
        assert_eq!(codec.decode_request(&mut buf), RequestDecode::Incomplete);
        // The first call consumed zero bytes.
        assert_eq!(buf, full[..i].to_vec());
        // Feeding the remainder yields the original message.
        buf.extend_from_slice(&full[i..]);
        assert_eq!(
            codec.decode_request(&mut buf),
            RequestDecode::Message(RawRequest::Known(Request::new(
                RequestKind::Echo,
                b"ping".to_vec()
            )))
        );
        assert!(buf.is_empty());
    }
}

#[test]
fn two_frames_decode_in_order() {
    let codec = ABCICodec::new();
    let mut wire: Vec<u8> = Vec::new();
    codec.encode_request(&Request::new(RequestKind::CheckTx, vec![1]), &mut wire);
    codec.encode_request(&Request::new(RequestKind::Commit, Vec::new()), &mut wire);
    assert_eq!(
        codec.decode_request(&mut wire),
        RequestDecode::Message(RawRequest::Known(Request::new(RequestKind::CheckTx, vec![1])))
    );
    assert_eq!(
        codec.decode_request(&mut wire),
        RequestDecode::Message(RawRequest::Known(Request::new(RequestKind::Commit, Vec::new())))
    );
    assert_eq!(codec.decode_request(&mut wire), RequestDecode::Incomplete);
}

#[test]
fn malformed_length_prefix_is_fatal_and_consumes_nothing() {
    let codec = ABCICodec::new();
    // A non-minimal length prefix.
    let mut buf: Vec<u8> = vec![0x80, 0x00, 1, 2];
    assert_eq!(codec.decode_request(&mut buf), RequestDecode::Malformed);
    assert_eq!(buf, vec![0x80, 0x00, 1, 2]);
    // A length prefix over the configured body limit.
    let mut buf: Vec<u8> = Vec::new();
    write_varint(MAX_BODY_LEN + 1, &mut buf);
    assert_eq!(codec.decode_request(&mut buf), RequestDecode::Malformed);
    // A length prefix that cannot be represented in 64 bits.
    let mut buf: Vec<u8> = vec![0x80; 12];
    assert_eq!(codec.decode_request(&mut buf), RequestDecode::Malformed);
}

#[test]
fn unknown_tag_is_a_message_layer_failure_not_a_frame_failure() {
    let codec = ABCICodec::new();
    // A syntactically valid frame whose tag lies outside the catalog.
    let mut buf: Vec<u8> = vec![2, 99, 0];
    assert_eq!(codec.decode_request(&mut buf), RequestDecode::Message(RawRequest::Unknown));
    // The frame was consumed: the connection can keep reading.
    assert!(buf.is_empty());
    // An empty body has no tag at all.
    let mut buf: Vec<u8> = vec![0];
    assert_eq!(codec.decode_request(&mut buf), RequestDecode::Message(RawRequest::Unknown));
    assert!(buf.is_empty());
    // The response side reports an unknown tag without handing a message out.
    let mut buf: Vec<u8> = vec![2, 99, 0];
    assert_eq!(codec.decode_response(&mut buf), ResponseDecode::UnknownKind);
    assert!(buf.is_empty());
}

#[test]
fn exception_response_roundtrips() {
    let codec = ABCICodec::new();
    let mut wire: Vec<u8> = Vec::new();
    let m = Response::new(ResponseType::Exception, b"Unrecognized request".to_vec());
    codec.encode_response(&m, &mut wire);
    assert_eq!(
        codec.decode_response(&mut wire),
        ResponseDecode::Message(Response::new(
            ResponseType::Exception,
            b"Unrecognized request".to_vec()
        ))
    );
}
