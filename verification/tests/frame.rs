use bincode::Options;
use toy_rpc::codec::{body_frame, header_frame};
use toy_rpc::transport::frame::{
    check_magic, decode_frame, encode_frame, frame_bytes_wanted, end_frame_header, Frame, FrameHeader, PayloadType,
    END_FRAME_ID, HEADER_LEN, INVALID_PROTOCOL, MAGIC,
};
use toy_rpc::error::{Error, IoErrorKind};

#[test]
fn frame_header_length() {
    let b = bincode::serialized_size(&(0u16, 0u8, 0u8, 0u32)).unwrap();
    let l = std::mem::size_of::<FrameHeader>();

    println!("{:?}", b);
    println!("{:?}", l);
    assert_eq!(b as usize, HEADER_LEN);
    assert_eq!(FrameHeader::default().to_vec().unwrap().len(), HEADER_LEN);
}

#[test]
fn bool_length() {
    let fh = FrameHeader::default().to_vec().unwrap().len();
    let mh = bincode::serialized_size(&(0u16, 0u8, 0u8, 0u32)).unwrap();

    println!("FrameHeader len: {}", fh);
    println!("ModifiedHeader len: {}", mh);
    assert_eq!(fh as u64, mh);
}

#[test]
fn header_bytes_match_bincode_fixint() {
    let h = FrameHeader::new(0x1234, 7, PayloadType::Data, 0xA1B2C3D4);
    let ours = h.to_vec().unwrap();
    let theirs = bincode::DefaultOptions::new()
        .with_fixint_encoding()
        .serialize(&(0x1234u16, 7u8, 1u8, 0xA1B2C3D4u32))
        .unwrap();
    assert_eq!(ours, theirs);
    assert_eq!(ours, vec![0x34, 0x12, 7, 1, 0xD4, 0xC3, 0xB2, 0xA1]);
}

#[test]
fn header_roundtrip() {
    let h = FrameHeader::new(65535, 200, PayloadType::Trailer, u32::MAX);
    let bytes = h.to_vec().unwrap();
    let back = FrameHeader::from_slice(&bytes).unwrap();
    assert_eq!(back.message_id(), 65535);
    assert_eq!(back.frame_id(), 200);
    assert_eq!(back.payload_type(), 2);
    assert_eq!(back.payload_len(), u32::MAX);
}

#[test]
fn header_from_slice_length_errors() {
    match FrameHeader::from_slice(&[1, 2, 3]) {
        Err(Error::ParseError(m)) => assert_eq!(m, "io error: unexpected end of file"),
        other => panic!("unexpected {:?}", other),
    }
    match FrameHeader::from_slice(&[0; 9]) {
        Err(Error::ParseError(m)) => {
            assert_eq!(m, "Slice had bytes remaining after deserialization")
        }
        other => panic!("unexpected {:?}", other),
    }
}

#[test]
fn header_from_slice_matches_bincode() {
    let bytes = [9u8, 1, 3, 250, 1, 0, 0, 1];
    let (a, b, c, d): (u16, u8, u8, u32) = bincode::DefaultOptions::new()
        .with_fixint_encoding()
        .deserialize(&bytes)
        .unwrap();
    let h = FrameHeader::from_slice(&bytes).unwrap();
    assert_eq!((h.message_id(), h.frame_id(), h.payload_type(), h.payload_len()), (a, b, c, d));
    assert!(bincode::DefaultOptions::new()
        .with_fixint_encoding()
        .deserialize::<(u16, u8, u8, u32)>(&[0u8; 9])
        .is_err());
}

#[test]
fn payload_type_conversions() {
    assert_eq!(PayloadType::from(0u8), PayloadType::Header);
    assert_eq!(PayloadType::from(1u8), PayloadType::Data);
    assert_eq!(PayloadType::from(2u8), PayloadType::Trailer);
    assert_eq!(PayloadType::from(77u8), PayloadType::Trailer);
    assert_eq!(u8::from(PayloadType::Data), 1);
    for t in [PayloadType::Header, PayloadType::Data, PayloadType::Trailer] {
        assert_eq!(PayloadType::from(u8::from(t)), t);
    }
    assert_eq!(PayloadType::default(), PayloadType::Header);
}

#[test]
fn frame_roundtrip_with_trailing_bytes() {
    let h = FrameHeader::new(42, 1, PayloadType::Data, 3);
    let mut bytes = encode_frame(&h, &[7, 8, 9]).unwrap();
    assert_eq!(bytes[0], MAGIC);
    assert_eq!(bytes.len(), 1 + HEADER_LEN + 3);
    bytes.extend_from_slice(&[1, 2, 3, 4]);
    let (frame, used): (Frame, usize) = decode_frame(&bytes).unwrap().unwrap();
    assert_eq!(used, 12);
    assert_eq!(frame.message_id, 42);
    assert_eq!(frame.frame_id, 1);
    assert_eq!(frame.payload_type, PayloadType::Data);
    assert_eq!(frame.payload, vec![7, 8, 9]);
}

#[test]
fn end_frame_closes_stream() {
    let h = end_frame_header();
    assert_eq!(h.frame_id(), END_FRAME_ID);
    assert!(h.is_end_frame());
    let bytes = encode_frame(&h, &[]).unwrap();
    assert!(decode_frame(&bytes).is_none());
}

#[test]
fn short_streams_close() {
    assert!(decode_frame(&[]).is_none());
    assert!(decode_frame(&[MAGIC, 1, 2]).is_none());
    let h = FrameHeader::new(1, 0, PayloadType::Header, 10);
    let bytes = encode_frame(&h, &[0; 10]).unwrap();
    assert!(decode_frame(&bytes[..bytes.len() - 1]).is_none());
}

#[test]
fn wrong_magic_is_refused() {
    match decode_frame(&[12, 0, 0]) {
        Some(Err(e)) => {
            assert_eq!(e.kind, IoErrorKind::InvalidData);
            assert_eq!(e.message, INVALID_PROTOCOL);
        }
        other => panic!("unexpected {:?}", other),
    }
    assert!(check_magic(MAGIC).is_ok());
    assert!(check_magic(0).is_err());
}

#[test]
fn codec_parts_are_framed() {
    let h = header_frame(5, &[1, 2]).unwrap();
    assert_eq!(h, vec![MAGIC, 5, 0, 0, 0, 2, 0, 0, 0, 1, 2]);
    let b = body_frame(5, &[3]).unwrap();
    assert_eq!(b, vec![MAGIC, 5, 0, 1, 1, 1, 0, 0, 0, 3]);
    let (f, _) = decode_frame(&b).unwrap().unwrap();
    assert_eq!(f.payload_type, PayloadType::Data);
    assert_eq!(f.payload, vec![3]);
}

/// Reads one frame from `stream` as a reader of a byte stream does: asking for
/// the bytes the library wants until they decide the frame
fn read_stepwise(stream: &[u8]) -> (Option<(u16, Vec<u8>)>, usize) {
    let mut buf: Vec<u8> = Vec::new();
    loop {
        let wanted = frame_bytes_wanted(&buf);
        if wanted == 0 {
            break;
        }
        if buf.len() + wanted > stream.len() {
            return (None, buf.len());
        }
        buf.extend_from_slice(&stream[buf.len()..buf.len() + wanted]);
    }
    match decode_frame(&buf) {
        Some(Ok((f, _))) => (Some((f.message_id, f.payload)), buf.len()),
        _ => (None, buf.len()),
    }
}

#[test]
fn stepwise_reading_takes_exactly_one_frame() {
    let h = FrameHeader::new(3, 1, PayloadType::Data, 4);
    let mut stream = encode_frame(&h, &[9, 8, 7, 6]).unwrap();
    stream.extend_from_slice(&[MAGIC, 1, 2, 3]);
    assert_eq!(frame_bytes_wanted(&[]), 1);
    assert_eq!(frame_bytes_wanted(&stream[..1]), HEADER_LEN);
    assert_eq!(frame_bytes_wanted(&stream[..1 + HEADER_LEN]), 4);
    assert_eq!(frame_bytes_wanted(&stream[..1 + HEADER_LEN + 2]), 2);
    assert_eq!(frame_bytes_wanted(&stream[..1 + HEADER_LEN + 4]), 0);
    assert_eq!(read_stepwise(&stream), (Some((3, vec![9, 8, 7, 6])), 13));
    // the end frame, a wrong magic byte and a stream cut short
    let end = encode_frame(&end_frame_header(), &[]).unwrap();
    assert_eq!(frame_bytes_wanted(&end), 0);
    assert_eq!(read_stepwise(&end), (None, 9));
    assert_eq!(frame_bytes_wanted(&[12]), 0);
    assert_eq!(read_stepwise(&stream[..11]), (None, 9));
}
