use toy_rpc::error::{Error, IoError, IoErrorKind};
use toy_rpc::message::ErrorMessage;
use toy_rpc::transport::as_io_err_other;

#[test]
fn test_conversion_to_anyhow() {}

#[test]
fn error_texts() {
    let cases: Vec<(Error, &str)> = vec![
        (
            Error::IoError(IoError::new(IoErrorKind::Other, "broken pipe".into())),
            "Custom { kind: Other, error: \"broken pipe\" }",
        ),
        (Error::ParseError("bad".into()), "bad"),
        (Error::Internal("oops".into()), "InternalError: oops"),
        (Error::InvalidArgument, "InvalidArgument"),
        (Error::ServiceNotFound, "ServiceNotFound"),
        (Error::MethodNotFound, "MethodNotFound"),
        (Error::ExecutionError("boom".into()), "boom"),
        (Error::Canceled(12), "Request (12) is canceled"),
        (Error::Timeout(0), "Request (0) reached timeout"),
        (Error::MaxRetriesReached(65535), "Maximum number of retries is reached for message 65535"),
    ];
    for (e, text) in cases {
        assert_eq!(e.to_text(), text);
    }
}

#[test]
fn io_error_text_as_std_debug() {
    let cases = [
        (IoErrorKind::InvalidData, std::io::ErrorKind::InvalidData, "Expecting WebSocket::Message::Binary"),
        (IoErrorKind::UnexpectedEof, std::io::ErrorKind::UnexpectedEof, "quote \" and \\ and\nnewline"),
        (IoErrorKind::Other, std::io::ErrorKind::Other, ""),
    ];
    for (kind, std_kind, msg) in cases {
        let ours = Error::IoError(IoError::new(kind, msg.to_string())).to_text();
        let theirs = format!("{:?}", std::io::Error::new(std_kind, msg));
        assert_eq!(ours, theirs);
    }
}

#[test]
fn io_error_of_other_error() {
    let e = as_io_err_other(&Error::Canceled(3));
    assert_eq!(e.kind, IoErrorKind::Other);
    assert_eq!(e.message, "Request (3) is canceled");
    let nested = as_io_err_other(&Error::IoError(IoError::new(IoErrorKind::InvalidData, "x".into())));
    assert_eq!(nested.message, "Custom { kind: InvalidData, error: \"x\" }");
}

#[test]
fn execution_errors_from_values() {
    let text = |e: Error| match e {
        Error::ExecutionError(s) => s,
        other => panic!("unexpected {:?}", other),
    };
    assert_eq!(text(Error::from(String::from("s"))), "s");
    assert_eq!(text(Error::from("str")), "str");
    assert_eq!(text(Error::from(true)), "true");
    assert_eq!(text(Error::from(false)), "false");
    assert_eq!(text(Error::from(0u8)), "0");
    assert_eq!(text(Error::from(255u8)), "255");
    assert_eq!(text(Error::from(65535u16)), "65535");
    assert_eq!(text(Error::from(4294967295u32)), "4294967295");
    assert_eq!(text(Error::from(u64::MAX)), u64::MAX.to_string());
    assert_eq!(text(Error::from(-128i8)), "-128");
    assert_eq!(text(Error::from(-1i16)), "-1");
    assert_eq!(text(Error::from(i32::MIN)), i32::MIN.to_string());
    assert_eq!(text(Error::from(i64::MIN)), i64::MIN.to_string());
    assert_eq!(text(Error::from(i64::MAX)), i64::MAX.to_string());
    assert_eq!(text(Error::from(10i64)), "10");
}

#[test]
fn error_messages_roundtrip() {
    let msgs = vec![
        ErrorMessage::InvalidArgument,
        ErrorMessage::ServiceNotFound,
        ErrorMessage::MethodNotFound,
        ErrorMessage::ExecutionError("x".into()),
    ];
    for m in msgs {
        let e = Error::from_err_msg(m.clone());
        let back = ErrorMessage::from_err(e).unwrap();
        assert_eq!(format!("{:?}", back), format!("{:?}", m));
        let e2: Error = Error::from(m);
        assert!(ErrorMessage::from_err(e2).is_ok());
    }
}

#[test]
fn unsendable_errors_are_handed_back() {
    for e in [
        Error::Canceled(1),
        Error::Timeout(2),
        Error::MaxRetriesReached(3),
        Error::Internal("i".into()),
        Error::ParseError("p".into()),
        Error::IoError(IoError::new(IoErrorKind::InvalidData, "d".into())),
    ] {
        let text = e.to_text();
        match ErrorMessage::from_err(e) {
            Err(back) => assert_eq!(back.to_text(), text),
            Ok(m) => panic!("unexpected {:?}", m),
        }
    }
}
