use toy_rpc::message::cancellation_token;
use toy_rpc::numeral::parse_u16;
use toy_rpc::server::reader::{handle_cancel, is_correct_cancellation_token};
use toy_rpc::error::Error;

fn chars(s: &str) -> Vec<char> {
    s.chars().collect()
}

#[test]
fn cancellation_token_text() {
    assert_eq!(cancellation_token(7), "RPC_TASK_CANCELLATION.7");
    assert_eq!(cancellation_token(0), "RPC_TASK_CANCELLATION.0");
    assert_eq!(cancellation_token(65535), "RPC_TASK_CANCELLATION.65535");
}

#[test]
fn cancellation_token_roundtrip() {
    for id in [0u16, 1, 9, 10, 255, 3000, 65535] {
        assert!(is_correct_cancellation_token(id, &cancellation_token(id)));
        assert!(!is_correct_cancellation_token(id.wrapping_add(1), &cancellation_token(id)));
    }
}

#[test]
fn cancellation_token_checks() {
    assert!(is_correct_cancellation_token(5, "RPC_TASK_CANCELLATION.+5"));
    assert!(is_correct_cancellation_token(5, "RPC_TASK_CANCELLATION.0005"));
    assert!(!is_correct_cancellation_token(5, "RPC_TASK_CANCELLATION.-5"));
    assert!(!is_correct_cancellation_token(5, "RPC_TASK_CANCELLATION.5.0"));
    assert!(!is_correct_cancellation_token(5, "RPC_TASK_CANCELLATION5"));
    assert!(!is_correct_cancellation_token(5, "RPC_TASK.CANCELLATION.5"));
    assert!(!is_correct_cancellation_token(5, "rpc_task_cancellation.5"));
    assert!(!is_correct_cancellation_token(5, "RPC_TASK_CANCELLATION."));
    assert!(!is_correct_cancellation_token(0, "RPC_TASK_CANCELLATION.65536"));
    assert!(!is_correct_cancellation_token(0, ""));
    assert!(handle_cancel(9, "RPC_TASK_CANCELLATION.9").is_ok());
    assert!(matches!(handle_cancel(9, "RPC_TASK_CANCELLATION.8"), Err(Error::InvalidArgument)));
}

#[test]
fn parse_u16_like_std() {
    for s in ["", "+", "-", "0", "+0", "-0", "65535", "65536", "+65535", "00065535", "1a", "a1", " 1", "++1", "+-1", "999999999999"] {
        assert_eq!(parse_u16(&chars(s)), s.parse::<u16>().ok(), "text {:?}", s);
    }
}
