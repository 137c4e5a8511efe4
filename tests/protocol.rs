use tailscale::protocol::{explain, is_failure, terminated_bytes, NativeError, ERRMSG_CAPACITY, SENTINEL};
use tailscale::sim::SimStack;

fn buffer_with(text: &[u8]) -> Vec<u8> {
    let mut b = vec![0u8; ERRMSG_CAPACITY];
    b[..text.len()].copy_from_slice(text);
    b
}

#[test]
fn sentinel_marks_failure() {
    assert!(is_failure(-1));
    assert!(is_failure(SENTINEL));
    assert!(!is_failure(0));
    assert!(!is_failure(1));
    assert!(!is_failure(-2));
}

#[test]
fn terminated_bytes_stop_at_first_zero() {
    assert_eq!(terminated_bytes(b"abc\0def\0"), b"abc".to_vec());
    assert_eq!(terminated_bytes(b"\0abc"), Vec::<u8>::new());
    assert_eq!(terminated_bytes(b"no terminator"), b"no terminator".to_vec());
    assert_eq!(terminated_bytes(b""), Vec::<u8>::new());
}

#[test]
fn explain_reads_message_up_to_terminator() {
    let b = buffer_with(b"connection refused");
    assert_eq!(explain(0, &b), NativeError::Failed("connection refused".to_string()));
}

#[test]
fn explain_failed_fetch_is_unexplained() {
    let b = buffer_with(b"connection refused");
    assert_eq!(explain(1, &b), NativeError::Unexplained);
    assert_eq!(explain(-1, &b), NativeError::Unexplained);
}

#[test]
fn explain_decodes_invalid_utf8_leniently() {
    let b = buffer_with(&[b'o', b'k', 0xff, b'!']);
    assert_eq!(explain(0, &b), NativeError::Failed("ok\u{fffd}!".to_string()));
}

#[test]
fn explain_empty_message() {
    let b = vec![0u8; ERRMSG_CAPACITY];
    assert_eq!(explain(0, &b), NativeError::Failed(String::new()));
}

#[test]
fn resolve_round_trips_message() {
    let mut s = SimStack::new();
    s.inject_failure(b"connection refused".to_vec());
    let code = s.up();
    assert_eq!(code, -1);
    assert_eq!(s.resolve(code), Err(NativeError::Failed("connection refused".to_string())));
}

#[test]
fn resolve_success_code_is_ok() {
    let mut s = SimStack::new();
    let code = s.up();
    assert_eq!(code, 0);
    assert_eq!(s.resolve(code), Ok(()));
    assert_eq!(s.resolve(7), Ok(()));
}

#[test]
fn resolve_truncates_long_message() {
    let mut s = SimStack::new();
    let long = vec![b'x'; ERRMSG_CAPACITY + 44];
    s.inject_failure(long);
    let code = s.up();
    let r = s.resolve(code);
    let expected = "x".repeat(ERRMSG_CAPACITY - 1);
    assert_eq!(r, Err(NativeError::Failed(expected)));
}

#[test]
fn resolve_message_of_exactly_capacity_loses_last_byte() {
    let mut s = SimStack::new();
    let mut m = vec![b'a'; ERRMSG_CAPACITY - 1];
    m.push(b'z');
    s.inject_failure(m);
    let code = s.up();
    assert_eq!(s.resolve(code), Err(NativeError::Failed("a".repeat(ERRMSG_CAPACITY - 1))));
}

#[test]
fn errmsg_without_room_fails() {
    let s = SimStack::new();
    let (status, _) = s.errmsg(0);
    assert_ne!(status, 0);
    let (status, buf) = s.errmsg(4);
    assert_eq!(status, 0);
    assert_eq!(buf, vec![0u8; 4]);
}

#[test]
fn errmsg_fills_buffer_with_terminated_message() {
    let mut s = SimStack::new();
    s.inject_failure(b"abcdef".to_vec());
    assert_eq!(s.up(), -1);
    let (status, buf) = s.errmsg(4);
    assert_eq!(status, 0);
    assert_eq!(buf, b"abc\0".to_vec());
    let (status, buf) = s.errmsg(8);
    assert_eq!(status, 0);
    assert_eq!(buf, b"abcdef\0\0".to_vec());
}

#[test]
fn resolve_truncated_message_stops_at_zero_byte() {
    let mut s = SimStack::new();
    let mut m = vec![b'q'; ERRMSG_CAPACITY + 10];
    m[5] = 0;
    s.inject_failure(m);
    let code = s.up();
    assert_eq!(s.resolve(code), Err(NativeError::Failed("qqqqq".to_string())));
}
