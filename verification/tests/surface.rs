use spot::step::{CommandError, FetchError};
use spot::surface::{
    authorized, command_status, limit_or_default, query_status, refusal, same_bytes,
    DEFAULT_TOP_SONGS_LIMIT, STATUS_INTERNAL_SERVER_ERROR, STATUS_NO_CONTENT, STATUS_OK,
    STATUS_UNAUTHORIZED,
};
use spot::wire::{status_is_success, Fault, Payload, Reply};

#[test]
fn caller_without_a_limit_gets_four() {
    assert_eq!(DEFAULT_TOP_SONGS_LIMIT, 4);
    assert_eq!(limit_or_default(None), 4);
    assert_eq!(limit_or_default(Some(0)), 0);
    assert_eq!(limit_or_default(Some(32)), 32);
    assert_eq!(limit_or_default(Some(usize::MAX)), usize::MAX);
}

#[test]
fn only_the_exact_secret_authorizes() {
    let secret = b"s3cret";
    assert!(authorized(Some(b"s3cret"), secret));
    assert!(!authorized(None, secret));
    assert!(!authorized(Some(b"s3cre"), secret));
    assert!(!authorized(Some(b"s3cret "), secret));
    assert!(!authorized(Some(b"S3cret"), secret));
    assert!(!authorized(Some(b"Bearer s3cret"), secret));
    assert!(!authorized(Some(b""), secret));
    assert!(authorized(Some(b""), b""));
    assert!(!authorized(None, b""));
    assert!(authorized(Some(&[0xff, 0x00, 0x80]), &[0xff, 0x00, 0x80]));
    assert!(!authorized(Some(&[0xff, 0x00, 0x81]), &[0xff, 0x00, 0x80]));
}

#[test]
fn unauthorized_caller_is_turned_away_with_401() {
    assert_eq!(STATUS_UNAUTHORIZED, 401);
    assert_eq!(refusal(None, b"s3cret"), Some(401));
    assert_eq!(refusal(Some(b"guess"), b"s3cret"), Some(401));
    assert_eq!(refusal(Some(b"s3cret"), b"s3cret"), None);
}

#[test]
fn bytes_are_compared_one_by_one() {
    assert!(same_bytes(b"", b""));
    assert!(same_bytes(b"abc", b"abc"));
    assert!(!same_bytes(b"abc", b"abd"));
    assert!(!same_bytes(b"xbc", b"abc"));
    assert!(!same_bytes(b"abc", b"ab"));
    assert!(!same_bytes(b"ab", b"abc"));
}

#[test]
fn every_query_failure_is_answered_with_no_content() {
    assert_eq!(query_status(&Ok::<u8, FetchError>(1)), 200);
    assert_eq!(STATUS_OK, 200);
    assert_eq!(STATUS_NO_CONTENT, 204);
    for error in [
        FetchError::AuthFailed,
        FetchError::Upstream,
        FetchError::NothingPlaying,
        FetchError::Decode,
        FetchError::SuppressedRecentFailure,
    ] {
        assert_eq!(query_status(&Err::<u8, FetchError>(error)), 204);
    }
}

#[test]
fn every_command_failure_is_answered_with_server_error() {
    assert_eq!(STATUS_INTERNAL_SERVER_ERROR, 500);
    assert_eq!(command_status(&Ok(())), 200);
    assert_eq!(command_status(&Err(CommandError::Upstream)), 500);
    assert_eq!(command_status(&Err(CommandError::AuthFailed)), 500);
}

#[test]
fn reply_is_read_transport_first_then_status_then_body() {
    let unreachable: Reply<u8> = Reply::Unreachable;
    assert!(!unreachable.is_accepted());
    assert_eq!(unreachable.peek_body(true), None);
    assert_eq!(unreachable.into_body(true), Err(Fault::Transport));

    let refused: Reply<u8> = Reply::Answered { status: 500, payload: Payload::Parsed(1) };
    assert!(!refused.is_accepted());
    assert_eq!(refused.peek_body(false), None);
    assert_eq!(refused.into_body(false), Err(Fault::Status));

    let empty: Reply<u8> = Reply::Answered { status: 204, payload: Payload::Parsed(1) };
    assert!(empty.is_accepted());
    assert_eq!(empty.peek_body(true), None);
    assert_eq!(empty.peek_body(false), Some(&1));
    let empty: Reply<u8> = Reply::Answered { status: 204, payload: Payload::Parsed(1) };
    assert_eq!(empty.into_body(true), Err(Fault::NoContent));
    let empty: Reply<u8> = Reply::Answered { status: 204, payload: Payload::Parsed(1) };
    assert_eq!(empty.into_body(false), Ok(1));

    let lost: Reply<u8> = Reply::Answered { status: 200, payload: Payload::Lost };
    assert!(lost.is_accepted());
    assert_eq!(lost.into_body(true), Err(Fault::Transport));

    let garbled: Reply<u8> = Reply::Answered { status: 200, payload: Payload::Malformed };
    assert_eq!(garbled.peek_body(true), None);
    assert_eq!(garbled.into_body(true), Err(Fault::Decode));

    let good: Reply<u8> = Reply::Answered { status: 299, payload: Payload::Parsed(7) };
    assert_eq!(good.peek_body(true), Some(&7));
    assert_eq!(good.into_body(true), Ok(7));
}

#[test]
fn faults_map_to_fetch_errors() {
    assert_eq!(FetchError::from_fault(Fault::Transport), FetchError::Upstream);
    assert_eq!(FetchError::from_fault(Fault::Status), FetchError::Upstream);
    assert_eq!(FetchError::from_fault(Fault::NoContent), FetchError::NothingPlaying);
    assert_eq!(FetchError::from_fault(Fault::Decode), FetchError::Decode);
}

#[test]
fn success_is_the_2xx_class() {
    assert!(!status_is_success(0));
    assert!(!status_is_success(199));
    assert!(status_is_success(200));
    assert!(status_is_success(204));
    assert!(status_is_success(299));
    assert!(!status_is_success(300));
    assert!(!status_is_success(u16::MAX));
}
