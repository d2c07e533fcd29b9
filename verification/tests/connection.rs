use bytes::MutByteBuf;
use http_reactor::connection::{
    dispatch, identify, read_outcome, Action, CloseReason, ConnectionId, Dispatch, HttpConnection,
    ReadOutcome, SERVER,
};
use http_reactor::error::HttpError;
use http_reactor::method::HttpMethod;

/// One read that puts `bytes` into the connection's buffer.
fn read(connection: &mut HttpConnection, bytes: &[u8]) -> Action {
    let mut buffer: MutByteBuf = connection.take_buffer().expect("a buffer in write mode");
    assert_eq!(bytes.len(), buffer.write_slice(bytes));
    connection.readable(buffer, ReadOutcome::Ready)
}

#[test]
fn new_connection_has_a_buffer_and_no_slot() {
    let mut connection = HttpConnection::new();
    assert_eq!(None, connection.token());
    connection.assign(5);
    assert_eq!(Some(5), connection.token());
    let buffer = connection.take_buffer().expect("a buffer in write mode");
    assert_eq!(0, buffer.bytes().len());
    assert!(buffer.capacity() >= 16384);
    assert!(connection.take_buffer().is_none());
}

#[test]
fn read_that_would_block_changes_nothing() {
    let mut connection = HttpConnection::new();
    connection.assign(3);
    assert!(matches!(read(&mut connection, b"GET /pa"), Action::Rearm));

    let buffer = connection.take_buffer().expect("a buffer in write mode");
    assert!(matches!(connection.readable(buffer, ReadOutcome::WouldBlock), Action::Rearm));
    assert_eq!(Some(3), connection.token());

    match read(&mut connection, b"th HTTP\n\n") {
        Action::Deliver(request) => {
            assert_eq!(HttpMethod::GET, request.method);
            assert_eq!("/path", request.path);
        }
        _ => panic!("Expected Deliver"),
    }
}

#[test]
fn read_that_would_block_on_a_new_connection_changes_nothing() {
    let mut connection = HttpConnection::new();
    for _ in 0..3 {
        let buffer = connection.take_buffer().expect("a buffer in write mode");
        assert!(matches!(connection.readable(buffer, ReadOutcome::WouldBlock), Action::Rearm));
    }
    assert!(matches!(read(&mut connection, b"GET / HTTP\n\n"), Action::Deliver(_)));
}

#[test]
fn failed_socket_closes_the_connection() {
    let mut connection = HttpConnection::new();
    let buffer = connection.take_buffer().expect("a buffer in write mode");
    assert!(matches!(
        connection.readable(buffer, ReadOutcome::Failed),
        Action::Close(CloseReason::Io)
    ));
    assert!(connection.take_buffer().is_none());
}

#[test]
fn malformed_method_closes_the_connection() {
    let mut connection = HttpConnection::new();
    assert!(matches!(
        read(&mut connection, b"FOO / HTTP\n"),
        Action::Close(CloseReason::Protocol(HttpError::UnrecognizedMethod))
    ));
    assert!(connection.take_buffer().is_none());
    assert!(matches!(connection.resume(), Action::Rearm));
}

#[test]
fn request_in_fragments_is_delivered_once_complete() {
    let mut connection = HttpConnection::new();
    assert!(matches!(read(&mut connection, b"POS"), Action::Rearm));
    assert!(matches!(read(&mut connection, b"T /submit HT"), Action::Rearm));
    assert!(matches!(read(&mut connection, b"TP/1.1\r\nHost: a"), Action::Rearm));
    match read(&mut connection, b".example\r\n\r\n") {
        Action::Deliver(request) => {
            assert_eq!(HttpMethod::POST, request.method);
            assert_eq!("/submit", request.path);
            assert_eq!(*request.headers.get("HOST").unwrap(), vec!["a.example"]);
        }
        _ => panic!("Expected Deliver"),
    }
    assert!(matches!(connection.resume(), Action::Rearm));
    assert!(connection.take_buffer().is_some());
}

#[test]
fn second_request_sees_nothing_of_the_first() {
    let mut connection = HttpConnection::new();
    match read(&mut connection, b"POST /first HTTP/1.1\nA: 1\nB: 2\n\nGET /second HTTP/1.0\nC: 3\n\nPUT") {
        Action::Deliver(request) => {
            assert_eq!(HttpMethod::POST, request.method);
            assert_eq!("/first", request.path);
            assert_eq!(2, request.headers.len());
        }
        _ => panic!("Expected Deliver"),
    }
    assert!(connection.take_buffer().is_none());
    match connection.resume() {
        Action::Deliver(request) => {
            assert_eq!(HttpMethod::GET, request.method);
            assert_eq!("/second", request.path);
            assert_eq!(1, request.headers.len());
            assert!(request.headers.get("A").is_none());
            assert!(request.headers.get("B").is_none());
            assert_eq!(*request.headers.get("C").unwrap(), vec!["3"]);
        }
        _ => panic!("Expected Deliver"),
    }
    assert!(matches!(connection.resume(), Action::Rearm));
    match read(&mut connection, b" /third HTTP\n\n") {
        Action::Deliver(request) => {
            assert_eq!(HttpMethod::PUT, request.method);
            assert_eq!("/third", request.path);
            assert_eq!(0, request.headers.len());
        }
        _ => panic!("Expected Deliver"),
    }
}

#[test]
fn request_after_a_delivered_one_needs_its_own_method() {
    let mut connection = HttpConnection::new();
    assert!(matches!(read(&mut connection, b"GET /first HTTP\n\n /second HTTP\n\n"), Action::Deliver(_)));
    assert!(matches!(
        connection.resume(),
        Action::Close(CloseReason::Protocol(HttpError::UnrecognizedMethod))
    ));
}

#[test]
fn preface_of_http2_asks_for_the_upgrade() {
    let mut connection = HttpConnection::new();
    match read(&mut connection, b"PRI * HTTP/2.0\r\n\r\nSM\r\n\r\n") {
        Action::Upgrade(request) => {
            assert_eq!(HttpMethod::HTTP2, request.method);
            assert_eq!("*", request.path);
        }
        _ => panic!("Expected Upgrade"),
    }
}

#[test]
fn events_go_to_the_listener_or_to_a_slot() {
    assert_eq!(ConnectionId::Listener, identify(SERVER));
    assert_eq!(ConnectionId::Listener, identify(0));
    assert_eq!(ConnectionId::Slot(1), identify(1));
    assert_eq!(Dispatch::Accept, dispatch(0, true));
    assert_eq!(Dispatch::Readable(1), dispatch(1, true));
    assert_eq!(Dispatch::Readable(128), dispatch(128, true));
    assert_eq!(Dispatch::Ignore, dispatch(0, false));
    assert_eq!(Dispatch::Ignore, dispatch(7, false));
}

#[test]
fn read_reports_what_the_socket_returned() {
    assert_eq!(ReadOutcome::WouldBlock, read_outcome(None));
    assert_eq!(ReadOutcome::Failed, read_outcome(Some(0)));
    assert_eq!(ReadOutcome::Ready, read_outcome(Some(1)));
    assert_eq!(ReadOutcome::Ready, read_outcome(Some(16384)));
    assert_eq!(ReadOutcome::Ready, read_outcome(Some(usize::MAX)));
}
