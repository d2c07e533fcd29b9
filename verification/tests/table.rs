use http_reactor::connection::{Action, CloseReason, ReadOutcome};
use http_reactor::method::HttpMethod;
use http_reactor::table::{ConnectionTable, FIRST_SLOT, SLOTS};

/// One read that puts `bytes` into the buffer of the connection in `token`.
fn read(table: &mut ConnectionTable, token: usize, bytes: &[u8]) -> Action {
    let mut buffer = table.take_buffer(token).expect("a buffer in write mode");
    assert_eq!(bytes.len(), buffer.write_slice(bytes));
    table.conn_readable(token, buffer, ReadOutcome::Ready).expect("a connection")
}

#[test]
fn new_table_holds_no_connection() {
    let mut table = ConnectionTable::new();
    assert!(table.conn(0).is_none());
    assert!(table.conn(1).is_none());
    assert!(table.conn(128).is_none());
    assert!(table.conn(129).is_none());
    assert!(table.conn(usize::MAX).is_none());
    assert!(table.take_buffer(1).is_none());
    assert!(table.resume(1).is_none());
    assert!(!table.close(1));
    assert!(!table.close(0));
    assert!(!table.close(usize::MAX));
}

#[test]
fn accepted_connection_knows_its_slot() {
    let mut table = ConnectionTable::new();
    let first = table.accept().expect("an empty slot");
    let second = table.accept().expect("an empty slot");
    assert_eq!(1, first);
    assert_eq!(2, second);
    assert_eq!(Some(first), table.conn(first).unwrap().token());
    assert_eq!(Some(second), table.conn(second).unwrap().token());
    assert!(table.conn(3).is_none());
}

#[test]
fn table_takes_as_many_connections_as_it_has_slots() {
    let mut table = ConnectionTable::new();
    let mut seen = vec![false; FIRST_SLOT + SLOTS];
    for _ in 0..SLOTS {
        let token = table.accept().expect("an empty slot");
        assert!(FIRST_SLOT <= token && token < FIRST_SLOT + SLOTS);
        assert!(!seen[token]);
        seen[token] = true;
    }
    assert_eq!(None, table.accept());
    assert_eq!(None, table.accept());
    assert!(table.close(77));
    assert!(!table.close(77));
    assert_eq!(Some(77), table.accept());
    assert_eq!(Some(77), table.conn(77).unwrap().token());
    assert_eq!(None, table.accept());
}

#[test]
fn closed_slot_is_given_out_again_with_a_new_connection() {
    let mut table = ConnectionTable::new();
    for _ in 0..SLOTS {
        table.accept().expect("an empty slot");
    }
    let token = 5;
    assert!(matches!(read(&mut table, token, b"GET /half"), Action::Rearm));
    assert!(table.close(token));
    assert!(table.conn(token).is_none());
    assert!(table.take_buffer(token).is_none());

    assert_eq!(Some(token), table.accept());
    match read(&mut table, token, b"PUT /whole HTTP\n\n") {
        Action::Deliver(request) => {
            assert_eq!(HttpMethod::PUT, request.method);
            assert_eq!("/whole", request.path);
        }
        _ => panic!("Expected Deliver"),
    }
}

#[test]
fn events_reach_the_connection_of_their_slot_only() {
    let mut table = ConnectionTable::new();
    let a = table.accept().expect("an empty slot");
    let b = table.accept().expect("an empty slot");
    assert!(matches!(read(&mut table, a, b"GET /a"), Action::Rearm));
    assert!(matches!(read(&mut table, b, b"POST /b"), Action::Rearm));
    match read(&mut table, a, b"a HTTP\n\n") {
        Action::Deliver(request) => {
            assert_eq!(HttpMethod::GET, request.method);
            assert_eq!("/aa", request.path);
        }
        _ => panic!("Expected Deliver"),
    }
    match read(&mut table, b, b"b HTTP\n\nDELETE /c HTTP\n\n") {
        Action::Deliver(request) => {
            assert_eq!(HttpMethod::POST, request.method);
            assert_eq!("/bb", request.path);
        }
        _ => panic!("Expected Deliver"),
    }
    assert!(matches!(table.resume(a), Some(Action::Rearm)));
    match table.resume(b) {
        Some(Action::Deliver(request)) => {
            assert_eq!(HttpMethod::DELETE, request.method);
            assert_eq!("/c", request.path);
        }
        _ => panic!("Expected Deliver"),
    }
}

#[test]
fn read_for_a_slot_without_connection_does_nothing() {
    let mut table = ConnectionTable::new();
    let token = table.accept().expect("an empty slot");
    let buffer = table.take_buffer(token).expect("a buffer in write mode");
    assert!(table.conn_readable(token + 1, buffer, ReadOutcome::Ready).is_none());
    assert!(table.take_buffer(token).is_none());
    assert_eq!(Some(token), table.conn(token).unwrap().token());
}

#[test]
fn failed_read_asks_for_the_connection_to_be_closed() {
    let mut table = ConnectionTable::new();
    let token = table.accept().expect("an empty slot");
    let buffer = table.take_buffer(token).expect("a buffer in write mode");
    assert!(matches!(
        table.conn_readable(token, buffer, ReadOutcome::Failed),
        Some(Action::Close(CloseReason::Io))
    ));
    assert!(table.close(token));
}
