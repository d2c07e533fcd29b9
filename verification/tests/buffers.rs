use bytes::{Buf, ByteBuf};
use http_reactor::method::HttpMethod;
use http_reactor::request::{HttpRequestBuilder, HttpResult};

#[test]
fn complete_request_leaves_the_buffer_at_the_byte_after_it() {
    let buffer = ByteBuf::from_slice(b"GET /a HTTP\n\nPOST /b");
    match HttpRequestBuilder::new().parse(buffer) {
        Ok(HttpResult::Http1Request { buffer, request }) => {
            assert_eq!(HttpMethod::GET, request.method);
            assert_eq!("/a", request.path);
            assert_eq!(7, buffer.remaining());
            assert_eq!(b"POST /b", buffer.bytes());
        }
        _ => panic!("Expected Http1Request"),
    }
}

#[test]
fn complete_request_at_the_end_of_the_buffer_leaves_nothing_unread() {
    let buffer = ByteBuf::from_slice(b"GET /a HTTP\n\n");
    match HttpRequestBuilder::new().parse(buffer) {
        Ok(HttpResult::Http1Request { buffer, .. }) => assert_eq!(0, buffer.remaining()),
        _ => panic!("Expected Http1Request"),
    }
}

#[test]
fn upgrade_leaves_the_rest_of_the_preface_unread() {
    let buffer = ByteBuf::from_slice(b"PRI * HTTP/2.0\r\n\r\nSM\r\n\r\n");
    match HttpRequestBuilder::new().parse(buffer) {
        Ok(HttpResult::Http2Upgrade { buffer, request }) => {
            assert_eq!(HttpMethod::HTTP2, request.method);
            assert_eq!("*", request.path);
            assert_eq!(b"SM\r\n\r\n", buffer.bytes());
        }
        _ => panic!("Expected Http2Upgrade"),
    }
}

#[test]
fn incomplete_request_hands_back_an_empty_buffer_in_write_mode() {
    let mut buffer = ByteBuf::mut_with_capacity(64);
    buffer.write_slice(b"GET /index");
    match HttpRequestBuilder::new().parse(buffer.flip()) {
        Ok(HttpResult::Http1Incomplete { mut buffer, request_builder }) => {
            assert_eq!(0, buffer.bytes().len());
            assert_eq!(6, buffer.write_slice(b".html "));
            assert_eq!(b".html ", buffer.bytes());
            match request_builder.parse(buffer.flip()) {
                Ok(HttpResult::Http1Incomplete { request_builder, .. }) => {
                    assert_eq!("/index.html", request_builder.path().unwrap());
                }
                _ => panic!("Expected Http1Incomplete"),
            }
        }
        _ => panic!("Expected Http1Incomplete"),
    }
}

#[test]
fn buffer_without_bytes_leaves_the_builder_as_it_was() {
    let first = ByteBuf::from_slice(b"GET /a");
    let builder = match HttpRequestBuilder::new().parse(first) {
        Ok(HttpResult::Http1Incomplete { request_builder, .. }) => request_builder,
        _ => panic!("Expected Http1Incomplete"),
    };
    let builder = match builder.parse(ByteBuf::from_slice(b"")) {
        Ok(HttpResult::Http1Incomplete { request_builder, .. }) => request_builder,
        _ => panic!("Expected Http1Incomplete"),
    };
    let builder = match builder.parse(ByteBuf::mut_with_capacity(16).flip()) {
        Ok(HttpResult::Http1Incomplete { request_builder, .. }) => request_builder,
        _ => panic!("Expected Http1Incomplete"),
    };
    match builder.parse(ByteBuf::from_slice(b"b HTTP\n\n")) {
        Ok(HttpResult::Http1Request { request, .. }) => assert_eq!("/ab", request.path),
        _ => panic!("Expected Http1Request"),
    }
}
