use wwwdaanlubbersnl::response::StatusCode;
use wwwdaanlubbersnl::response::encode_empty;
use wwwdaanlubbersnl::response::encode_page;
use wwwdaanlubbersnl::response::encode_redirect;
use wwwdaanlubbersnl::response::format_decimal;

#[test]
fn status_lines_are_exact() {
    assert_eq!(StatusCode::OK.status_line(), "HTTP/1.1 200 OK");
    assert_eq!(StatusCode::NotFound.status_line(), "HTTP/1.1 404 NOT FOUND");
    assert_eq!(
        StatusCode::InternalServerError.status_line(),
        "HTTP/1.1 500 INTERNAL SERVER ERROR"
    );
    assert_eq!(
        StatusCode::PermanentRedirect.status_line(),
        "HTTP/1.1 301 PERMANENT REDIRECT"
    );
}

#[test]
fn format_decimal_renders_exact_digits() {
    assert_eq!(format_decimal(0), b"0");
    assert_eq!(format_decimal(7), b"7");
    assert_eq!(format_decimal(10), b"10");
    assert_eq!(format_decimal(55), b"55");
    assert_eq!(format_decimal(144), b"144");
    assert_eq!(format_decimal(10_000), b"10000");
    assert_eq!(format_decimal(65_535), b"65535");
}

#[test]
fn encode_page_counts_body_bytes() {
    let reply = encode_page(StatusCode::OK, b"abc");
    assert_eq!(reply, b"HTTP/1.1 200 OK\r\nContent-Length: 3\r\n\r\nabc");
}

#[test]
fn encode_page_counts_binary_bytes_not_text() {
    let body: [u8; 4] = [0xff, 0x00, 0x01, 0x80];
    let reply = encode_page(StatusCode::OK, &body);
    let mut expected: Vec<u8> = b"HTTP/1.1 200 OK\r\nContent-Length: 4\r\n\r\n".to_vec();
    expected.extend_from_slice(&body);
    assert_eq!(reply, expected);
}

#[test]
fn encode_empty_is_page_with_empty_body() {
    assert_eq!(
        encode_empty(StatusCode::NotFound),
        encode_page(StatusCode::NotFound, b"")
    );
    assert_eq!(
        encode_empty(StatusCode::NotFound),
        b"HTTP/1.1 404 NOT FOUND\r\nContent-Length: 0\r\n\r\n"
    );
    assert_eq!(
        encode_empty(StatusCode::InternalServerError),
        b"HTTP/1.1 500 INTERNAL SERVER ERROR\r\nContent-Length: 0\r\n\r\n"
    );
}

#[test]
fn encode_redirect_names_the_target() {
    let reply = encode_redirect(StatusCode::PermanentRedirect, "https://example.com");
    assert_eq!(
        reply,
        b"HTTP/1.1 301 PERMANENT REDIRECT\r\nLocation: https://example.com\r\nContent-Length: 0\r\n\r\n".to_vec()
    );
}
