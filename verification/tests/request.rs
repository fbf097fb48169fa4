use wwwdaanlubbersnl::request::RequestType;
use wwwdaanlubbersnl::request::bytes_equal;
use wwwdaanlubbersnl::request::parse_method;
use wwwdaanlubbersnl::request::parse_request_line;

#[test]
fn parse_well_formed_lines() {
    let (m, path) = parse_request_line(b"GET / HTTP/1.1").unwrap();
    assert_eq!(m, RequestType::GET);
    assert_eq!(path, b"/");

    let (m, path) = parse_request_line(b"POST /submit HTTP/1.1").unwrap();
    assert_eq!(m, RequestType::POST);
    assert_eq!(path, b"/submit");

    let (m, path) = parse_request_line(b"PUT /things/7 HTTP/1.1").unwrap();
    assert_eq!(m, RequestType::PUT);
    assert_eq!(path, b"/things/7");

    let (m, path) = parse_request_line(b"DELETE /things/7 HTTP/1.1").unwrap();
    assert_eq!(m, RequestType::DELETE);
    assert_eq!(path, b"/things/7");
}

#[test]
fn parse_accepts_two_tokens_without_version() {
    let (m, path) = parse_request_line(b"GET /x").unwrap();
    assert_eq!(m, RequestType::GET);
    assert_eq!(path, b"/x");
}

#[test]
fn parse_tolerates_extra_whitespace() {
    let (m, path) = parse_request_line(b"  GET \t /spaced   HTTP/1.1  ").unwrap();
    assert_eq!(m, RequestType::GET);
    assert_eq!(path, b"/spaced");

    let (m, path) = parse_request_line(b"GET /trailing HTTP/1.1\r").unwrap();
    assert_eq!(m, RequestType::GET);
    assert_eq!(path, b"/trailing");
}

#[test]
fn parse_rejects_short_lines() {
    assert!(parse_request_line(b"").is_none());
    assert!(parse_request_line(b"   ").is_none());
    assert!(parse_request_line(b"GET").is_none());
    assert!(parse_request_line(b"  GET  ").is_none());
}

#[test]
fn parse_rejects_unknown_methods() {
    assert!(parse_request_line(b"FOO / HTTP/1.1").is_none());
    assert!(parse_request_line(b"get / HTTP/1.1").is_none());
    assert!(parse_request_line(b"GETX / HTTP/1.1").is_none());
}

#[test]
fn parse_method_names_each_method() {
    assert_eq!(parse_method(b"GET"), Some(RequestType::GET));
    assert_eq!(parse_method(b"POST"), Some(RequestType::POST));
    assert_eq!(parse_method(b"PUT"), Some(RequestType::PUT));
    assert_eq!(parse_method(b"DELETE"), Some(RequestType::DELETE));
    assert_eq!(parse_method(b"HEAD"), None);
    assert_eq!(parse_method(b""), None);
}

#[test]
fn bytes_equal_compares_contents() {
    assert!(bytes_equal(b"abc", b"abc"));
    assert!(bytes_equal(b"", b""));
    assert!(!bytes_equal(b"abc", b"abd"));
    assert!(!bytes_equal(b"abc", b"ab"));
}
