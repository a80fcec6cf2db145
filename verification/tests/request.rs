use minihttp::frame::{RawFrame, MAX_REQUEST_SIZE};
use minihttp::request::{parse, parse_request_line, parse_text, Request, DEFAULT_PATH};

fn parse_bytes(data: &[u8]) -> Request {
    parse(&RawFrame::capture(data, MAX_REQUEST_SIZE))
}

fn line(method: &str, path: &str) -> (String, String) {
    (method.to_string(), path.to_string())
}

#[test]
fn default_path_is_the_root() {
    assert_eq!(DEFAULT_PATH, "/");
}

#[test]
fn parse_reads_method_path_and_body() {
    let req = parse_bytes(b"POST /order HTTP/1.1\r\nContent-Length: 2\r\n\r\n{}");
    assert_eq!(req.method, "POST");
    assert_eq!(req.path, "/order");
    assert_eq!(req.header_end, 39);
    assert_eq!(req.body, b"{}");
}

#[test]
fn parse_of_a_request_without_body() {
    let req = parse_bytes(b"GET /health HTTP/1.1\r\nHost: x\r\n\r\n");
    assert_eq!(
        req,
        Request {
            method: "GET".to_string(),
            path: "/health".to_string(),
            header_end: 29,
            body: Vec::new(),
        }
    );
}

#[test]
fn parse_without_blank_line_has_no_body() {
    let req = parse_bytes(b"GET /metrics HTTP/1.1\r\nHost: x\r\n");
    assert_eq!(req.method, "GET");
    assert_eq!(req.path, "/metrics");
    assert_eq!(req.header_end, 32);
    assert_eq!(req.body, b"");
}

#[test]
fn parse_of_the_empty_frame_gives_the_defaults() {
    let req = parse_bytes(b"");
    assert_eq!(req.method, "");
    assert_eq!(req.path, "/");
    assert_eq!(req.header_end, 0);
    assert_eq!(req.body, b"");
}

#[test]
fn parse_of_an_empty_request_line_gives_the_defaults() {
    let req = parse_bytes(b"\r\nGET /health HTTP/1.1\r\n\r\n");
    assert_eq!(req.method, "");
    assert_eq!(req.path, "/");
}

#[test]
fn parse_of_a_blank_request_line_gives_the_defaults() {
    let req = parse_bytes(b"  \t \r\nHost: x\r\n\r\n");
    assert_eq!(req.method, "");
    assert_eq!(req.path, "/");
}

#[test]
fn parse_without_path_defaults_the_path() {
    let req = parse_bytes(b"DELETE\r\n\r\n");
    assert_eq!(req.method, "DELETE");
    assert_eq!(req.path, "/");
}

#[test]
fn parse_ignores_the_protocol_version() {
    let with = parse_bytes(b"GET /a HTTP/1.1\r\n\r\n");
    let other = parse_bytes(b"GET /a HTTP/9.9 and more\r\n\r\n");
    let without = parse_bytes(b"GET /a\r\n\r\n");
    assert_eq!((with.method.as_str(), with.path.as_str()), ("GET", "/a"));
    assert_eq!((other.method.as_str(), other.path.as_str()), ("GET", "/a"));
    assert_eq!((without.method.as_str(), without.path.as_str()), ("GET", "/a"));
}

#[test]
fn parse_replaces_invalid_utf8() {
    let req = parse_bytes(b"GET /\xff\xfe HTTP/1.1\r\n\r\n");
    assert_eq!(req.method, "GET");
    assert_eq!(req.path, "/\u{FFFD}\u{FFFD}");
}

#[test]
fn parse_of_binary_garbage_still_gives_a_request() {
    let req = parse_bytes(&[0x00, 0xff, 0x80, 0x20, 0xc3, 0x28, 0x0d, 0x0a, 0x01]);
    assert_eq!(req.method, "\u{0}\u{FFFD}\u{FFFD}");
    assert_eq!(req.path, "\u{FFFD}(");
    assert_eq!(req.header_end, 9);
    assert_eq!(req.body, b"");
}

#[test]
fn parse_keeps_multibyte_characters() {
    let req = parse_bytes("GET /caf\u{e9}/\u{4e2d} HTTP/1.1\r\n\r\n".as_bytes());
    assert_eq!(req.path, "/caf\u{e9}/\u{4e2d}");
}

#[test]
fn parse_body_is_taken_from_the_frame_as_it_is() {
    let req = parse_bytes(b"POST / HTTP/1.1\r\n\r\n\xff\x00\r\n\r\n\xfe");
    assert_eq!(req.header_end, 15);
    assert_eq!(req.body, b"\xff\x00\r\n\r\n\xfe");
}

#[test]
fn parse_header_end_counts_bytes_of_the_frame() {
    let req = parse_bytes(b"GET /\xff HTTP/1.1\r\n\r\nx");
    assert_eq!(req.path, "/\u{FFFD}");
    assert_eq!(req.header_end, 15);
    assert_eq!(req.body, b"x");
}

#[test]
fn request_line_ends_at_crlf_only() {
    let req = parse_bytes(b"GET\n/health HTTP/1.1\r\n\r\n");
    assert_eq!(req.method, "GET");
    assert_eq!(req.path, "/health");
    let req = parse_bytes(b"GET\r\n/health HTTP/1.1\r\n\r\n");
    assert_eq!(req.method, "GET");
    assert_eq!(req.path, "/");
}

#[test]
fn parse_request_line_splits_on_any_white_space() {
    assert_eq!(parse_request_line("GET /a HTTP/1.1"), line("GET", "/a"));
    assert_eq!(parse_request_line("  GET\t\t/a  "), line("GET", "/a"));
    assert_eq!(parse_request_line("GET\u{A0}/a"), line("GET", "/a"));
    assert_eq!(parse_request_line("GET\u{3000}/a\u{2003}x"), line("GET", "/a"));
}

#[test]
fn parse_request_line_defaults() {
    assert_eq!(parse_request_line(""), line("", "/"));
    assert_eq!(parse_request_line("   "), line("", "/"));
    assert_eq!(parse_request_line("GET"), line("GET", "/"));
    assert_eq!(parse_request_line(" GET "), line("GET", "/"));
}

#[test]
fn parse_request_line_is_case_preserving() {
    assert_eq!(parse_request_line("get /Health"), line("get", "/Health"));
}

#[test]
fn parse_text_takes_the_line_from_the_text_and_the_body_from_the_bytes() {
    let req = parse_text("PUT /x HTTP/1.1\r\nA: b\r\n\r\nignored", b"zz\r\n\r\nbody");
    assert_eq!(req.method, "PUT");
    assert_eq!(req.path, "/x");
    assert_eq!(req.header_end, 2);
    assert_eq!(req.body, b"body");
}

#[test]
fn parse_text_without_crlf_reads_the_whole_text_as_the_line() {
    let req = parse_text("GET /only", b"GET /only");
    assert_eq!(req.method, "GET");
    assert_eq!(req.path, "/only");
    assert_eq!(req.header_end, 9);
    assert_eq!(req.body, b"");
}
