use minihttp::frame::{find_blank_line, split_body, RawFrame, MAX_REQUEST_SIZE};

#[test]
fn max_request_size_is_eight_kibibytes() {
    assert_eq!(MAX_REQUEST_SIZE, 8192);
}

#[test]
fn capture_keeps_a_read_that_fits() {
    let frame = RawFrame::capture(b"GET / HTTP/1.1\r\n\r\n", MAX_REQUEST_SIZE);
    assert_eq!(frame.as_bytes(), b"GET / HTTP/1.1\r\n\r\n");
    assert_eq!(frame.len(), 18);
    assert_eq!(frame.limit(), 8192);
    assert!(!frame.is_empty());
}

#[test]
fn capture_keeps_a_read_of_exactly_the_limit() {
    let data = vec![b'a'; 8192];
    let frame = RawFrame::capture(&data, MAX_REQUEST_SIZE);
    assert_eq!(frame.len(), 8192);
    assert_eq!(frame.as_bytes(), &data[..]);
}

#[test]
fn capture_truncates_to_exactly_the_limit() {
    let mut data = Vec::new();
    for i in 0..9000usize {
        data.push((i % 251) as u8);
    }
    let frame = RawFrame::capture(&data, MAX_REQUEST_SIZE);
    assert_eq!(frame.len(), 8192);
    assert_eq!(frame.as_bytes(), &data[..8192]);
}

#[test]
fn capture_truncates_to_a_small_limit() {
    let frame = RawFrame::capture(b"abcdef", 4);
    assert_eq!(frame.as_bytes(), b"abcd");
    assert_eq!(frame.limit(), 4);
}

#[test]
fn capture_under_a_limit_of_zero_is_empty() {
    let frame = RawFrame::capture(b"abcdef", 0);
    assert!(frame.is_empty());
    assert_eq!(frame.len(), 0);
}

#[test]
fn capture_of_nothing_is_the_empty_frame() {
    let frame = RawFrame::capture(b"", MAX_REQUEST_SIZE);
    assert!(frame.is_empty());
    assert_eq!(frame.header_end(), 0);
    assert_eq!(frame.body(), b"");
}

#[test]
fn header_end_is_at_the_first_blank_line() {
    let frame = RawFrame::capture(b"GET / HTTP/1.1\r\nHost: x\r\n\r\nbody", MAX_REQUEST_SIZE);
    assert_eq!(frame.header_end(), 23);
    assert_eq!(frame.body(), b"body");
}

#[test]
fn header_end_is_the_length_without_a_blank_line() {
    let frame = RawFrame::capture(b"GET / HTTP/1.1\r\nHost: x\r\n", MAX_REQUEST_SIZE);
    assert_eq!(frame.header_end(), 25);
    assert_eq!(frame.body(), b"");
}

#[test]
fn body_is_empty_when_the_frame_ends_with_the_blank_line() {
    let frame = RawFrame::capture(b"GET / HTTP/1.1\r\n\r\n", MAX_REQUEST_SIZE);
    assert_eq!(frame.header_end(), 14);
    assert_eq!(frame.body(), b"");
}

#[test]
fn body_starts_after_the_first_of_two_blank_lines() {
    let frame = RawFrame::capture(b"A\r\n\r\nB\r\n\r\nC", MAX_REQUEST_SIZE);
    assert_eq!(frame.header_end(), 1);
    assert_eq!(frame.body(), b"B\r\n\r\nC");
}

#[test]
fn blank_line_may_open_the_frame() {
    assert_eq!(find_blank_line(b"\r\n\r\nrest"), 0);
    assert_eq!(split_body(b"\r\n\r\nrest"), b"rest");
}

#[test]
fn short_input_has_no_blank_line() {
    assert_eq!(find_blank_line(b""), 0);
    assert_eq!(find_blank_line(b"\r"), 1);
    assert_eq!(find_blank_line(b"\r\n\r"), 3);
    assert_eq!(split_body(b"\r\n\r"), b"");
}

#[test]
fn line_feeds_alone_are_no_blank_line() {
    assert_eq!(find_blank_line(b"a\n\nb"), 4);
    assert_eq!(find_blank_line(b"a\r\n\nb"), 5);
    assert_eq!(find_blank_line(b"a\r\r\n\r\nb"), 2);
    assert_eq!(split_body(b"a\r\r\n\r\nb"), b"b");
}

#[test]
fn truncation_can_cut_the_body() {
    let mut data = b"POST /order HTTP/1.1\r\n\r\n".to_vec();
    data.extend(vec![b'x'; 9000]);
    let frame = RawFrame::capture(&data, MAX_REQUEST_SIZE);
    assert_eq!(frame.header_end(), 20);
    assert_eq!(frame.body().len(), 8192 - 24);
}
