use nutt_web::modules::stream_reader::{FrameStep, StreamReader};

#[test]
fn request_without_body() {
    let mut reader = StreamReader::new();
    assert_eq!(reader.feed_line("GET / HTTP/1.1\r\n"), FrameStep::ReadLine);
    assert_eq!(reader.feed_line("Host: localhost\r\n"), FrameStep::ReadLine);
    assert_eq!(reader.feed_line("\r\n"), FrameStep::Done);
    assert_eq!(reader.content_length(), 0);
    assert_eq!(reader.into_text(), "GET / HTTP/1.1\r\nHost: localhost\r\n\r\n");
}

#[test]
fn request_with_body() {
    let mut reader = StreamReader::new();
    assert_eq!(reader.feed_line("POST /data HTTP/1.1\r\n"), FrameStep::ReadLine);
    assert_eq!(reader.feed_line("Content-Length: 11\r\n"), FrameStep::ReadLine);
    assert_eq!(reader.content_length(), 11);
    assert_eq!(reader.feed_line("\r\n"), FrameStep::ReadBody(11));
    reader.push_body(b"{\"num\": 42}");
    assert_eq!(
        reader.into_text(),
        "POST /data HTTP/1.1\r\nContent-Length: 11\r\n\r\n{\"num\": 42}"
    );
}

#[test]
fn lower_case_length_header_is_recognised() {
    let mut reader = StreamReader::new();
    reader.feed_line("POST / HTTP/1.1\r\n");
    assert_eq!(reader.feed_line("content-length:   7  \r\n"), FrameStep::ReadLine);
    assert_eq!(reader.content_length(), 7);
    assert_eq!(reader.feed_line("\r\n"), FrameStep::ReadBody(7));
}

#[test]
fn other_spellings_of_the_length_header_are_not() {
    let mut reader = StreamReader::new();
    reader.feed_line("POST / HTTP/1.1\r\n");
    assert_eq!(reader.feed_line("CONTENT-LENGTH: 7\r\n"), FrameStep::ReadLine);
    assert_eq!(reader.feed_line("Content-length: 7\r\n"), FrameStep::ReadLine);
    assert_eq!(reader.feed_line("Content-Length:7\r\n"), FrameStep::ReadLine);
    assert_eq!(reader.content_length(), 0);
    assert_eq!(reader.feed_line("\r\n"), FrameStep::Done);
}

#[test]
fn first_length_header_counts() {
    let mut reader = StreamReader::new();
    reader.feed_line("POST / HTTP/1.1\r\n");
    reader.feed_line("Content-Length: 3\r\n");
    assert_eq!(reader.feed_line("Content-Length: 9\r\n"), FrameStep::ReadLine);
    assert_eq!(reader.content_length(), 3);
    assert_eq!(reader.feed_line("\r\n"), FrameStep::ReadBody(3));
}

#[test]
fn upper_case_name_goes_before_lower_case_name() {
    let mut reader = StreamReader::new();
    reader.feed_line("POST / HTTP/1.1\r\n");
    reader.feed_line("content-length: 3\r\n");
    assert_eq!(reader.content_length(), 3);
    reader.feed_line("Content-Length: 9\r\n");
    assert_eq!(reader.content_length(), 9);
}

#[test]
fn length_that_is_no_number_is_rejected() {
    let mut reader = StreamReader::new();
    reader.feed_line("POST / HTTP/1.1\r\n");
    assert_eq!(reader.feed_line("Content-Length: ten\r\n"), FrameStep::Reject);
    assert_eq!(reader.content_length(), 0);
    let mut reader = StreamReader::new();
    assert_eq!(reader.feed_line("Content-Length: \r\n"), FrameStep::Reject);
    let mut reader = StreamReader::new();
    assert_eq!(reader.feed_line("Content-Length: -1\r\n"), FrameStep::Reject);
    let mut reader = StreamReader::new();
    assert_eq!(
        reader.feed_line("Content-Length: 99999999999999999999999999\r\n"),
        FrameStep::Reject
    );
}

#[test]
fn length_with_a_plus_sign_is_a_number() {
    let mut reader = StreamReader::new();
    assert_eq!(reader.feed_line("Content-Length: +12\r\n"), FrameStep::ReadLine);
    assert_eq!(reader.content_length(), 12);
}

#[test]
fn length_header_counts_once_its_line_is_closed() {
    let mut reader = StreamReader::new();
    assert_eq!(reader.feed_line("Content-Length: 5\n"), FrameStep::ReadLine);
    assert_eq!(reader.content_length(), 0);
    let mut reader = StreamReader::new();
    assert_eq!(reader.feed_line("Content-Length: 5"), FrameStep::ReadLine);
    assert_eq!(reader.content_length(), 0);
    assert_eq!(reader.feed_line("0\r\n"), FrameStep::ReadLine);
    assert_eq!(reader.content_length(), 50);
}

#[test]
fn bare_line_end_closes_the_headers_wherever_it_comes() {
    let mut reader = StreamReader::new();
    assert_eq!(reader.feed_line("\r\n"), FrameStep::Done);
    let mut reader = StreamReader::new();
    reader.feed_line("GET / HTTP/1.1\n");
    assert_eq!(reader.feed_line("\r\n"), FrameStep::Done);
}

#[test]
fn line_feed_alone_does_not_close_the_headers() {
    let mut reader = StreamReader::new();
    reader.feed_line("GET / HTTP/1.1\r\n");
    assert_eq!(reader.feed_line("\n"), FrameStep::ReadLine);
    assert_eq!(reader.feed_line(""), FrameStep::ReadLine);
    assert_eq!(reader.feed_line("\r\n"), FrameStep::Done);
}

#[test]
fn end_of_input_closes_the_headers() {
    let mut reader = StreamReader::new();
    assert_eq!(reader.end_of_input(), FrameStep::Done);
    reader.feed_line("POST / HTTP/1.1\r\n");
    reader.feed_line("Content-Length: 4\r\n");
    assert_eq!(reader.end_of_input(), FrameStep::ReadBody(4));
}

#[test]
fn body_that_is_no_utf8_is_replaced() {
    let mut reader = StreamReader::new();
    reader.feed_line("POST / HTTP/1.1\r\n");
    reader.push_body(&[b'a', 0xff, b'b', 0xe2, 0x82]);
    assert_eq!(reader.into_text(), "POST / HTTP/1.1\r\na\u{fffd}b\u{fffd}");
}

#[test]
fn body_of_several_bytes_per_character() {
    let mut reader = StreamReader::new();
    reader.push_body("\"\u{e9}\u{20ac}\"".as_bytes());
    assert_eq!(reader.into_text(), "\"\u{e9}\u{20ac}\"");
}

#[test]
fn new_reader_has_seen_nothing() {
    let reader = StreamReader::new();
    assert_eq!(reader.content_length(), 0);
    assert_eq!(reader.into_text(), "");
}
