use intercept::http_request;
use intercept::HTTPRequest;

fn request(method: &str, target: &str, headers: &[(&str, &str)], body: &[u8]) -> HTTPRequest {
    HTTPRequest {
        method: String::from(method),
        target: String::from(target),
        version: String::from("HTTP/1.1"),
        headers: headers.iter().map(|(n, v)| (String::from(*n), String::from(*v))).collect(),
        body: body.to_vec(),
    }
}

#[test]
fn http_request_http_get_request() {
    let request = "GET /AAAA HTTP/1.1\r\nUser-Agent: curl\r\n\r\n";
    let parsed = http_request::HTTPRequest::new(request.as_bytes()).unwrap();
    let expected = http_request::HTTPRequest {
        method: String::from("GET"),
        target: String::from("/AAAA"),
        version: String::from("HTTP/1.1"),
        headers: vec![(String::from("User-Agent"), String::from("curl"))],
        body: Vec::new(),
    };
    assert_eq!(parsed, expected)
}

#[test]
fn http_request_http_post_request() {
    let request = "POST / HTTP/1.1\r\nUser-Agent: curl\r\n\r\nAAAA=BBBB";
    let parsed = http_request::HTTPRequest::new(request.as_bytes()).unwrap();
    let expected = http_request::HTTPRequest {
        method: String::from("POST"),
        target: String::from("/"),
        version: String::from("HTTP/1.1"),
        headers: vec![(String::from("User-Agent"), String::from("curl"))],
        body: "AAAA=BBBB".as_bytes().to_vec(),
    };
    assert_eq!(parsed, expected)
}

#[test]
fn lib_http_get_request() {
    let request = "GET /AAAA HTTP/1.1\r\nUser-Agent: curl\r\n\r\n";
    let parsed = HTTPRequest::new(request.as_bytes()).unwrap();
    let expected = HTTPRequest {
        method: String::from("GET"),
        target: String::from("/AAAA"),
        version: String::from("HTTP/1.1"),
        headers: vec![(String::from("User-Agent"), String::from("curl"))],
        body: Vec::new(),
    };
    assert_eq!(parsed, expected)
}

#[test]
fn lib_http_post_request() {
    let request = "POST / HTTP/1.1\r\nUser-Agent: curl\r\n\r\nAAAA=BBBB";
    let parsed = HTTPRequest::new(request.as_bytes()).unwrap();
    let expected = HTTPRequest {
        method: String::from("POST"),
        target: String::from("/"),
        version: String::from("HTTP/1.1"),
        headers: vec![(String::from("User-Agent"), String::from("curl"))],
        body: "AAAA=BBBB".as_bytes().to_vec(),
    };
    assert_eq!(parsed, expected)
}

#[test]
fn empty_input_has_no_request_line() {
    assert_eq!(HTTPRequest::new(b""), None);
}

#[test]
fn fewer_than_three_tokens_fail() {
    assert_eq!(HTTPRequest::new(b"GET /\r\n\r\n"), None);
    assert_eq!(HTTPRequest::new(b"GET\r\n\r\n"), None);
    assert_eq!(HTTPRequest::new(b"\r\n\r\n"), None);
}

#[test]
fn tokens_behind_the_third_are_ignored() {
    let parsed = HTTPRequest::new(b"GET / HTTP/1.1 extra words\r\n\r\n").unwrap();
    assert_eq!(parsed, request("GET", "/", &[], b""));
}

#[test]
fn two_spaces_make_an_empty_token() {
    let parsed = HTTPRequest::new(b"GET  / HTTP/1.1\r\n\r\n").unwrap();
    assert_eq!(parsed.method, "GET");
    assert_eq!(parsed.target, "");
    assert_eq!(parsed.version, "/");
}

#[test]
fn request_line_is_trimmed_before_it_is_split() {
    let parsed = HTTPRequest::new(b"  \tGET / HTTP/1.1 \r\n\r\n").unwrap();
    assert_eq!(parsed, request("GET", "/", &[], b""));
}

#[test]
fn request_line_must_be_utf8() {
    assert_eq!(HTTPRequest::new(b"GET /\xFF HTTP/1.1\r\n\r\n"), None);
}

#[test]
fn request_line_may_hold_any_utf8() {
    let parsed = HTTPRequest::new("GET /caf\u{e9}/\u{20ac} HTTP/1.1\r\n\r\n".as_bytes()).unwrap();
    assert_eq!(parsed.target, "/caf\u{e9}/\u{20ac}");
    assert_eq!(parsed.target.chars().count(), 7);
}

#[test]
fn header_without_colon_fails() {
    assert_eq!(HTTPRequest::new(b"GET / HTTP/1.1\r\nUser-Agent curl\r\n\r\n"), None);
}

#[test]
fn header_must_be_utf8() {
    assert_eq!(HTTPRequest::new(b"GET / HTTP/1.1\r\nUser-Agent: c\xC3\r\n\r\n"), None);
    assert_eq!(HTTPRequest::new(b"GET / HTTP/1.1\r\nUser\x80: curl\r\n\r\n"), None);
}

#[test]
fn header_is_split_at_its_first_colon() {
    let parsed = HTTPRequest::new(b"GET / HTTP/1.1\r\nHost: localhost:7878\r\n\r\n").unwrap();
    assert_eq!(parsed, request("GET", "/", &[("Host", "localhost:7878")], b""));
}

#[test]
fn header_name_and_value_are_trimmed() {
    let parsed = HTTPRequest::new(b"GET / HTTP/1.1\r\n  Accept \t:   */*  \r\n\r\n").unwrap();
    assert_eq!(parsed, request("GET", "/", &[("Accept", "*/*")], b""));
}

#[test]
fn unicode_white_space_is_trimmed() {
    let parsed =
        HTTPRequest::new("GET / HTTP/1.1\r\nX:\u{a0}\u{3000}v\u{2003}\r\n\r\n".as_bytes()).unwrap();
    assert_eq!(parsed, request("GET", "/", &[("X", "v")], b""));
}

#[test]
fn headers_keep_order_and_case() {
    let parsed =
        HTTPRequest::new(b"GET / HTTP/1.1\r\nb: 2\r\nA: 1\r\nb: 3\r\n\r\n").unwrap();
    assert_eq!(parsed, request("GET", "/", &[("b", "2"), ("A", "1"), ("b", "3")], b""));
}

#[test]
fn empty_header_value_is_kept() {
    let parsed = HTTPRequest::new(b"GET / HTTP/1.1\r\nX-Empty:\r\n\r\n").unwrap();
    assert_eq!(parsed, request("GET", "/", &[("X-Empty", "")], b""));
}

#[test]
fn bare_line_feeds_end_lines_too() {
    let parsed = HTTPRequest::new(b"GET / HTTP/1.1\nHost: a\n\nbody").unwrap();
    assert_eq!(parsed, request("GET", "/", &[("Host", "a")], b"body"));
}

#[test]
fn body_keeps_its_line_feeds() {
    let parsed = HTTPRequest::new(b"POST / HTTP/1.1\r\n\r\nline one\nline two\r\n\n").unwrap();
    assert_eq!(parsed, request("POST", "/", &[], b"line one\nline two\r\n\n"));
}

#[test]
fn body_is_not_checked_for_utf8() {
    let parsed = HTTPRequest::new(b"POST / HTTP/1.1\r\n\r\n\xFF\xFE\x00").unwrap();
    assert_eq!(parsed.body, vec![0xFF, 0xFE, 0x00]);
}

#[test]
fn bad_line_behind_the_headers_is_body() {
    let parsed = HTTPRequest::new(b"GET / HTTP/1.1\r\n\r\nno colon here").unwrap();
    assert_eq!(parsed.body, b"no colon here".to_vec());
}

#[test]
fn headers_may_run_to_the_end() {
    let parsed = HTTPRequest::new(b"GET / HTTP/1.1\r\nHost: a").unwrap();
    assert_eq!(parsed, request("GET", "/", &[("Host", "a")], b""));
    let parsed = HTTPRequest::new(b"GET / HTTP/1.1").unwrap();
    assert_eq!(parsed, request("GET", "/", &[], b""));
}

#[test]
fn properties_of_a_request() {
    let parsed = HTTPRequest::new(b"POST /x HTTP/1.1\r\nUser-Agent: curl\r\nA: b\r\n\r\nAAAA=BBBB")
        .unwrap();
    let expected: Vec<(String, String)> = [
        ("method", "POST"),
        ("target", "/x"),
        ("version", "HTTP/1.1"),
        ("User-Agent", "curl"),
        ("A", "b"),
        ("message body length", "9 bytes"),
    ]
    .iter()
    .map(|(n, v)| (String::from(*n), String::from(*v)))
    .collect();
    assert_eq!(parsed.properties(), expected);
}

#[test]
fn properties_of_an_empty_body() {
    let parsed = HTTPRequest::new(b"GET / HTTP/1.1\r\n\r\n").unwrap();
    let properties = parsed.properties();
    assert_eq!(properties.len(), 4);
    assert_eq!(properties[3], (String::from("message body length"), String::from("0 bytes")));
}

#[test]
fn decoding_twice_gives_the_same_request() {
    let data = b"POST / HTTP/1.1\r\nUser-Agent: curl\r\n\r\nAAAA=BBBB";
    assert_eq!(HTTPRequest::new(data), HTTPRequest::new(data));
    let bad = b"POST /";
    assert_eq!(HTTPRequest::new(bad), HTTPRequest::new(bad));
}
