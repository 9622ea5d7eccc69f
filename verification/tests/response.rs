use php_gateway::header::HeaderField;
use php_gateway::response::{
    collect_head, compose, parse_headers, parse_status, translate, BackendResponse, RawHeader,
};
use php_gateway::service::ServiceError;

fn answer(stdout: &[u8]) -> BackendResponse {
    BackendResponse { stdout: Some(stdout.to_vec()), stderr: None }
}

fn raw(name: &str, value: &[u8]) -> RawHeader {
    RawHeader { name: name.to_string(), value: value.to_vec() }
}

fn pairs(headers: &[HeaderField]) -> Vec<(String, Vec<u8>)> {
    headers.iter().map(|field| (field.name.clone(), field.value.clone())).collect()
}

#[test]
fn status_header_sets_the_status_and_is_not_forwarded() {
    let made = translate(answer(b"Status: 404 Not Found\r\nX-Foo: bar\r\n\r\nbody")).ok().unwrap();
    assert_eq!(made.status, 404);
    assert_eq!(pairs(&made.headers), vec![("x-foo".to_string(), b"bar".to_vec())]);
    assert_eq!(made.body, b"body".to_vec());
    assert!(made.headers.iter().all(|field| !field.name.eq_ignore_ascii_case("status")));
}

#[test]
fn repeated_headers_are_kept_in_order() {
    let made = translate(answer(b"Set-Cookie: a=1\r\nSet-Cookie: b=2\r\n\r\n")).ok().unwrap();
    assert_eq!(
        pairs(&made.headers),
        vec![
            ("set-cookie".to_string(), b"a=1".to_vec()),
            ("set-cookie".to_string(), b"b=2".to_vec()),
        ]
    );
    assert_eq!(made.status, 200);
    assert!(made.body.is_empty());
}

#[test]
fn status_defaults_to_200() {
    let made = translate(answer(b"Content-Type: text/html\r\n\r\n<p>hi</p>")).ok().unwrap();
    assert_eq!(made.status, 200);
    assert_eq!(pairs(&made.headers), vec![("content-type".to_string(), b"text/html".to_vec())]);
    assert_eq!(made.body, b"<p>hi</p>".to_vec());
}

#[test]
fn status_without_a_space_is_ignored() {
    let made = translate(answer(b"Status: 404\r\n\r\nx")).ok().unwrap();
    assert_eq!(made.status, 200);
    assert!(made.headers.is_empty());
}

#[test]
fn status_that_is_no_code_is_ignored() {
    let made = translate(answer(b"Status: abc def\r\n\r\n")).ok().unwrap();
    assert_eq!(made.status, 200);
    let made = translate(answer(b"Status: 99 low\r\n\r\n")).ok().unwrap();
    assert_eq!(made.status, 200);
    let made = translate(answer(b"Status: 0404 odd\r\n\r\n")).ok().unwrap();
    assert_eq!(made.status, 200);
}

#[test]
fn the_last_status_that_spells_a_code_wins() {
    let made = translate(answer(b"Status: 301 Moved\r\nStatus: junk\r\nStatus: 302 Found\r\n\r\n"))
        .ok()
        .unwrap();
    assert_eq!(made.status, 302);
    let made = translate(answer(b"Status: 301 Moved\r\nStatus: junk\r\n\r\n")).ok().unwrap();
    assert_eq!(made.status, 301);
}

#[test]
fn lower_case_status_is_an_ordinary_header() {
    let made = translate(answer(b"status: 404 Not Found\r\n\r\n")).ok().unwrap();
    assert_eq!(made.status, 200);
    assert_eq!(pairs(&made.headers), vec![("status".to_string(), b"404 Not Found".to_vec())]);
}

#[test]
fn unfinished_header_block_makes_the_whole_output_the_body() {
    let made = translate(answer(b"X-Foo: bar\r\nX-Cut-Sho")).ok().unwrap();
    assert_eq!(made.status, 200);
    assert_eq!(pairs(&made.headers), vec![("x-foo".to_string(), b"bar".to_vec())]);
    assert_eq!(made.body, b"X-Foo: bar\r\nX-Cut-Sho".to_vec());
}

#[test]
fn empty_output_is_an_empty_response() {
    let made = translate(answer(b"")).ok().unwrap();
    assert_eq!(made.status, 200);
    assert!(made.headers.is_empty());
    assert!(made.body.is_empty());
    let made = translate(BackendResponse { stdout: None, stderr: Some(b"warn".to_vec()) })
        .ok()
        .unwrap();
    assert_eq!(made.status, 200);
    assert!(made.headers.is_empty());
    assert!(made.body.is_empty());
}

#[test]
fn body_is_what_follows_the_blank_line() {
    let made = translate(answer(b"\r\nonly body")).ok().unwrap();
    assert!(made.headers.is_empty());
    assert_eq!(made.body, b"only body".to_vec());
    let made = translate(answer(b"A: b\n\nline\r\n\r\nmore")).ok().unwrap();
    assert_eq!(made.body, b"line\r\n\r\nmore".to_vec());
}

#[test]
fn malformed_header_block_is_an_error() {
    let failed = translate(answer(b"Bad Header: x\r\n\r\n"));
    assert!(matches!(failed, Err(ServiceError::Headers(httparse::Error::HeaderName))));
    let failed = translate(answer(b"X: a\x01b\r\n\r\n"));
    assert!(matches!(failed, Err(ServiceError::Headers(httparse::Error::HeaderValue))));
}

#[test]
fn more_than_64_headers_is_an_error() {
    let mut output = Vec::new();
    for i in 0..64 {
        output.extend_from_slice(format!("X-{}: v\r\n", i).as_bytes());
    }
    let mut full = output.clone();
    full.extend_from_slice(b"\r\n");
    let made = translate(answer(&full)).ok().unwrap();
    assert_eq!(made.headers.len(), 64);
    output.extend_from_slice(b"X-64: v\r\n\r\n");
    let failed = translate(answer(&output));
    assert!(matches!(failed, Err(ServiceError::Headers(httparse::Error::TooManyHeaders))));
}

#[test]
fn header_name_that_http_refuses_is_an_error() {
    let mut output = vec![b'a'; 70000];
    output.extend_from_slice(b": v\r\n\r\n");
    assert!(matches!(translate(answer(&output)), Err(ServiceError::HeaderName(_))));
    let slots = vec![raw("bad name", b"v")];
    assert!(matches!(collect_head(&slots), Err(ServiceError::HeaderName(_))));
}

#[test]
fn header_value_that_http_refuses_is_an_error() {
    let slots = vec![raw("X-Ok", b"fine"), raw("X-Bad", b"a\nb"), raw("bad name", b"v")];
    assert!(matches!(collect_head(&slots), Err(ServiceError::HeaderValue(_))));
    assert!(matches!(compose(&slots, Vec::new()), Err(ServiceError::HeaderValue(_))));
    let slots = vec![raw("X-Del", &[0x7f])];
    assert!(matches!(collect_head(&slots), Err(ServiceError::HeaderValue(_))));
}

#[test]
fn name_is_checked_before_value() {
    let slots = vec![raw("bad name", b"a\nb")];
    assert!(matches!(collect_head(&slots), Err(ServiceError::HeaderName(_))));
}

#[test]
fn values_may_hold_tabs_and_high_bytes() {
    let slots = vec![raw("X-Bin", &[0x09, 0x20, 0x80, 0xff])];
    let (status, headers) = collect_head(&slots).ok().unwrap();
    assert_eq!(status, 200);
    assert_eq!(pairs(&headers), vec![("x-bin".to_string(), vec![0x09, 0x20, 0x80, 0xff])]);
}

#[test]
fn empty_slots_are_skipped() {
    let slots = vec![raw("", b""), raw("A", b"1"), raw("", b"junk\n"), raw("B", b"2")];
    let made = compose(&slots, b"rest".to_vec()).ok().unwrap();
    assert_eq!(
        pairs(&made.headers),
        vec![("a".to_string(), b"1".to_vec()), ("b".to_string(), b"2".to_vec())]
    );
    assert_eq!(made.status, 200);
    assert_eq!(made.body, b"rest".to_vec());
}

#[test]
fn compose_takes_the_status_from_the_slots() {
    let slots = vec![raw("Status", b"503 Busy"), raw("Retry-After", b"5")];
    let made = compose(&slots, Vec::new()).ok().unwrap();
    assert_eq!(made.status, 503);
    assert_eq!(pairs(&made.headers), vec![("retry-after".to_string(), b"5".to_vec())]);
}

#[test]
fn parse_status_reads_three_digits_before_the_first_space() {
    assert_eq!(parse_status(&raw("Status", b"404 Not Found")), Some(404));
    assert_eq!(parse_status(&raw("Status", b"200 OK")), Some(200));
    assert_eq!(parse_status(&raw("Status", b"100 ")), Some(100));
    assert_eq!(parse_status(&raw("Status", b"999 x")), Some(999));
    assert_eq!(parse_status(&raw("Status", b"404")), None);
    assert_eq!(parse_status(&raw("Status", b" 404")), None);
    assert_eq!(parse_status(&raw("Status", b"099 x")), None);
    assert_eq!(parse_status(&raw("Status", b"40 4")), None);
    assert_eq!(parse_status(&raw("Status", b"4o4 x")), None);
    assert_eq!(parse_status(&raw("Status", b"")), None);
    assert_eq!(parse_status(&raw("Other", b"500 x")), Some(500));
}

#[test]
fn parse_headers_gives_offset_and_slots() {
    let (offset, slots) = parse_headers::<4>(b"Host: foo.bar\nAccept: */*\n\nblah blah").ok().unwrap();
    assert_eq!(offset, 27);
    assert_eq!(slots.len(), 4);
    assert_eq!(slots[0].name, "Host");
    assert_eq!(slots[0].value, b"foo.bar".to_vec());
    assert_eq!(slots[1].name, "Accept");
    assert_eq!(slots[1].value, b"*/*".to_vec());
    assert_eq!(slots[2].name, "");
    assert_eq!(slots[3].name, "");
}

#[test]
fn parse_headers_of_an_unfinished_block_starts_the_body_at_zero() {
    let (offset, slots) = parse_headers::<4>(b"Host: foo.bar\nAcc").ok().unwrap();
    assert_eq!(offset, 0);
    assert_eq!(slots.len(), 4);
    assert_eq!(slots[0].name, "Host");
    assert_eq!(slots[1].name, "");
}

#[test]
fn parse_headers_respects_its_limit() {
    let failed = parse_headers::<1>(b"A: 1\r\nB: 2\r\n\r\n");
    assert!(matches!(failed, Err(httparse::Error::TooManyHeaders)));
    let (offset, slots) = parse_headers::<2>(b"A: 1\r\nB: 2\r\n\r\n").ok().unwrap();
    assert_eq!(offset, 14);
    assert_eq!(slots.len(), 2);
}

#[test]
fn header_values_lose_surrounding_blanks() {
    let made = translate(answer(b"X-Pad:   padded  \r\n\r\n")).ok().unwrap();
    assert_eq!(pairs(&made.headers), vec![("x-pad".to_string(), b"padded".to_vec())]);
}
