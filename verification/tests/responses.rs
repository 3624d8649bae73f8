use servedir::classify::content_type_for;
use servedir::response::{file_response, not_found_response, ok_response};

#[test]
fn scenario_plain_file() {
    let body: Vec<u8> = b"hello".to_vec();
    let resp = file_response(&body);
    let expected: Vec<u8> =
        b"HTTP/1.1 200 OK\r\nContent-Type: application/octet-stream\r\nContent-Length: 5\r\n\r\nhello"
        .to_vec();
    assert_eq!(resp, expected);
}

#[test]
fn png_bytes_classified_as_image() {
    let mut body: Vec<u8> = vec![0x89, 0x50, 0x4E, 0x47, 0x0D, 0x0A, 0x1A, 0x0A];
    body.extend_from_slice(&[0u8; 16]);
    assert_eq!(content_type_for(&body), "image/png");
    let resp = file_response(&body);
    let head = b"HTTP/1.1 200 OK\r\nContent-Type: image/png\r\nContent-Length: 24\r\n\r\n";
    assert_eq!(&resp[..head.len()], &head[..]);
    assert_eq!(&resp[head.len()..], &body[..]);
}

#[test]
fn unknown_bytes_fall_back_to_octet_stream() {
    let body: Vec<u8> = b"just some text".to_vec();
    assert_eq!(content_type_for(&body), "application/octet-stream");
}

#[test]
fn content_length_matches_body_exactly() {
    for n in [0usize, 1, 9, 10, 99, 100, 12345] {
        let body: Vec<u8> = vec![b'x'; n];
        let resp = ok_response("text/plain", &body);
        let text = String::from_utf8_lossy(&resp).into_owned();
        let marker = "Content-Length: ";
        let at = text.find(marker).expect("header present");
        let rest = &text[at + marker.len()..];
        let end = rest.find('\r').expect("header terminated");
        let declared: usize = rest[..end].parse().expect("numeral");
        let blank = text.find("\r\n\r\n").expect("blank line present") + 4;
        assert_eq!(declared, n);
        assert_eq!(resp.len() - blank, n);
    }
}

#[test]
fn empty_body_has_zero_length() {
    let body: Vec<u8> = Vec::new();
    let resp = ok_response("text/html", &body);
    let expected: Vec<u8> =
        b"HTTP/1.1 200 OK\r\nContent-Type: text/html\r\nContent-Length: 0\r\n\r\n".to_vec();
    assert_eq!(resp, expected);
}

#[test]
fn not_found_is_bare_status() {
    let resp = not_found_response();
    assert_eq!(resp, b"HTTP/1.1 404 NOT FOUND\r\n\r\n".to_vec());
}

#[test]
fn internal_error_is_bare_status() {
    let resp = servedir::response::internal_error_response();
    assert_eq!(resp, b"HTTP/1.1 500 INTERNAL SERVER ERROR\r\n\r\n".to_vec());
}
