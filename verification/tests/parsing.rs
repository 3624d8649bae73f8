use servedir::paths::requested_fs_path;
use servedir::request::parse_request;

#[test]
fn simple_target() {
    let r = parse_request("GET /a.txt HTTP/1.1\r\nHost: h\r\n\r\n");
    assert_eq!(r, "/a.txt");
}

#[test]
fn root_target_becomes_dot() {
    let r = parse_request("GET / HTTP/1.1\r\nHost: h\r\n\r\n");
    assert_eq!(r, ".");
}

#[test]
fn empty_request_defaults_to_root() {
    assert_eq!(parse_request(""), "/");
}

#[test]
fn single_token_defaults_to_root() {
    assert_eq!(parse_request("GET\r\n"), "/");
}

#[test]
fn blank_first_line_defaults_to_root() {
    assert_eq!(parse_request("\r\nGET /x HTTP/1.1\r\n"), "/");
}

#[test]
fn extra_tokens_ignored() {
    assert_eq!(parse_request("GET /x HTTP/1.1 extra\r\n"), "/x");
}

#[test]
fn second_line_never_read() {
    assert_eq!(parse_request("OPTIONS *\nGET /secret HTTP/1.1\n"), "*");
}

#[test]
fn percent_decoding_applied() {
    let p = requested_fs_path("/srv/files", "/a%20b.txt");
    assert_eq!(p, "/srv/files/a b.txt");
}

#[test]
fn leading_separators_made_relative() {
    let p = requested_fs_path("/srv/files", "//etc/passwd");
    assert_eq!(p, "/srv/files/etc/passwd");
}

#[test]
fn dot_target_joins_under_root() {
    let p = requested_fs_path("/srv/files", ".");
    assert_eq!(p, "/srv/files/.");
}

#[test]
fn traversal_target_joins_verbatim() {
    let p = requested_fs_path("/srv/files", "/../../etc/passwd");
    assert_eq!(p, "/srv/files/../../etc/passwd");
}
