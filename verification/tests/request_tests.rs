use http_core::http::Method;
use http_core::http::Path;
use http_core::http::Version;
use http_core::request::Request;
use http_core::request::RequestError;

#[test]
fn parse_payload() {
    let payload = r#"GET / HTTP/1.1
                        Host: localhost:4221
                        User-Agent: test-agent/1.0.0
                        "#;
    let req = Request::from_byte_array(payload.as_bytes()).unwrap();
    assert_eq!(req.method, Method::Get);
    assert_eq!(req.path, Path::Empty);
    assert_eq!(req.version, Version::V1_1);
    assert_eq!(req.host, "localhost:4221");
    assert_eq!(req.agent, "test-agent/1.0.0");
}

#[test]
fn parse_empty_content() {
    let payload = r#"GET / HTTP/1.1
                        Host: localhost:4221
                        User-Agent: test-agent/1.0.0
                        "#;
    let req = Request::from_byte_array(payload.as_bytes()).unwrap();
    assert_eq!(req.method, Method::Get);
    assert_eq!(req.path, Path::Empty);
    assert_eq!(req.version, Version::V1_1);
    assert_eq!(req.host, "localhost:4221");
    assert_eq!(req.agent, "test-agent/1.0.0");
}

#[test]
fn parse_echo_content() {
    let payload = r#"GET /echo/foo/bar HTTP/1.1
                        Host: localhost:4221
                        User-Agent: test-agent/1.0.0
                        "#;
    let req = Request::from_byte_array(payload.as_bytes()).unwrap();
    assert_eq!(req.method, Method::Get);
    assert_eq!(req.path, Path::Echo);
    assert_eq!(req.version, Version::V1_1);
    assert_eq!(req.host, "localhost:4221");
    assert_eq!(req.agent, "test-agent/1.0.0");
}

#[test]
fn parse_post_round_trips_method_and_version() {
    let payload = "POST /files/a.txt HTTP/1.1\r\nHost: h\r\nUser-Agent: ua\r\n";
    let req = Request::from_byte_array(payload.as_bytes()).unwrap();
    assert_eq!(req.method, Method::Post);
    assert_eq!(req.method.to_token(), "POST");
    assert_eq!(req.version.to_token(), "HTTP/1.1");
    assert_eq!(req.path, Path::Files);
    assert_eq!(req.full_path, "/files/a.txt");
}

#[test]
fn parse_two_token_request_line_fails() {
    let payload = "GET /\r\nHost: h\r\n";
    let req = Request::from_byte_array(payload.as_bytes());
    assert!(matches!(req, Err(RequestError::UnknownRequestContent)));
}

#[test]
fn parse_unknown_method_fails() {
    let req = Request::from_byte_array(b"PUT / HTTP/1.1\r\n");
    assert!(matches!(req, Err(RequestError::UnknownMethod(_))));
}

#[test]
fn parse_unknown_route_fails() {
    let req = Request::from_byte_array(b"GET /nope HTTP/1.1\r\n");
    assert!(matches!(req, Err(RequestError::UnknownRoute(_))));
}

#[test]
fn parse_unknown_version_fails() {
    let req = Request::from_byte_array(b"GET / HTTP/1.0\r\n");
    assert!(matches!(req, Err(RequestError::UnknownVersion(_))));
}

#[test]
fn parse_empty_buffer_fails() {
    let req = Request::from_byte_array(b"");
    assert!(matches!(req, Err(RequestError::UnknownRequestContent)));
}

#[test]
fn parse_body_sits_on_the_eighth_line() {
    let payload = "POST /files/a.txt HTTP/1.1\nHost: h\nUser-Agent: ua\nAccept: */*\nx\ny\nz\nhello body";
    let req = Request::from_byte_array(payload.as_bytes()).unwrap();
    assert_eq!(req.body, Some(b"hello body".to_vec()));

    let short = "POST /files/a.txt HTTP/1.1\nHost: h\nUser-Agent: ua\n";
    let req = Request::from_byte_array(short.as_bytes()).unwrap();
    assert_eq!(req.body, None);
}

#[test]
fn parse_invalid_utf8_is_replaced_not_fatal() {
    let payload = b"GET / HTTP/1.1\nHost: caf\xff\nUser-Agent: ua\n";
    let req = Request::from_byte_array(payload).unwrap();
    assert_eq!(req.host, "caf\u{fffd}");
    assert_eq!(req.agent, "ua");
}

#[test]
fn parse_line_takes_text_after_keyword_trimmed() {
    assert_eq!(Request::parse_line("   Host: localhost:4221  ", "Host:"), "localhost:4221");
    assert_eq!(Request::parse_line("nothing here", "Host:"), "");
    assert_eq!(Request::parse_line("User-Agent: curl/7.64.1", "User-Agent:"), "curl/7.64.1");
}

#[test]
fn parse_request_line_directly() {
    let (method, full_path, path, version) =
        Request::parse_request_line("GET /echo/abc HTTP/1.1").unwrap();
    assert_eq!(method, Method::Get);
    assert_eq!(full_path, "/echo/abc");
    assert_eq!(path, Path::Echo);
    assert_eq!(version, Version::V1_1);
}
