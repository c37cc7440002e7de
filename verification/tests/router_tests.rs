use http_core::http::ContentType;
use http_core::http::Method;
use http_core::http::Path;
use http_core::http::Status;
use http_core::http::TryFromPathError;
use http_core::request::Request;
use http_core::response::Content;
use http_core::response::Response;
use http_core::router::read_outcome_response;
use http_core::router::route;
use http_core::router::write_outcome_response;
use http_core::router::FileAction;
use http_core::router::RouteOutcome;

fn parse(raw: &str) -> Request {
    Request::from_byte_array(raw.as_bytes()).unwrap()
}

fn done(outcome: RouteOutcome) -> Response {
    match outcome {
        RouteOutcome::Done(resp) => resp,
        RouteOutcome::File(_) => panic!("expected a finished response"),
    }
}

#[test]
fn classify_fixed_route_set() {
    assert_eq!(Path::classify("/"), Ok(Path::Empty));
    assert_eq!(Path::classify("/echo/abc"), Ok(Path::Echo));
    assert_eq!(Path::classify("/user-agent"), Ok(Path::UserAgent));
    assert_eq!(Path::classify("/files/x"), Ok(Path::Files));
    assert_eq!(Path::classify("/nope"), Err(TryFromPathError::Parse));
    assert_eq!(Path::classify("/echo"), Ok(Path::Echo));
    assert_eq!(Path::classify("/files"), Ok(Path::Files));
    assert_eq!(Path::classify(""), Err(TryFromPathError::Parse));
}

#[test]
fn empty_route_answers_ok_with_empty_body() {
    let req = parse("GET / HTTP/1.1\r\nHost: h\r\nUser-Agent: ua\r\n");
    let resp = done(route(req, &None));
    assert_eq!(resp.status, Status::Okay);
    assert_eq!(resp.content_type, ContentType::TextPlain);
    assert_eq!(resp.content_length, 0);
    match resp.content {
        Some(Content::Text(t)) => assert_eq!(t, ""),
        _ => panic!("expected text content"),
    }
}

#[test]
fn echo_route_answers_with_the_segment() {
    let req = parse("GET /echo/hello HTTP/1.1\r\nHost: h\r\nUser-Agent: ua\r\n");
    let resp = done(route(req, &None));
    assert_eq!(resp.status, Status::Okay);
    assert_eq!(resp.content_length, 5);
    match resp.content {
        Some(Content::Text(t)) => assert_eq!(t, "hello"),
        _ => panic!("expected text content"),
    }
}

#[test]
fn echo_route_keeps_deeper_segments_and_tolerates_missing_ones() {
    let req = parse("GET /echo/foo/bar HTTP/1.1\r\n");
    match done(route(req, &None)).content {
        Some(Content::Text(t)) => assert_eq!(t, "foo/bar"),
        _ => panic!("expected text content"),
    }

    let req = parse("GET /echo HTTP/1.1\r\n");
    match done(route(req, &None)).content {
        Some(Content::Text(t)) => assert_eq!(t, ""),
        _ => panic!("expected text content"),
    }
}

#[test]
fn user_agent_route_echoes_the_header() {
    let req = parse("GET /user-agent HTTP/1.1\r\nHost: h\r\nUser-Agent: test-agent/1.0.0\r\n");
    let resp = done(route(req, &None));
    assert_eq!(resp.status, Status::Okay);
    assert_eq!(resp.content_length, 16);
    match resp.content {
        Some(Content::Text(t)) => assert_eq!(t, "test-agent/1.0.0"),
        _ => panic!("expected text content"),
    }
}

#[test]
fn files_post_then_get_round_trip() {
    let root = Some("data".to_owned());

    let mut req = parse("POST /files/a.txt HTTP/1.1\r\nHost: h\r\nUser-Agent: ua\r\n");
    req.body = Some(b"hi".to_vec());
    let write_target = match route(req, &root) {
        RouteOutcome::File(FileAction::Write { root, raw_path, contents }) => {
            assert_eq!(root, "data");
            assert_eq!(raw_path, "/files/a.txt");
            assert_eq!(contents, b"hi".to_vec());
            http_core::router::file_target(&root, &raw_path)
        },
        _ => panic!("expected a write action"),
    };
    assert_eq!(write_target, "data/a.txt");
    let resp = write_outcome_response(true, 2);
    assert_eq!(resp.status, Status::Created);
    assert_eq!(resp.content_length, 2);
    assert!(resp.content.is_none());

    let req = parse("GET /files/a.txt HTTP/1.1\r\nHost: h\r\nUser-Agent: ua\r\n");
    let read_target = match route(req, &root) {
        RouteOutcome::File(FileAction::Read { target }) => target,
        _ => panic!("expected a read action"),
    };
    assert_eq!(read_target, write_target);
    let resp = read_outcome_response(Some(b"hi".to_vec()));
    assert_eq!(resp.status, Status::Okay);
    assert_eq!(resp.content_type, ContentType::OctetStream);
    assert_eq!(resp.content_length, 2);
    match resp.content {
        Some(Content::Binary(b)) => assert_eq!(b, b"hi".to_vec()),
        _ => panic!("expected binary content"),
    }
}

#[test]
fn files_get_missing_file_is_not_found_with_empty_body() {
    let root = Some("data".to_owned());
    let req = parse("GET /files/missing.txt HTTP/1.1\r\nHost: h\r\nUser-Agent: ua\r\n");
    match route(req, &root) {
        RouteOutcome::File(FileAction::Read { target }) => {
            assert_eq!(target, "data/missing.txt")
        },
        _ => panic!("expected a read action"),
    }
    let resp = read_outcome_response(None);
    assert_eq!(resp.status, Status::NotFound);
    assert!(resp.content.is_none());
    assert_eq!(resp.content_length, 0);
}

#[test]
fn files_get_without_root_is_not_found() {
    let req = parse("GET /files/a.txt HTTP/1.1\r\nHost: h\r\nUser-Agent: ua\r\n");
    let resp = done(route(req, &None));
    assert_eq!(resp.status, Status::NotFound);
    assert!(resp.content.is_none());
}

#[test]
fn files_post_without_root_is_bad_request() {
    let mut req = parse("POST /files/a.txt HTTP/1.1\r\nHost: h\r\nUser-Agent: ua\r\n");
    req.body = Some(b"hi".to_vec());
    let resp = done(route(req, &None));
    assert_eq!(resp.status, Status::BadRequest);
    assert!(resp.content.is_none());
}

#[test]
fn files_post_without_body_is_bad_request() {
    let root = Some("data".to_owned());
    let req = parse("POST /files/a.txt HTTP/1.1\r\nHost: h\r\nUser-Agent: ua\r\n");
    assert!(req.body.is_none());
    let resp = done(route(req, &root));
    assert_eq!(resp.status, Status::BadRequest);
}

#[test]
fn files_post_into_missing_root_is_bad_request() {
    let resp = write_outcome_response(false, 2);
    assert_eq!(resp.status, Status::BadRequest);
    assert!(resp.content.is_none());
}

#[test]
fn malformed_request_line_collapses_to_not_found() {
    let outcome = Request::from_byte_array(b"GET /\r\nHost: h\r\n");
    assert!(outcome.is_err());
    let resp = Response::not_found_str();
    assert_eq!(resp.status, Status::NotFound);
    assert_eq!(
        resp.to_bytes(),
        b"HTTP/1.1 404 Not Found\r\nContent-Type: text/plain\r\nContent-Length: 0\r\n\r\n".to_vec()
    );
}

#[test]
fn user_agent_scenario_end_to_end() {
    let raw = "GET /user-agent HTTP/1.1\nHost: localhost:4221\nUser-Agent: test-agent/1.0.0\n";
    let req = parse(raw);
    assert_eq!(req.method, Method::Get);
    assert_eq!(req.path, Path::UserAgent);
    let resp = done(route(req, &None));
    let bytes = resp.to_bytes();
    assert_eq!(
        bytes,
        b"HTTP/1.1 200 OK\r\nContent-Type: text/plain\r\nContent-Length: 16\r\n\r\ntest-agent/1.0.0"
            .to_vec()
    );
}
