use http_core::http::ContentType;
use http_core::http::Method;
use http_core::http::MethodParseError;
use http_core::http::Path;
use http_core::http::Status;
use http_core::http::Version;
use http_core::http::VersionParseError;

#[test]
fn version_token_mapping_is_bidirectional() {
    assert_eq!(Version::from_token("HTTP/1.1"), Ok(Version::V1_1));
    assert_eq!(Version::from_token("HTTP/1.0"), Err(VersionParseError));
    assert_eq!(Version::from_token(""), Err(VersionParseError));
    assert_eq!(Version::V1_1.to_token(), "HTTP/1.1");
}

#[test]
fn method_token_mapping_is_bidirectional() {
    assert_eq!(Method::from_token("GET"), Ok(Method::Get));
    assert_eq!(Method::from_token("POST"), Ok(Method::Post));
    assert_eq!(Method::from_token("get"), Err(MethodParseError));
    assert_eq!(Method::from_token("PUT"), Err(MethodParseError));
    assert_eq!(Method::Get.to_token(), "GET");
    assert_eq!(Method::Post.to_token(), "POST");
}

#[test]
fn status_tokens_carry_code_and_reason_phrase() {
    assert_eq!(Status::Okay.to_token(), "200 OK");
    assert_eq!(Status::NotFound.to_token(), "404 Not Found");
    assert_eq!(Status::BadRequest.to_token(), "400 Bad Request");
    assert_eq!(Status::Created.to_token(), "201 Created");
}

#[test]
fn content_type_tokens() {
    assert_eq!(ContentType::TextPlain.to_token(), "text/plain");
    assert_eq!(ContentType::OctetStream.to_token(), "application/octet-stream");
}

#[test]
fn path_tokens() {
    assert_eq!(Path::Empty.to_token(), "/");
    assert_eq!(Path::Echo.to_token(), "/echo");
    assert_eq!(Path::Files.to_token(), "/files");
    assert_eq!(Path::UserAgent.to_token(), "/user-agent");
}
