//! Wire vocabulary: closed enumerations for HTTP version, method, status,
//! content type and route path, each with its fixed wire token.

use vstd::prelude::*;

verus! {

/// Error returned when a token does not name a supported HTTP version.
#[derive(Debug, PartialEq, Eq, Structural, Clone, Copy)]
pub struct VersionParseError;

/// HTTP protocol version; only `HTTP/1.1` is supported.
#[derive(Debug, PartialEq, Eq, Structural, Clone, Copy)]
pub enum Version {
    V1_1,
}

/// Wire token of an HTTP version.
pub open spec fn version_token(v: Version) -> Seq<char> {
    match v {
        Version::V1_1 => "HTTP/1.1"@,
    }
}

impl Version {
    /// Wire token of this version.
    pub fn to_token(self) -> (r: &'static str)
        ensures
            r@ == version_token(self),
    {
        match self {
            Version::V1_1 => "HTTP/1.1",
        }
    }

    /// Parses a wire token into a version; only `HTTP/1.1` is accepted.
    pub fn from_token(token: &str) -> (r: Result<Version, VersionParseError>)
        ensures
            r == (if token@ == version_token(Version::V1_1) {
                Result::<Version, VersionParseError>::Ok(Version::V1_1)
            } else {
                Result::<Version, VersionParseError>::Err(VersionParseError)
            }),
    {
        proof {
            reveal_strlit("HTTP/1.1");
        }
        let n = token.unicode_len();
        if n == 8 && token.get_char(0) == 'H' && token.get_char(1) == 'T' && token.get_char(2)
            == 'T' && token.get_char(3) == 'P' && token.get_char(4) == '/' && token.get_char(5)
            == '1' && token.get_char(6) == '.' && token.get_char(7) == '1' {
            proof {
                assert(token@ =~= "HTTP/1.1"@);
            }
            Ok(Version::V1_1)
        } else {
            Err(VersionParseError)
        }
    }
}

/// Error returned when a token does not name a supported HTTP method.
#[derive(Debug, PartialEq, Eq, Structural, Clone, Copy)]
pub struct MethodParseError;

/// HTTP request method; the system supports exactly `GET` and `POST`.
#[derive(Debug, PartialEq, Eq, Structural, Clone, Copy)]
pub enum Method {
    Get,
    Post,
}

/// Wire token of an HTTP method.
pub open spec fn method_token(m: Method) -> Seq<char> {
    match m {
        Method::Get => "GET"@,
        Method::Post => "POST"@,
    }
}

/// The method named by a token, if any.
pub open spec fn spec_method_from_token(token: Seq<char>) -> Result<Method, MethodParseError> {
    if token == method_token(Method::Get) {
        Ok(Method::Get)
    } else if token == method_token(Method::Post) {
        Ok(Method::Post)
    } else {
        Err(MethodParseError)
    }
}

impl Method {
    /// Wire token of this method.
    pub fn to_token(self) -> (r: &'static str)
        ensures
            r@ == method_token(self),
    {
        match self {
            Method::Get => "GET",
            Method::Post => "POST",
        }
    }

    /// Parses a wire token into a method; only `GET` and `POST` are accepted.
    pub fn from_token(token: &str) -> (r: Result<Method, MethodParseError>)
        ensures
            r == spec_method_from_token(token@),
    {
        proof {
            reveal_strlit("GET");
            reveal_strlit("POST");
        }
        let n = token.unicode_len();
        if n == 3 && token.get_char(0) == 'G' && token.get_char(1) == 'E' && token.get_char(2)
            == 'T' {
            proof {
                assert(token@ =~= "GET"@);
            }
            Ok(Method::Get)
        } else if n == 4 && token.get_char(0) == 'P' && token.get_char(1) == 'O' && token.get_char(
            2,
        ) == 'S' && token.get_char(3) == 'T' {
            proof {
                assert(token@ =~= "POST"@);
            }
            Ok(Method::Post)
        } else {
            Err(MethodParseError)
        }
    }
}

/// Error type reserved for status tokens; statuses are never parsed from the
/// wire, so no operation returns it.
#[derive(Debug, PartialEq, Eq, Structural, Clone, Copy)]
pub struct StatusParseError;

/// HTTP response status.
#[derive(Debug, PartialEq, Eq, Structural, Clone, Copy)]
pub enum Status {
    Okay,
    NotFound,
    BadRequest,
    Created,
}

/// Wire token of a status: the code followed by its reason phrase.
pub open spec fn status_token(s: Status) -> Seq<char> {
    match s {
        Status::Okay => "200 OK"@,
        Status::NotFound => "404 Not Found"@,
        Status::BadRequest => "400 Bad Request"@,
        Status::Created => "201 Created"@,
    }
}

impl Status {
    /// Wire token of this status.
    pub fn to_token(self) -> (r: &'static str)
        ensures
            r@ == status_token(self),
    {
        match self {
            Status::Okay => "200 OK",
            Status::NotFound => "404 Not Found",
            Status::BadRequest => "400 Bad Request",
            Status::Created => "201 Created",
        }
    }
}

/// Error type reserved for content-type tokens; content types are never
/// parsed from the wire, so no operation returns it.
#[derive(Debug, PartialEq, Eq, Structural, Clone, Copy)]
pub struct ContentTypeParseError;

/// Content type of a response body.
#[derive(Debug, PartialEq, Eq, Structural, Clone, Copy)]
pub enum ContentType {
    TextPlain,
    OctetStream,
}

/// Wire token of a content type.
pub open spec fn content_type_token(ct: ContentType) -> Seq<char> {
    match ct {
        ContentType::TextPlain => "text/plain"@,
        ContentType::OctetStream => "application/octet-stream"@,
    }
}

impl ContentType {
    /// Wire token of this content type.
    pub fn to_token(self) -> (r: &'static str)
        ensures
            r@ == content_type_token(self),
    {
        match self {
            ContentType::TextPlain => "text/plain",
            ContentType::OctetStream => "application/octet-stream",
        }
    }
}

/// Error returned when a raw path cannot be classified into a route.
#[derive(Debug, PartialEq, Eq, Structural, Clone, Copy)]
pub enum TryFromPathError {
    /// The path matches no known route.
    Parse,
    /// No path was given at all.
    Missing,
}

/// Classified route of a request path.
#[derive(Debug, PartialEq, Eq, Structural, Clone, Copy)]
pub enum Path {
    Empty,
    Echo,
    UserAgent,
    Files,
}

/// Route prefix (for `Echo` and `Files`) or exact token (for `Empty` and
/// `UserAgent`) of a route.
pub open spec fn path_token(p: Path) -> Seq<char> {
    match p {
        Path::Empty => "/"@,
        Path::Echo => "/echo"@,
        Path::Files => "/files"@,
        Path::UserAgent => "/user-agent"@,
    }
}

/// Whether `s` starts with the prefix `p`.
pub open spec fn starts_with(s: Seq<char>, p: Seq<char>) -> bool {
    p.len() <= s.len() && s.take(p.len() as int) == p
}

/// Route classification of a raw path: exact match for `/` and
/// `/user-agent`, prefix match for `/echo` and `/files`.
pub open spec fn spec_classify(p: Seq<char>) -> Result<Path, TryFromPathError> {
    if p == path_token(Path::Empty) {
        Ok(Path::Empty)
    } else if p == path_token(Path::UserAgent) {
        Ok(Path::UserAgent)
    } else if starts_with(p, path_token(Path::Echo)) {
        Ok(Path::Echo)
    } else if starts_with(p, path_token(Path::Files)) {
        Ok(Path::Files)
    } else {
        Err(TryFromPathError::Parse)
    }
}

impl Path {
    /// Route prefix (for `Echo` and `Files`) or exact token (for `Empty` and
    /// `UserAgent`) of this route.
    pub fn to_token(self) -> (r: &'static str)
        ensures
            r@ == path_token(self),
    {
        match self {
            Path::Empty => "/",
            Path::Echo => "/echo",
            Path::Files => "/files",
            Path::UserAgent => "/user-agent",
        }
    }

    /// Classifies a raw path into a route: `/` and `/user-agent` match
    /// exactly, `/echo` and `/files` match as prefixes.
    pub fn classify(value: &str) -> (r: Result<Path, TryFromPathError>)
        ensures
            r == spec_classify(value@),
    {
        proof {
            reveal_strlit("/");
            reveal_strlit("/user-agent");
            reveal_strlit("/echo");
            reveal_strlit("/files");
        }
        let n = value.unicode_len();
        if n == 1 && value.get_char(0) == '/' {
            proof {
                assert(value@ =~= "/"@);
            }
            Ok(Path::Empty)
        } else if n == 11 && value.get_char(0) == '/' && value.get_char(1) == 'u'
            && value.get_char(2) == 's' && value.get_char(3) == 'e' && value.get_char(4) == 'r'
            && value.get_char(5) == '-' && value.get_char(6) == 'a' && value.get_char(7) == 'g'
            && value.get_char(8) == 'e' && value.get_char(9) == 'n' && value.get_char(10) == 't' {
            proof {
                assert(value@ =~= "/user-agent"@);
            }
            Ok(Path::UserAgent)
        } else if n >= 5 && value.get_char(0) == '/' && value.get_char(1) == 'e'
            && value.get_char(2) == 'c' && value.get_char(3) == 'h' && value.get_char(4) == 'o' {
            proof {
                assert(value@.take(5) =~= "/echo"@);
            }
            Ok(Path::Echo)
        } else if n >= 6 && value.get_char(0) == '/' && value.get_char(1) == 'f'
            && value.get_char(2) == 'i' && value.get_char(3) == 'l' && value.get_char(4) == 'e'
            && value.get_char(5) == 's' {
            proof {
                assert(value@.take(6) =~= "/files"@);
            }
            Ok(Path::Files)
        } else {
            proof {
                assert(value@ != "/"@);
                assert(value@ != "/user-agent"@);
                assert(!starts_with(value@, "/echo"@)) by {
                    if starts_with(value@, "/echo"@) {
                        assert(value@.take(5) == "/echo"@);
                        assert(value@[0] == '/') by {
                            assert(value@.take(5)[0] == value@[0]);
                        };
                        assert(value@[1] == 'e') by {
                            assert(value@.take(5)[1] == value@[1]);
                        };
                        assert(value@[2] == 'c') by {
                            assert(value@.take(5)[2] == value@[2]);
                        };
                        assert(value@[3] == 'h') by {
                            assert(value@.take(5)[3] == value@[3]);
                        };
                        assert(value@[4] == 'o') by {
                            assert(value@.take(5)[4] == value@[4]);
                        };
                    }
                };
                assert(!starts_with(value@, "/files"@)) by {
                    if starts_with(value@, "/files"@) {
                        assert(value@.take(6) == "/files"@);
                        assert(value@[0] == '/') by {
                            assert(value@.take(6)[0] == value@[0]);
                        };
                        assert(value@[1] == 'f') by {
                            assert(value@.take(6)[1] == value@[1]);
                        };
                        assert(value@[2] == 'i') by {
                            assert(value@.take(6)[2] == value@[2]);
                        };
                        assert(value@[3] == 'l') by {
                            assert(value@.take(6)[3] == value@[3]);
                        };
                        assert(value@[4] == 'e') by {
                            assert(value@.take(6)[4] == value@[4]);
                        };
                        assert(value@[5] == 's') by {
                            assert(value@.take(6)[5] == value@[5]);
                        };
                    }
                };
            }
            Err(TryFromPathError::Parse)
        }
    }
}

} // verus!
