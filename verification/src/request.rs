//! Request parsing: a raw byte buffer is decoded leniently as text, split
//! into lines, and the request line, `Host` and `User-Agent` headers and
//! the fixed-offset body line are extracted.

use vstd::prelude::*;
use vstd::utf8::decode_utf8;
use vstd::utf8::encode_utf8;
use vstd::utf8::valid_utf8;

use crate::http::method_token;
use crate::http::spec_classify;
use crate::http::spec_method_from_token;
use crate::http::version_token;
use crate::http::Method;
use crate::http::MethodParseError;
use crate::http::Path;
use crate::http::TryFromPathError;
use crate::http::Version;
use crate::http::VersionParseError;
use crate::text::line_ranges;
use crate::text::ranges_cut;
use crate::text::spec_find;
use crate::text::spec_lines;
use crate::text::spec_tokens;
use crate::text::spec_trim;
use crate::text::token_ranges;
use crate::text::trim_range;
use crate::text::find_sub;

verus! {

/// Why a raw buffer failed to parse into a request.
#[derive(Debug, PartialEq, Eq, Structural, Clone, Copy)]
pub enum RequestError {
    /// The request line misses one of its three tokens.
    UnknownRequestContent,
    /// The method token names no supported method.
    UnknownMethod(MethodParseError),
    /// The path token classifies into no known route.
    UnknownRoute(TryFromPathError),
    /// The version token names no supported version.
    UnknownVersion(VersionParseError),
}

/// A parsed request.
#[derive(Debug)]
pub struct Request {
    pub method: Method,
    pub path: Path,
    pub full_path: String,
    pub version: Version,
    pub host: String,
    pub agent: String,
    pub body: Option<Vec<u8>>,
}

/// Characters that lossy UTF-8 decoding yields for the given bytes.
pub uninterp spec fn lossy_decode(bytes: Seq<u8>) -> Seq<char>;

/// Relies on `String::from_utf8_lossy`: the result is a function of the
/// bytes alone, and valid UTF-8 input decodes losslessly.
#[verifier::external_body]
fn decode_lossy(buff: &[u8]) -> (r: String)
    ensures
        r@ == lossy_decode(buff@),
        valid_utf8(buff@) ==> r@ == decode_utf8(buff@),
{
    String::from_utf8_lossy(buff).into_owned()
}

/// The `i`-th line, or the empty sequence where there is none.
pub open spec fn line_or_empty(ls: Seq<Seq<char>>, i: int) -> Seq<char> {
    if 0 <= i < ls.len() {
        ls[i]
    } else {
        Seq::empty()
    }
}

/// The value a header scan yields from one line: the text after the first
/// occurrence of the keyword, trimmed; the empty sequence where the
/// keyword does not occur.
pub open spec fn spec_parse_line(line: Seq<char>, keyword: Seq<char>) -> Seq<char> {
    let f = spec_find(line, keyword);
    if f >= 0 {
        spec_trim(line.skip(f + keyword.len() as int))
    } else {
        Seq::empty()
    }
}

/// Outcome of splitting a request line on whitespace and validating its
/// three tokens in order: method, path, version. A missing token fails
/// before the tokens after it are looked at; tokens past the third are
/// ignored.
pub open spec fn spec_parse_request_line(line: Seq<char>) -> Result<
    (Method, Seq<char>, Path, Version),
    RequestError,
> {
    let toks = spec_tokens(line);
    if toks.len() < 1 {
        Err(RequestError::UnknownRequestContent)
    } else if spec_method_from_token(toks[0]) is Err {
        Err(RequestError::UnknownMethod(MethodParseError))
    } else if toks.len() < 2 {
        Err(RequestError::UnknownRequestContent)
    } else if spec_classify(toks[1]) is Err {
        Err(RequestError::UnknownRoute(TryFromPathError::Parse))
    } else if toks.len() < 3 {
        Err(RequestError::UnknownRequestContent)
    } else if toks[2] != version_token(Version::V1_1) {
        Err(RequestError::UnknownVersion(VersionParseError))
    } else {
        Ok(
            (
                spec_method_from_token(toks[0])->Ok_0,
                toks[1],
                spec_classify(toks[1])->Ok_0,
                Version::V1_1,
            ),
        )
    }
}

/// The lines of the lossily decoded buffer.
pub open spec fn spec_request_lines(buff: Seq<u8>) -> Seq<Seq<char>> {
    spec_lines(lossy_decode(buff))
}

impl Request {
    /// Splits a request line on whitespace and validates its three tokens
    /// in order: method, raw path, version.
    pub fn parse_request_line(line: &str) -> (r: Result<
        (Method, String, Path, Version),
        RequestError,
    >)
        ensures
            match r {
                Ok(t) => spec_parse_request_line(line@) matches Ok(s) && t.0 == s.0 && t.1@ == s.1
                    && t.2 == s.2 && t.3 == s.3,
                Err(e) => spec_parse_request_line(line@) matches Err(se) && e == se,
            },
    {
        let ranges = token_ranges(line);
        let ghost toks = spec_tokens(line@);
        if ranges.len() == 0 {
            return Err(RequestError::UnknownRequestContent);
        }
        let (s0, e0) = ranges[0];
        proof {
            assert(ranges_cut(ranges@, line@)[0] == line@.subrange(s0 as int, e0 as int));
        }
        let method = match Method::from_token(line.substring_char(s0, e0)) {
            Ok(m) => m,
            Err(_) => {
                return Err(RequestError::UnknownMethod(MethodParseError));
            },
        };
        if ranges.len() == 1 {
            return Err(RequestError::UnknownRequestContent);
        }
        let (s1, e1) = ranges[1];
        proof {
            assert(ranges_cut(ranges@, line@)[1] == line@.subrange(s1 as int, e1 as int));
        }
        let full_path = line.substring_char(s1, e1).to_owned();
        let path = match Path::classify(full_path.as_str()) {
            Ok(p) => p,
            Err(_) => {
                return Err(RequestError::UnknownRoute(TryFromPathError::Parse));
            },
        };
        if ranges.len() == 2 {
            return Err(RequestError::UnknownRequestContent);
        }
        let (s2, e2) = ranges[2];
        proof {
            assert(ranges_cut(ranges@, line@)[2] == line@.subrange(s2 as int, e2 as int));
        }
        let version = match Version::from_token(line.substring_char(s2, e2)) {
            Ok(v) => v,
            Err(_) => {
                return Err(RequestError::UnknownVersion(VersionParseError));
            },
        };
        Ok((method, full_path, path, version))
    }

    /// The value after the first occurrence of `keyword` in `line`,
    /// trimmed; empty where `keyword` does not occur.
    pub fn parse_line(line: &str, keyword: &str) -> (r: String)
        ensures
            r@ == spec_parse_line(line@, keyword@),
    {
        match find_sub(line, keyword) {
            Some(i) => {
                let klen = keyword.unicode_len();
                let n = line.unicode_len();
                let (a, b) = trim_range(line, i + klen, n);
                proof {
                    assert(line@.subrange(i as int + klen as int, n as int) =~= line@.skip(
                        i as int + klen as int,
                    ));
                }
                line.substring_char(a, b).to_owned()
            },
            None => String::new(),
        }
    }

    /// Parses a raw buffer into a request: the first line is the request
    /// line; the second and third lines are scanned for `Host:` and
    /// `User-Agent:`; the eighth line, where present, is taken verbatim as
    /// the body. Parsing is total: every buffer yields a request or a
    /// specific error.
    pub fn from_byte_array(buff: &[u8]) -> (r: Result<Request, RequestError>)
        ensures
            match r {
                Ok(req) => {
                    let ls = spec_request_lines(buff@);
                    &&& spec_parse_request_line(line_or_empty(ls, 0)) matches Ok(t) && req.method
                        == t.0 && req.full_path@ == t.1 && req.path == t.2 && req.version == t.3
                    &&& req.host@ == spec_parse_line(line_or_empty(ls, 1), "Host:"@)
                    &&& req.agent@ == spec_parse_line(line_or_empty(ls, 2), "User-Agent:"@)
                    &&& match req.body {
                        Some(b) => ls.len() > 7 && b@ == encode_utf8(ls[7]),
                        None => ls.len() <= 7,
                    }
                    &&& spec_classify(req.full_path@) == Ok::<Path, TryFromPathError>(req.path)
                },
                Err(e) => spec_parse_request_line(line_or_empty(spec_request_lines(buff@), 0))
                    matches Err(se) && e == se,
            },
    {
        let text = decode_lossy(buff);
        let s = text.as_str();
        let lr = line_ranges(s);
        proof {
            reveal_strlit("");
        }
        let first = if lr.len() > 0 {
            let (a, b) = lr[0];
            proof {
                assert(ranges_cut(lr@, s@)[0] == s@.subrange(a as int, b as int));
            }
            s.substring_char(a, b)
        } else {
            ""
        };
        let quad = match Self::parse_request_line(first) {
            Ok(q) => q,
            Err(e) => {
                return Err(e);
            },
        };
        let host_line = if lr.len() > 1 {
            let (a, b) = lr[1];
            proof {
                assert(ranges_cut(lr@, s@)[1] == s@.subrange(a as int, b as int));
            }
            s.substring_char(a, b)
        } else {
            ""
        };
        let host = Self::parse_line(host_line, "Host:");
        let agent_line = if lr.len() > 2 {
            let (a, b) = lr[2];
            proof {
                assert(ranges_cut(lr@, s@)[2] == s@.subrange(a as int, b as int));
            }
            s.substring_char(a, b)
        } else {
            ""
        };
        let agent = Self::parse_line(agent_line, "User-Agent:");
        let body = if lr.len() > 7 {
            let (a, b) = lr[7];
            proof {
                assert(ranges_cut(lr@, s@)[7] == s@.subrange(a as int, b as int));
            }
            Some(s.substring_char(a, b).as_bytes_vec())
        } else {
            None
        };
        Ok(
            Request {
                method: quad.0,
                full_path: quad.1,
                path: quad.2,
                version: quad.3,
                host,
                agent,
                body,
            },
        )
    }
}

/// Round trip of the request line: every line whose first token is a
/// supported method, whose second classifies into a route, and whose third
/// is the `HTTP/1.1` token parses successfully, and the parsed method and
/// version render back to the very tokens of the line.
pub proof fn lemma_request_line_round_trip(line: Seq<char>)
    requires
        spec_tokens(line).len() >= 3,
        spec_method_from_token(spec_tokens(line)[0]) is Ok,
        spec_classify(spec_tokens(line)[1]) is Ok,
        spec_tokens(line)[2] == version_token(Version::V1_1),
    ensures
        spec_parse_request_line(line) is Ok,
        method_token((spec_parse_request_line(line)->Ok_0).0) == spec_tokens(line)[0],
        (spec_parse_request_line(line)->Ok_0).1 == spec_tokens(line)[1],
        version_token((spec_parse_request_line(line)->Ok_0).3) == spec_tokens(line)[2],
{
}

} // verus!
