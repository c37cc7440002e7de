//! Routing: decides, from a parsed request and the optional file-store
//! root, which response to produce — or which file action the I/O driver
//! must perform before the response can be built.

use vstd::prelude::*;
use vstd::utf8::encode_utf8;

use crate::http::ContentType;
use crate::http::Method;
use crate::http::Path;
use crate::http::Status;
use crate::http::Version;
use crate::request::Request;
use crate::response::Content;
use crate::response::Response;
use crate::text::spec_find;
use crate::text::find_sub;

verus! {

/// A file-store operation the I/O driver must perform.
#[derive(Debug)]
pub enum FileAction {
    /// Read the regular file at `target` and answer with its bytes.
    Read { target: String },
    /// After checking that `root` exists, write `contents` to the file
    /// named by the segment of `raw_path`.
    Write { root: String, raw_path: String, contents: Vec<u8> },
}

/// Outcome of routing: either a finished response, or a file action whose
/// result decides the response.
#[derive(Debug)]
pub enum RouteOutcome {
    Done(Response),
    File(FileAction),
}

/// A 200 text response carrying exactly `body`.
pub open spec fn spec_is_ok_text(r: Response, body: Seq<char>) -> bool {
    &&& r.status == Status::Okay
    &&& r.version == Version::V1_1
    &&& r.content_type == ContentType::TextPlain
    &&& r.content_length == encode_utf8(body).len()
    &&& match r.content {
        Option::Some(Content::Text(t)) => t@ == body,
        _ => false,
    }
}

/// A 404 response with text content type and no body.
pub open spec fn spec_is_not_found_text(r: Response) -> bool {
    &&& r.status == Status::NotFound
    &&& r.version == Version::V1_1
    &&& r.content_type == ContentType::TextPlain
    &&& r.content_length == 0
    &&& r.content is None
}

/// A 404 response with binary content type and no body.
pub open spec fn spec_is_not_found_bin(r: Response) -> bool {
    &&& r.status == Status::NotFound
    &&& r.version == Version::V1_1
    &&& r.content_type == ContentType::OctetStream
    &&& r.content_length == 0
    &&& r.content is None
}

/// A 400 response with binary content type and no body.
pub open spec fn spec_is_bad_req_bin(r: Response) -> bool {
    &&& r.status == Status::BadRequest
    &&& r.version == Version::V1_1
    &&& r.content_type == ContentType::OctetStream
    &&& r.content_length == 0
    &&& r.content is None
}

/// What remains of `q` after the first `/`, or nothing when `q` holds no
/// `/` at all.
pub open spec fn spec_after_slash(q: Seq<char>) -> Seq<char> {
    let f = spec_find(q, "/"@);
    if f >= 0 {
        q.skip(f + "/"@.len() as int)
    } else {
        Seq::empty()
    }
}

/// The echo segment of a raw path: the text after the first `/` that
/// follows the leading one; a path without a leading `/` is taken as it
/// stands, and a path without such a segment echoes nothing.
pub open spec fn spec_echo_segment(p: Seq<char>) -> Seq<char> {
    let q = if p.len() > 0 && p[0] == '/' {
        p.skip(1)
    } else {
        p
    };
    spec_after_slash(q)
}

/// The file name a `/files` path selects: the text after the `/` that
/// follows the route prefix.
pub open spec fn spec_files_segment(p: Seq<char>) -> Seq<char> {
    spec_after_slash(p.skip(1))
}

/// Composes the file-store target `{root}/{segment}` from the root
/// directory and a raw `/files` path.
pub fn file_target(root: &str, raw_path: &str) -> (r: String)
    requires
        raw_path@.len() >= 1,
        spec_find(raw_path@.skip(1), "/"@) >= 0,
    ensures
        r@ == root@ + "/"@ + spec_files_segment(raw_path@),
{
    let n = raw_path.unicode_len();
    let q = raw_path.substring_char(1, n);
    proof {
        assert(q@ =~= raw_path@.skip(1));
    }
    match find_sub(q, "/") {
        Some(i) => {
            proof {
                reveal_strlit("/");
            }
            let seg = q.substring_char(i + 1, q.unicode_len());
            proof {
                assert(seg@ =~= q@.skip(i as int + 1));
            }
            let mut out = String::from_str(root);
            out.append("/");
            out.append(seg);
            out
        },
        None => {
            proof {
                assert(false);
            }
            String::new()
        },
    }
}

/// The echo segment of a raw path, as the `Echo` route replies with it.
fn echo_segment(raw_path: &str) -> (r: String)
    ensures
        r@ == spec_echo_segment(raw_path@),
{
    let n = raw_path.unicode_len();
    let start: usize = if n > 0 && raw_path.get_char(0) == '/' {
        1
    } else {
        0
    };
    let q = raw_path.substring_char(start, n);
    proof {
        if start == 1 {
            assert(q@ =~= raw_path@.skip(1));
        } else {
            assert(q@ =~= raw_path@);
        }
    }
    match find_sub(q, "/") {
        Some(i) => {
            proof {
                reveal_strlit("/");
            }
            let seg = q.substring_char(i + 1, q.unicode_len());
            proof {
                assert(seg@ =~= q@.skip(i as int + 1));
            }
            seg.to_owned()
        },
        None => String::new(),
    }
}

/// Routes a parsed request: static replies, echo and user-agent echo are
/// answered outright; `/files` requests either fail outright or yield the
/// file action whose outcome decides the response.
pub fn route(req: Request, file_root: &Option<String>) -> (r: RouteOutcome)
    requires
        (req.path == Path::Files && file_root is Some && req.method == Method::Get) ==> (
        req.full_path@.len() >= 1 && spec_find(req.full_path@.skip(1), "/"@) >= 0),
    ensures
        req.path == Path::Empty ==> (r matches RouteOutcome::Done(resp) && spec_is_ok_text(
            resp,
            Seq::empty(),
        )),
        req.path == Path::UserAgent ==> (r matches RouteOutcome::Done(resp) && spec_is_ok_text(
            resp,
            req.agent@,
        )),
        req.path == Path::Echo ==> (r matches RouteOutcome::Done(resp) && spec_is_ok_text(
            resp,
            spec_echo_segment(req.full_path@),
        )),
        (req.path == Path::Files && file_root is None && req.method == Method::Get) ==> (r matches
            RouteOutcome::Done(resp) && spec_is_not_found_text(resp)),
        (req.path == Path::Files && file_root is None && req.method == Method::Post) ==> (r matches
            RouteOutcome::Done(resp) && spec_is_bad_req_bin(resp)),
        (req.path == Path::Files && file_root is Some && req.method == Method::Get) ==> (
        file_root matches Some(root) && r matches RouteOutcome::File(FileAction::Read { target })
            && target@ == root@ + "/"@ + spec_files_segment(req.full_path@)),
        (req.path == Path::Files && file_root is Some && req.method == Method::Post
            && req.body is Some) ==> (file_root matches Some(root) && req.body matches Some(b)
            && r matches RouteOutcome::File(FileAction::Write { root: wr, raw_path, contents })
            && wr@ == root@ && raw_path == req.full_path && contents == b),
        (req.path == Path::Files && file_root is Some && req.method == Method::Post
            && req.body is None) ==> (r matches RouteOutcome::Done(resp) && spec_is_bad_req_bin(
            resp,
        )),
{
    match req.path {
        Path::Empty => RouteOutcome::Done(Response::ok_str(String::new())),
        Path::UserAgent => RouteOutcome::Done(Response::ok_str(req.agent)),
        Path::Echo => RouteOutcome::Done(Response::ok_str(echo_segment(req.full_path.as_str()))),
        Path::Files => match file_root {
            Some(root) => match req.method {
                Method::Get => {
                    let target = file_target(root.as_str(), req.full_path.as_str());
                    RouteOutcome::File(FileAction::Read { target })
                },
                Method::Post => match req.body {
                    Some(contents) => RouteOutcome::File(
                        FileAction::Write {
                            root: root.clone(),
                            raw_path: req.full_path,
                            contents,
                        },
                    ),
                    None => RouteOutcome::Done(Response::bad_req_bin()),
                },
            },
            None => match req.method {
                Method::Get => RouteOutcome::Done(Response::not_found_str()),
                Method::Post => RouteOutcome::Done(Response::bad_req_bin()),
            },
        },
    }
}

/// The response a `/files` GET ends in, once the driver reports the file's
/// bytes — or their absence.
pub fn read_outcome_response(found: Option<Vec<u8>>) -> (r: Response)
    ensures
        found matches Some(b) ==> (r.status == Status::Okay && r.version == Version::V1_1
            && r.content_type == ContentType::OctetStream && r.content_length == b@.len()
            && r.content == Option::Some(Content::Binary(b)) && r.wf()),
        found is None ==> spec_is_not_found_bin(r),
{
    match found {
        Some(content) => Response::ok_bin(content),
        None => Response::not_found_bin(),
    }
}

/// The response a `/files` POST ends in, once the driver reports whether
/// the root directory exists; `written` is the byte count of the request
/// body it wrote there.
pub fn write_outcome_response(root_exists: bool, written: usize) -> (r: Response)
    ensures
        root_exists ==> (r.status == Status::Created && r.version == Version::V1_1
            && r.content_type == ContentType::TextPlain && r.content_length == written
            && r.content is None),
        !root_exists ==> spec_is_bad_req_bin(r),
{
    if root_exists {
        Response::created(written)
    } else {
        Response::bad_req_bin()
    }
}

} // verus!
