//! Response construction and byte-exact serialization: status line,
//! `Content-Type` and `Content-Length` headers, blank line, body.

use vstd::prelude::*;
use vstd::utf8::encode_utf8;
use vstd::utf8::is_ascii_chars;

use crate::http::content_type_token;
use crate::http::status_token;
use crate::http::version_token;
use crate::http::ContentType;
use crate::http::Status;
use crate::http::Version;
use crate::text::dec_u64;
use crate::text::lemma_dec_ascii;
use crate::text::spec_dec;

verus! {

/// Response body payload, either textual or binary; both serialize to raw
/// bytes, only the textual form differs.
#[derive(Debug, Clone)]
pub enum Content {
    Text(String),
    Binary(Vec<u8>),
}

/// Textual form of a content: the text itself, or a fixed placeholder for
/// binary payloads.
pub open spec fn spec_content_text(c: Content) -> Seq<char> {
    match c {
        Content::Text(t) => t@,
        Content::Binary(b) => "binary content"@,
    }
}

impl Content {
    /// Textual form of this content: the text itself, or a fixed
    /// placeholder for binary payloads.
    pub fn to_text(&self) -> (r: String)
        ensures
            r@ == spec_content_text(*self),
    {
        match self {
            Content::Text(t) => t.clone(),
            Content::Binary(_) => String::from_str("binary content"),
        }
    }
}

/// The raw bytes a body serializes to: nothing when content is absent, the
/// UTF-8 bytes of a text, the bytes themselves of a binary payload.
pub open spec fn spec_body_bytes(c: Option<Content>) -> Seq<u8> {
    match c {
        Option::None => Seq::empty(),
        Option::Some(Content::Text(t)) => encode_utf8(t@),
        Option::Some(Content::Binary(b)) => b@,
    }
}

/// An HTTP response: status line fields, the two headers, and an optional
/// body. Absent content is distinct from empty content.
#[derive(Debug, Clone)]
pub struct Response {
    pub version: Version,
    pub status: Status,
    pub content_length: usize,
    pub content_type: ContentType,
    pub content: Option<Content>,
}

/// Characters of the serialized header section, up to and including the
/// blank line.
pub open spec fn spec_header_chars(r: Response) -> Seq<char> {
    spec_prefix_chars(r) + spec_dec(r.content_length as nat) + "\r\n\r\n"@
}

/// Characters of the header section up to (excluding) the content-length
/// value.
pub open spec fn spec_prefix_chars(r: Response) -> Seq<char> {
    version_token(r.version) + " "@ + status_token(r.status) + "\r\n"@ + "Content-Type: "@
        + content_type_token(r.content_type) + "\r\n"@ + "Content-Length: "@
}

/// The exact serialized bytes of a response.
pub open spec fn spec_serialize(r: Response) -> Seq<u8> {
    encode_utf8(spec_header_chars(r)) + spec_body_bytes(r.content)
}

/// Characters of the textual form: the header section followed by the
/// content's textual form.
pub open spec fn spec_display_chars(r: Response) -> Seq<char> {
    spec_header_chars(r) + (match r.content {
        Option::Some(c) => spec_content_text(c),
        Option::None => Seq::<char>::empty(),
    })
}

impl Response {
    /// The declared content length agrees with the byte length of the body;
    /// every constructor but `created` establishes this.
    pub open spec fn wf(self) -> bool {
        self.content_length == spec_body_bytes(self.content).len()
    }

    /// 200 response carrying a text body.
    pub fn ok_str(content: String) -> (r: Self)
        ensures
            r.status == Status::Okay,
            r.version == Version::V1_1,
            r.content_type == ContentType::TextPlain,
            r.content_length == encode_utf8(content@).len(),
            r.content == Option::Some(Content::Text(content)),
            r.wf(),
    {
        let content_length = content.as_str().as_bytes().len();
        Self {
            status: Status::Okay,
            version: Version::V1_1,
            content_type: ContentType::TextPlain,
            content_length,
            content: Some(Content::Text(content)),
        }
    }

    /// 200 response carrying a binary body.
    pub fn ok_bin(content: Vec<u8>) -> (r: Self)
        ensures
            r.status == Status::Okay,
            r.version == Version::V1_1,
            r.content_type == ContentType::OctetStream,
            r.content_length == content@.len(),
            r.content == Option::Some(Content::Binary(content)),
            r.wf(),
    {
        let content_length = content.len();
        Self {
            status: Status::Okay,
            version: Version::V1_1,
            content_type: ContentType::OctetStream,
            content_length,
            content: Some(Content::Binary(content)),
        }
    }

    /// 404 response, text content type, no body.
    pub fn not_found_str() -> (r: Self)
        ensures
            r.status == Status::NotFound,
            r.version == Version::V1_1,
            r.content_type == ContentType::TextPlain,
            r.content_length == 0,
            r.content is None,
            r.wf(),
    {
        Self {
            status: Status::NotFound,
            version: Version::V1_1,
            content_type: ContentType::TextPlain,
            content_length: 0,
            content: None,
        }
    }

    /// 404 response, binary content type, no body.
    pub fn not_found_bin() -> (r: Self)
        ensures
            r.status == Status::NotFound,
            r.version == Version::V1_1,
            r.content_type == ContentType::OctetStream,
            r.content_length == 0,
            r.content is None,
            r.wf(),
    {
        Self {
            status: Status::NotFound,
            version: Version::V1_1,
            content_type: ContentType::OctetStream,
            content_length: 0,
            content: None,
        }
    }

    /// 400 response, binary content type, no body.
    pub fn bad_req_bin() -> (r: Self)
        ensures
            r.status == Status::BadRequest,
            r.version == Version::V1_1,
            r.content_type == ContentType::OctetStream,
            r.content_length == 0,
            r.content is None,
            r.wf(),
    {
        Self {
            status: Status::BadRequest,
            version: Version::V1_1,
            content_type: ContentType::OctetStream,
            content_length: 0,
            content: None,
        }
    }

    /// 400 response, text content type, no body.
    pub fn bad_req_str() -> (r: Self)
        ensures
            r.status == Status::BadRequest,
            r.version == Version::V1_1,
            r.content_type == ContentType::TextPlain,
            r.content_length == 0,
            r.content is None,
            r.wf(),
    {
        Self {
            status: Status::BadRequest,
            version: Version::V1_1,
            content_type: ContentType::TextPlain,
            content_length: 0,
            content: None,
        }
    }

    /// 201 response announcing how many bytes were written; it carries no
    /// body, so its declared length deliberately exceeds its body's.
    pub fn created(content_length: usize) -> (r: Self)
        ensures
            r.status == Status::Created,
            r.version == Version::V1_1,
            r.content_type == ContentType::TextPlain,
            r.content_length == content_length,
            r.content is None,
    {
        Self {
            status: Status::Created,
            version: Version::V1_1,
            content_type: ContentType::TextPlain,
            content_length,
            content: None,
        }
    }

    /// The serialized header section as a string, up to and including the
    /// blank line.
    fn header_string(&self) -> (r: String)
        ensures
            r@ == spec_header_chars(*self),
    {
        let mut s = String::new();
        s.append(self.version.to_token());
        s.append(" ");
        s.append(self.status.to_token());
        s.append("\r\n");
        s.append("Content-Type: ");
        s.append(self.content_type.to_token());
        s.append("\r\n");
        s.append("Content-Length: ");
        let d = dec_u64(self.content_length as u64);
        s.append(d.as_str());
        s.append("\r\n\r\n");
        proof {
            assert(s@ =~= spec_header_chars(*self));
        }
        s
    }

    /// The textual form of the whole response: header section, then the
    /// content's textual form.
    pub fn to_text(&self) -> (r: String)
        ensures
            r@ == spec_display_chars(*self),
    {
        let mut s = self.header_string();
        match &self.content {
            Some(c) => {
                let t = c.to_text();
                s.append(t.as_str());
            },
            None => {},
        }
        s
    }

    /// Serializes the response to its exact wire bytes. The stored content
    /// length is emitted as is; it is never recomputed from the body.
    pub fn to_bytes(&self) -> (r: Vec<u8>)
        ensures
            r@ == spec_serialize(*self),
    {
        let h = self.header_string();
        let mut out = h.as_str().as_bytes_vec();
        match &self.content {
            None => {},
            Some(Content::Text(t)) => {
                let mut b = t.as_str().as_bytes_vec();
                out.append(&mut b);
            },
            Some(Content::Binary(v)) => {
                let n = v.len();
                let mut i: usize = 0;
                while i < n
                    invariant
                        n == v@.len(),
                        i <= n,
                        out@ == encode_utf8(spec_header_chars(*self)) + v@.take(i as int),
                    decreases n - i,
                {
                    out.push(v[i]);
                    proof {
                        assert(v@.take(i as int).push(v@[i as int]) =~= v@.take(i as int + 1));
                    }
                    i += 1;
                }
                proof {
                    assert(v@.take(n as int) =~= v@);
                }
            },
        }
        out
    }
}

/// The bytes of an ASCII character sequence, one byte per character.
pub open spec fn ascii_bytes(s: Seq<char>) -> Seq<u8> {
    Seq::new(s.len(), |i: int| s[i] as u8)
}

/// Concatenating ASCII character sequences yields an ASCII sequence.
proof fn lemma_ascii_concat(a: Seq<char>, b: Seq<char>)
    requires
        is_ascii_chars(a),
        is_ascii_chars(b),
    ensures
        is_ascii_chars(a + b),
{
    assert forall|i: int| 0 <= i < (a + b).len() implies '\0' <= #[trigger] (a + b)[i]
        <= '\u{7f}' by {
        if i < a.len() {
            assert((a + b)[i] == a[i]);
        } else {
            assert((a + b)[i] == b[i - a.len()]);
        }
    }
}

/// Byte rendering distributes over concatenation.
proof fn lemma_ascii_bytes_concat(a: Seq<char>, b: Seq<char>)
    ensures
        ascii_bytes(a + b) == ascii_bytes(a) + ascii_bytes(b),
{
    assert(ascii_bytes(a + b) =~= ascii_bytes(a) + ascii_bytes(b)) by {
        assert forall|i: int| 0 <= i < (a + b).len() implies #[trigger] ascii_bytes(a + b)[i] == (
        ascii_bytes(a) + ascii_bytes(b))[i] by {
            if i < a.len() {
                assert((a + b)[i] == a[i]);
                assert((ascii_bytes(a) + ascii_bytes(b))[i] == ascii_bytes(a)[i]);
            } else {
                assert((a + b)[i] == b[i - a.len()]);
                assert((ascii_bytes(a) + ascii_bytes(b))[i] == ascii_bytes(b)[i - a.len()]);
            }
        }
    };
}

/// The header section consists of ASCII characters only.
proof fn lemma_header_ascii(r: Response)
    ensures
        is_ascii_chars(spec_header_chars(r)),
        is_ascii_chars(spec_prefix_chars(r)),
        is_ascii_chars("\r\n\r\n"@),
{
    reveal_strlit("HTTP/1.1");
    reveal_strlit("200 OK");
    reveal_strlit("404 Not Found");
    reveal_strlit("400 Bad Request");
    reveal_strlit("201 Created");
    reveal_strlit("text/plain");
    reveal_strlit("application/octet-stream");
    reveal_strlit(" ");
    reveal_strlit("\r\n");
    reveal_strlit("Content-Type: ");
    reveal_strlit("Content-Length: ");
    reveal_strlit("\r\n\r\n");
    assert(is_ascii_chars(version_token(r.version)));
    assert(is_ascii_chars(status_token(r.status)));
    assert(is_ascii_chars(content_type_token(r.content_type)));
    assert(is_ascii_chars(" "@));
    assert(is_ascii_chars("\r\n"@));
    assert(is_ascii_chars("Content-Type: "@));
    assert(is_ascii_chars("Content-Length: "@));
    assert(is_ascii_chars("\r\n\r\n"@));
    lemma_ascii_concat(version_token(r.version), " "@);
    lemma_ascii_concat(version_token(r.version) + " "@, status_token(r.status));
    lemma_ascii_concat(version_token(r.version) + " "@ + status_token(r.status), "\r\n"@);
    lemma_ascii_concat(
        version_token(r.version) + " "@ + status_token(r.status) + "\r\n"@,
        "Content-Type: "@,
    );
    lemma_ascii_concat(
        version_token(r.version) + " "@ + status_token(r.status) + "\r\n"@ + "Content-Type: "@,
        content_type_token(r.content_type),
    );
    lemma_ascii_concat(
        version_token(r.version) + " "@ + status_token(r.status) + "\r\n"@ + "Content-Type: "@
            + content_type_token(r.content_type),
        "\r\n"@,
    );
    lemma_ascii_concat(
        version_token(r.version) + " "@ + status_token(r.status) + "\r\n"@ + "Content-Type: "@
            + content_type_token(r.content_type) + "\r\n"@,
        "Content-Length: "@,
    );
    lemma_dec_ascii(r.content_length as nat);
    lemma_ascii_concat(spec_prefix_chars(r), spec_dec(r.content_length as nat));
    lemma_ascii_concat(spec_prefix_chars(r) + spec_dec(r.content_length as nat), "\r\n\r\n"@);
}

/// Serialization invariant: the serialized bytes of a well-formed response
/// carry, between the `Content-Length: ` prefix and the blank line, exactly
/// the decimal rendering of the byte length of the body that follows.
pub proof fn lemma_serialized_content_length(r: Response)
    requires
        r.wf(),
    ensures
        spec_serialize(r) == ascii_bytes(spec_prefix_chars(r)) + ascii_bytes(
            spec_dec(spec_body_bytes(r.content).len()),
        ) + ascii_bytes("\r\n\r\n"@) + spec_body_bytes(r.content),
{
    lemma_header_ascii(r);
    vstd::utf8::is_ascii_chars_encode_utf8(spec_header_chars(r));
    assert(encode_utf8(spec_header_chars(r)) =~= ascii_bytes(spec_header_chars(r)));
    lemma_ascii_bytes_concat(
        spec_prefix_chars(r) + spec_dec(r.content_length as nat),
        "\r\n\r\n"@,
    );
    lemma_ascii_bytes_concat(spec_prefix_chars(r), spec_dec(r.content_length as nat));
}

} // verus!
