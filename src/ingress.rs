//! What both ingress protocols decide: whether a body may be stored, how much
//! of an HTTP body to read, and the reply for each outcome.

use vstd::prelude::*;
use vstd::string::StringExecFns;
use vstd::utf8::{decode_utf8, valid_utf8};

verus! {

/// The status of an HTTP reply to a paste stored in full.
pub const STATUS_CREATED: u16 = 201;

/// The status of an HTTP reply to a paste stored truncated.
pub const STATUS_PARTIAL: u16 = 206;

/// The status of an HTTP reply to a body that cannot be stored.
pub const STATUS_BAD_REQUEST: u16 = 400;

/// The status of an HTTP reply to a client over its quota.
pub const STATUS_TOO_MANY_REQUESTS: u16 = 429;

/// A captured body, as the store sees it.
pub enum PasteBody {
    /// Valid, non-empty UTF-8 text, to be stored.
    Text(String),
    /// No bytes at all.
    Empty,
    /// Bytes that are not valid UTF-8.
    NotUtf8,
}

/// Why a paste was not stored.
#[derive(Clone, Copy, Debug, PartialEq, Eq, Structural)]
pub enum Rejection {
    RateLimited,
    NotUtf8,
    Empty,
}

/// A reply of the HTTP ingress to a POST.
pub struct HttpReply {
    pub status: u16,
    pub body: String,
    pub location: Option<String>,
}

/// Relies on `String::from_utf8`: the text that the bytes encode, where they
/// are valid UTF-8, and nothing otherwise.
#[verifier::external_body]
fn text_from_utf8(bytes: Vec<u8>) -> (r: Option<String>)
    ensures
        r is Some <==> valid_utf8(bytes@),
        r matches Some(t) ==> t@ == decode_utf8(bytes@),
{
    String::from_utf8(bytes).ok()
}

/// Sorts a captured body: text to store, or the reason it cannot be stored.
pub fn validate_paste(bytes: Vec<u8>) -> (r: PasteBody)
    ensures
        r is NotUtf8 <==> !valid_utf8(bytes@),
        r is Empty <==> bytes@.len() == 0,
        r matches PasteBody::Text(t) ==> valid_utf8(bytes@) && bytes@.len() > 0 && t@
            == decode_utf8(bytes@),
{
    let empty = bytes.len() == 0;
    match text_from_utf8(bytes) {
        None => PasteBody::NotUtf8,
        Some(t) => {
            if empty {
                PasteBody::Empty
            } else {
                PasteBody::Text(t)
            }
        },
    }
}

/// The text that the byte-stream ingress sends for a rejection.
pub open spec fn socket_rejection_text(r: Rejection) -> Seq<char> {
    match r {
        Rejection::RateLimited => "Rate limited\n"@,
        Rejection::NotUtf8 => "Failed to parse paste as UTF-8"@,
        Rejection::Empty => "No content"@,
    }
}

/// The reply of the byte-stream ingress to a paste that was not stored.
pub fn socket_rejection_reply(r: Rejection) -> (s: String)
    ensures
        s@ == socket_rejection_text(r),
{
    match r {
        Rejection::RateLimited => String::from_str("Rate limited\n"),
        Rejection::NotUtf8 => String::from_str("Failed to parse paste as UTF-8"),
        Rejection::Empty => String::from_str("No content"),
    }
}

/// The reply of either ingress to a stored paste: its URL and a newline.
pub fn url_line(url: &str) -> (s: String)
    ensures
        s@ == url@.push('\n'),
{
    let mut s = String::from_str(url);
    crate::slug::push_char(&mut s, '\n');
    s
}

/// Characters that are all decimal digits, at least one.
pub open spec fn is_digits(s: Seq<char>) -> bool {
    &&& s.len() > 0
    &&& forall|i: int| 0 <= i < s.len() ==> '0' <= #[trigger] s[i] && s[i] <= '9'
}

/// The number that a string of decimal digits writes.
pub open spec fn digits_value(s: Seq<char>) -> int
    decreases s.len(),
{
    if s.len() == 0 {
        0
    } else {
        digits_value(s.drop_last()) * 10 + (s.last() as int - '0' as int)
    }
}

/// The digits of an unsigned decimal number: the text after one leading
/// `+`, or all of it.
pub open spec fn unsigned_digits(s: Seq<char>) -> Seq<char> {
    if s.len() > 0 && s[0] == '+' {
        s.skip(1)
    } else {
        s
    }
}

/// The `usize` that a text writes in decimal, with an optional leading `+`.
pub open spec fn usize_value(s: Seq<char>) -> Option<usize> {
    let d = unsigned_digits(s);
    if is_digits(d) && digits_value(d) <= usize::MAX {
        Some(digits_value(d) as usize)
    } else {
        None
    }
}

/// Relies on `str::parse::<usize>`: an optional `+` and decimal digits, with
/// no other character, whose value fits in `usize`.
#[verifier::external_body]
fn parse_usize(s: &str) -> (r: Option<usize>)
    ensures
        r == usize_value(s@),
{
    s.parse::<usize>().ok()
}

/// The length that a `Content-Length` header declares, where there is one
/// and it parses.
pub fn declared_length(header: Option<&str>) -> (r: Option<usize>)
    ensures
        r == match header {
            Some(h) => usize_value(h@),
            None => None,
        },
{
    match header {
        Some(h) => parse_usize(h),
        None => None,
    }
}

/// How many bytes of an HTTP body to read: the declared length where there is
/// one, but never more than `max_paste_size`.
pub fn read_bound(content_length: Option<usize>, max_paste_size: usize) -> (r: usize)
    ensures
        r == match content_length {
            Some(cl) => if cl < max_paste_size { cl } else { max_paste_size },
            None => max_paste_size,
        },
{
    match content_length {
        Some(cl) => if cl < max_paste_size { cl } else { max_paste_size },
        None => max_paste_size,
    }
}

/// The status of an HTTP reply to a stored paste: partial content where the
/// declared length went beyond what was read, created otherwise.
pub fn created_status(content_length: Option<usize>, bound: usize) -> (r: u16)
    ensures
        r == (if content_length matches Some(cl) && cl > bound {
            STATUS_PARTIAL
        } else {
            STATUS_CREATED
        }),
{
    match content_length {
        Some(cl) => if cl > bound { STATUS_PARTIAL } else { STATUS_CREATED },
        None => STATUS_CREATED,
    }
}

/// The HTTP reply to a stored paste whose URL is `url`: the URL and a newline
/// as body, the URL as location, and a status that tells whether the body
/// was truncated to `bound` bytes.
pub fn http_created_reply(url: String, content_length: Option<usize>, bound: usize) -> (r:
    HttpReply)
    ensures
        r.status == (if content_length matches Some(cl) && cl > bound {
            STATUS_PARTIAL
        } else {
            STATUS_CREATED
        }),
        r.body@ == url@.push('\n'),
        r.location matches Some(l) && l@ == url@,
{
    let body = url_line(url.as_str());
    HttpReply { status: created_status(content_length, bound), body, location: Some(url) }
}

/// The status and body of the HTTP reply to a rejection.
pub open spec fn http_rejection(r: Rejection) -> (u16, Seq<char>) {
    match r {
        Rejection::RateLimited => (STATUS_TOO_MANY_REQUESTS, "Rate limited\n"@),
        Rejection::NotUtf8 => (STATUS_BAD_REQUEST, "Failed to parse paste as UTF-8"@),
        Rejection::Empty => (STATUS_BAD_REQUEST, "No content"@),
    }
}

/// The HTTP reply to a POST whose paste was not stored.
pub fn http_rejection_reply(r: Rejection) -> (reply: HttpReply)
    ensures
        (reply.status, reply.body@) == http_rejection(r),
        reply.location is None,
{
    let status = match r {
        Rejection::RateLimited => STATUS_TOO_MANY_REQUESTS,
        _ => STATUS_BAD_REQUEST,
    };
    HttpReply { status, body: socket_rejection_reply(r), location: None }
}

} // verus!
