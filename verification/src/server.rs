//! Building the HTTP reply for one request, from the outcome of reading the
//! requested file from disk.
//!
//! Both routes — the HTML shell at `/` and the compiled bundle at
//! `/elm.js` — re-read their file on every request and reply the same way:
//! the file's exact bytes on success, a server error carrying the OS error
//! text on failure. The read itself happens outside; this module turns its
//! outcome into the reply.

use vstd::prelude::*;

verus! {

/// The success status of a served file.
pub const STATUS_OK: u16 = 200;

/// The status of a failed file read.
pub const STATUS_INTERNAL_SERVER_ERROR: u16 = 500;

/// The body of an HTTP reply: a file's raw bytes, or an error message.
#[derive(Debug)]
pub enum ReplyBody {
    /// The served file's bytes.
    Bytes(Vec<u8>),
    /// A human-readable error message.
    Text(String),
}

/// One HTTP reply: a status code and a body.
#[derive(Debug)]
pub struct HttpReply {
    /// The HTTP status code.
    pub status: u16,
    /// The reply body.
    pub body: ReplyBody,
}

/// The body reported for a failed read: a fixed prefix, then the OS error
/// description.
pub open spec fn error_body(err: Seq<char>) -> Seq<char> {
    "Error reading file: "@ + err
}

/// The outcome of a file read, at the specification level: the bytes read,
/// or the OS error text.
pub open spec fn read_view(read: Result<Vec<u8>, String>) -> Result<Seq<u8>, Seq<char>> {
    match read {
        Ok(contents) => Ok(contents@),
        Err(err) => Err(err@),
    }
}

/// `r` is the reply owed for the read outcome `read`: status 200 with the
/// file's exact bytes when the read succeeded, status 500 with the error
/// body otherwise.
pub open spec fn is_reply_for(read: Result<Seq<u8>, Seq<char>>, r: HttpReply) -> bool {
    match read {
        Ok(contents) => {
            &&& r.status == STATUS_OK
            &&& r.body matches ReplyBody::Bytes(b) && b@ == contents
        },
        Err(err) => {
            &&& r.status == STATUS_INTERNAL_SERVER_ERROR
            &&& r.body matches ReplyBody::Text(t) && t@ == error_body(err)
        },
    }
}

/// Builds the reply for one request from the outcome of reading the
/// requested file.
pub fn reply_for_read(read: Result<Vec<u8>, String>) -> (r: HttpReply)
    ensures
        is_reply_for(read_view(read), r),
{
    match read {
        Ok(contents) => HttpReply { status: STATUS_OK, body: ReplyBody::Bytes(contents) },
        Err(err) => {
            let mut body = "Error reading file: ".to_owned();
            body.append(err.as_str());
            HttpReply { status: STATUS_INTERNAL_SERVER_ERROR, body: ReplyBody::Text(body) }
        },
    }
}

/// The two bodies agree byte for byte.
pub open spec fn same_body(a: ReplyBody, b: ReplyBody) -> bool {
    match (a, b) {
        (ReplyBody::Bytes(x), ReplyBody::Bytes(y)) => x@ == y@,
        (ReplyBody::Text(x), ReplyBody::Text(y)) => x@ == y@,
        _ => false,
    }
}

/// Serving is deterministic: two replies built for the same read outcome
/// agree on status and body. With no intervening file change the two reads
/// of one file return the same bytes, so repeating a request returns a
/// byte-identical response.
pub proof fn lemma_reply_deterministic(
    read: Result<Seq<u8>, Seq<char>>,
    r1: HttpReply,
    r2: HttpReply,
)
    requires
        is_reply_for(read, r1),
        is_reply_for(read, r2),
    ensures
        r1.status == r2.status,
        same_body(r1.body, r2.body),
{
}

} // verus!
